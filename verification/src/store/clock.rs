//! Database time. A stamp is a number of nanoseconds since the Unix epoch.
use time::OffsetDateTime;
use vstd::prelude::*;

verus! {

/// Stamps of the years -9999 to 9999, to the nanosecond.
pub open spec fn representable(nanos: int) -> bool {
    -377705116800000000000 <= nanos <= 253402300799999999999
}

/// `time::OffsetDateTime::from_unix_timestamp_nanos`: it takes exactly the stamps
/// whose whole seconds lie in the years -9999 to 9999, and the time it makes is
/// that stamp.
#[verifier::external_body]
fn instant_from_nanos(nanos: i128) -> (r: Option<i128>)
    ensures
        r == (if representable(nanos as int) {
            Some(nanos)
        } else {
            None
        }),
{
    OffsetDateTime::from_unix_timestamp_nanos(nanos).ok().map(|t| t.unix_timestamp_nanos())
}

/// The stamp of a whole number of milliseconds, where a time can hold it.
pub open spec fn stamp_of(millis: i64) -> Option<i128> {
    if representable(millis * 1000000) {
        Some((millis * 1000000) as i128)
    } else {
        None
    }
}

pub fn stamp(millis: i64) -> (r: Option<i128>)
    ensures
        r == stamp_of(millis),
{
    instant_from_nanos(millis as i128 * 1000000)
}

/// The whole milliseconds of a stamp, rounded towards the epoch.
pub open spec fn whole_millis(nanos: int) -> int {
    if nanos >= 0 {
        nanos / 1000000
    } else {
        -((-nanos) / 1000000)
    }
}

pub fn whole(nanos: i128) -> (r: i128)
    ensures
        r == whole_millis(nanos as int),
{
    if nanos >= 0 {
        (nanos as u128 / 1000000) as i128
    } else if nanos == i128::MIN {
        -170141183460469231731687303715884
    } else {
        -(((-nanos) as u128 / 1000000) as i128)
    }
}

/// The milliseconds of a stamp, where 64 bits hold them.
pub open spec fn millis_of(nanos: i128) -> Option<i64> {
    if i64::MIN <= whole_millis(nanos as int) <= i64::MAX {
        Some(whole_millis(nanos as int) as i64)
    } else {
        None
    }
}

pub fn millis(nanos: i128) -> (r: Option<i64>)
    ensures
        r == millis_of(nanos),
{
    let m: i128 = whole(nanos);
    if m < i64::MIN as i128 || m > i64::MAX as i128 {
        return None;
    }
    Some(m as i64)
}

/// The milliseconds of an optional stamp; `None` where they do not fit.
pub open spec fn optional_millis(at: Option<i128>) -> Option<Option<i64>> {
    match at {
        None => Some(None),
        Some(t) => match millis_of(t) {
            Some(m) => Some(Some(m)),
            None => None,
        },
    }
}

pub fn millis_if_any(at: Option<i128>) -> (r: Option<Option<i64>>)
    ensures
        r == optional_millis(at),
{
    match at {
        None => Some(None),
        Some(t) => match millis(t) {
            Some(m) => Some(Some(m)),
            None => None,
        },
    }
}

/// A deadline that exists and has been reached.
pub open spec fn passed(at: Option<i128>, now: i128) -> bool {
    at matches Some(t) && t <= now
}

pub fn has_passed(at: Option<i128>, now: i128) -> (r: bool)
    ensures
        r == passed(at, now),
{
    match at {
        Some(t) => t <= now,
        None => false,
    }
}

/// The earlier of two deadlines, where one that is absent never comes.
pub open spec fn earlier_of(a: Option<i128>, b: Option<i128>) -> Option<i128> {
    match (a, b) {
        (Some(x), Some(y)) => Some(if x <= y {
            x
        } else {
            y
        }),
        (Some(x), None) => Some(x),
        (None, y) => y,
    }
}

pub fn earlier(a: Option<i128>, b: Option<i128>) -> (r: Option<i128>)
    ensures
        r == earlier_of(a, b),
{
    match (a, b) {
        (Some(x), Some(y)) => Some(if x <= y {
            x
        } else {
            y
        }),
        (Some(x), None) => Some(x),
        (None, y) => y,
    }
}

/// The earlier of two deadlines has been reached exactly when either has.
pub proof fn either_deadline_ends_it(a: Option<i128>, b: Option<i128>, now: i128)
    ensures
        passed(earlier_of(a, b), now) <==> passed(a, now) || passed(b, now),
{
}

/// A report's time is positive and lies from ten seconds before to five seconds
/// after the reference time, and not past the claim that solicited it.
pub open spec fn timely(observed: i64, reference: i64, expires: i64) -> bool {
    observed > 0 && reference - 10000 <= observed <= reference + 5000 && observed <= expires
}

pub fn is_timely(observed: i64, reference: i64, expires: i64) -> (r: bool)
    ensures
        r == timely(observed, reference, expires),
{
    observed > 0 && observed as i128 <= reference as i128 + 5000 && observed <= expires && observed as i128
        >= reference as i128 - 10000
}

/// A lease length that a claim may ask for: one second to five minutes.
pub open spec fn lease_allowed(seconds: u32) -> bool {
    1 <= seconds <= 300
}

/// A retry delay that a claim may ask for: one second to one hour.
pub open spec fn delay_allowed(seconds: u32) -> bool {
    1 <= seconds <= 3600
}

} // verus!
