//! Allocation-serialized history retirement and admission accounting.
use crate::history::Domain;
use crate::ids::{AllocationId, Id, OperationId};
use crate::store::clock::{lease_allowed, millis, millis_of};
use crate::store::dispatch::DispatchError;
use vstd::prelude::*;
use vstd::string::*;

pub mod coordinator;
pub mod evidence;
pub mod released;

verus! {

#[derive(Debug, Clone, Copy, PartialEq, Eq, Structural)]
pub enum Error {
    /// Invalid retirement evidence.
    Evidence,
    /// History claim expired or changed.
    LostClaim,
    /// Invalid retirement policy.
    Policy,
}

#[derive(Debug, Clone, Copy, PartialEq, Eq, Structural)]
pub struct Claim {
    pub allocation_id: AllocationId,
    pub domain: Domain,
    pub revision: i64,
    pub expires_at: i128,
}

pub open spec fn domain_name(domain: Domain) -> Seq<char> {
    match domain {
        Domain::Commands => "commands"@,
        Domain::Files => "files"@,
    }
}

pub fn name(domain: Domain) -> (r: &'static str)
    ensures
        r@ == domain_name(domain),
{
    match domain {
        Domain::Commands => "commands",
        Domain::Files => "files",
    }
}

/// The kind of operation that a domain retires.
pub open spec fn domain_kind(domain: Domain) -> Seq<char> {
    match domain {
        Domain::Commands => "execute"@,
        Domain::Files => "file_write"@,
    }
}

/// How many operations one reservation may close.
pub open spec fn domain_limit(domain: Domain) -> int {
    match domain {
        Domain::Commands => 33,
        Domain::Files => 17,
    }
}

pub fn limit(domain: Domain) -> (r: usize)
    ensures
        r == domain_limit(domain),
{
    match domain {
        Domain::Commands => 33,
        Domain::Files => 17,
    }
}

/// A claim is asked for at a positive epoch, for one second to five minutes.
pub open spec fn policy_allowed(epoch: i64, seconds: u32) -> bool {
    epoch > 0 && lease_allowed(seconds)
}

/// What a retirement policy may be found to be.
pub open spec fn policy_checked(epoch: i64, seconds: u32, r: Result<(), Error>) -> bool {
    r == (if policy_allowed(epoch, seconds) {
        Ok::<(), Error>(())
    } else {
        Err(Error::Policy)
    })
}

pub fn check_policy(epoch: i64, seconds: u32) -> (r: Result<(), Error>)
    ensures
        policy_checked(epoch, seconds, r),
{
    if seconds < 1 || seconds > 300 || epoch <= 0 {
        return Err(Error::Policy);
    }
    Ok(())
}

/// What a write of a history claim may be found to be.
pub open spec fn history_written(changed: u64, r: Result<(), Error>) -> bool {
    r == (if changed == 1 {
        Ok::<(), Error>(())
    } else {
        Err(Error::LostClaim)
    })
}

/// A write under a history claim must have changed exactly its row.
pub fn owned_write(changed: u64) -> (r: Result<(), Error>)
    ensures
        history_written(changed, r),
{
    if changed != 1 {
        return Err(Error::LostClaim);
    }
    Ok(())
}

pub fn stamp_millis(at: i128) -> (r: Result<i64, Error>)
    ensures
        match r {
            Ok(m) => millis_of(at) == Some(m),
            Err(e) => e == Error::Evidence && millis_of(at) is None,
        },
{
    match millis(at) {
        Some(m) => Ok(m),
        None => Err(Error::Evidence),
    }
}

/// The greatest of an optional identity and a list of them.
pub open spec fn greatest(last: Option<OperationId>, reserved: Seq<OperationId>) -> Option<OperationId>
    decreases reserved.len(),
{
    if reserved.len() == 0 {
        last
    } else {
        let v = reserved.last();
        match greatest(last, reserved.drop_last()) {
            Some(f) => if f.value >= v.value {
                Some(f)
            } else {
                Some(v)
            },
            None => Some(v),
        }
    }
}

/// What a new command must come after.
pub open spec fn floor_found(
    retired: bool,
    last: Option<OperationId>,
    reserved: &Vec<OperationId>,
    r: Result<Option<OperationId>, DispatchError>,
) -> bool {
    r == (if retired {
        Err::<Option<OperationId>, DispatchError>(DispatchError::Conflict)
    } else {
        Ok(greatest(last, reserved@))
    })
}

/// Behind which identity a new operation of an allocation must come: behind the
/// last one admitted and behind everything reserved for retirement. A retired
/// allocation admits nothing.
pub fn admission_floor(retired: bool, last: Option<OperationId>, reserved: &Vec<OperationId>) -> (r: Result<
    Option<OperationId>,
    DispatchError,
>)
    ensures
        floor_found(retired, last, reserved, r),
{
    if retired {
        return Err(DispatchError::Conflict);
    }
    let mut floor: Option<OperationId> = last;
    let mut i: usize = 0;
    assert(reserved@.take(0) =~= Seq::empty());
    while i < reserved.len()
        invariant
            i <= reserved@.len(),
            floor == greatest(last, reserved@.take(i as int)),
        decreases reserved@.len() - i,
    {
        proof {
            assert(reserved@.take(i + 1).drop_last() =~= reserved@.take(i as int));
            assert(reserved@.take(i + 1).last() == reserved@[i as int]);
        }
        let v: OperationId = reserved[i];
        floor = match floor {
            Some(f) => if f.uuid() >= v.uuid() {
                Some(f)
            } else {
                Some(v)
            },
            None => Some(v),
        };
        i = i + 1;
    }
    assert(reserved@.take(i as int) =~= reserved@);
    Ok(floor)
}

/// The floor is at least the last admitted identity and every reserved one, so an
/// operation behind it is never inside a reserved prefix.
pub proof fn floors_cover_everything_reserved(last: Option<OperationId>, reserved: Seq<OperationId>)
    ensures
        forall|i: int|
            0 <= i < reserved.len() ==> (greatest(last, reserved) matches Some(f) && (#[trigger] reserved[i]).value
                <= f.value),
        last matches Some(l) ==> (greatest(last, reserved) matches Some(f) && l.value <= f.value),
    decreases reserved.len(),
{
    if reserved.len() > 0 {
        let front = reserved.drop_last();
        floors_cover_everything_reserved(last, front);
        assert forall|i: int| 0 <= i < reserved.len() implies (greatest(last, reserved) matches Some(f) && (
        #[trigger] reserved[i]).value <= f.value) by {
            if i < reserved.len() - 1 {
                assert(front[i] == reserved[i]);
            }
        }
    }
}

} // verus!
