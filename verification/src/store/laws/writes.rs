//! Claims, leases and writes: what is held, for how long, and what was lost.
use crate::allocation_authority::Permit;
use crate::allocation_retirement::{intent_valid, Intent};
use crate::store::admission::violation_read;
use crate::store::allocation_permits::Error as PermitError;
use crate::store::allocation_permits::{frontier_checked, registration_recorded};
use crate::store::allocation_retirement::completion::physical_checked;
use crate::store::allocation_retirement::evidence::consumers_checked;
use crate::store::allocation_retirement::permit_read;
use crate::store::allocation_retirement::scheduling::epoch_checked;
use crate::store::allocation_retirement::Error as RetirementError;
use crate::store::cancel::admission_written;
use crate::store::claims::{claim_deferred, claim_renewed, lease_read, retry_read, ClaimError};
use crate::store::clock::{earlier_of, passed, representable, stamp_of, timely};
use crate::store::dispatch::{claim_fenced, host_observed, observed_written, owned_written, DispatchError};
use crate::store::history::history_written;
use crate::store::history::Error as HistoryError;
use crate::store::leases::lease_length_read;
use crate::store::output::{
    output_delay_read, output_fenced, output_lease_read, output_state_checked, OutputError,
};
use crate::store::output_cleanup::cleanup_lease_read;
use crate::store::placement::{reservation_written, PlacementError};
use crate::store::rows::{final_status, settled, OperationRow, PermitRow};
use vstd::prelude::*;

verus! {

/// A write under a claim was made exactly where it changed one row; one that changed
/// none was lost with its claim, and an observation that changed none under a live
/// claim was no evidence.
pub proof fn writes_change_one_row(
    changed: u64,
    live: bool,
    owned: Result<(), DispatchError>,
    observed: Result<(), DispatchError>,
    host: Result<(), DispatchError>,
    admitted: Result<(), DispatchError>,
    reserved: Result<(), PlacementError>,
    history: Result<(), HistoryError>,
    registered: Result<(), PermitError>,
)
    requires
        owned_written(changed, owned),
        observed_written(changed, live, observed),
        host_observed(changed, host),
        admission_written(changed, admitted),
        reservation_written(changed, reserved),
        history_written(changed, history),
        registration_recorded(changed, registered),
    ensures
        changed == 1 ==> owned is Ok && observed is Ok && host is Ok && admitted is Ok && reserved is Ok && history is Ok
            && registered is Ok,
        changed != 1 ==> {
            &&& owned == Err::<(), DispatchError>(DispatchError::LostClaim)
            &&& observed == Err::<(), DispatchError>(
                if live {
                    DispatchError::BadEvidence
                } else {
                    DispatchError::LostClaim
                },
            )
            &&& host == Err::<(), DispatchError>(DispatchError::HostUnavailable)
            &&& admitted == Err::<(), DispatchError>(DispatchError::Conflict)
            &&& reserved == Err::<(), PlacementError>(PlacementError::LostClaim)
            &&& history == Err::<(), HistoryError>(HistoryError::LostClaim)
            &&& registered is Err
        },
{
}

/// A claim that is no longer held is lost, for an operation as for its output.
pub proof fn claims_are_held_or_lost(
    valid: bool,
    operation: Result<(), DispatchError>,
    output: Result<(), OutputError>,
)
    requires
        claim_fenced(valid, operation),
        output_fenced(valid, output),
    ensures
        valid <==> operation is Ok,
        valid <==> output is Ok,
        !valid <==> operation == Err::<(), DispatchError>(DispatchError::LostClaim),
        !valid <==> output == Err::<(), OutputError>(OutputError::LostClaim),
{
}

/// Every lease may be held for one second to five minutes, whoever asks for it, and is
/// read as it was asked for.
pub proof fn leases_are_read_as_asked(
    seconds: u32,
    operation: Result<i32, ClaimError>,
    allocation: Result<i32, DispatchError>,
    output: Result<i32, OutputError>,
    cleanup: Result<u32, OutputError>,
)
    requires
        lease_read(seconds, operation),
        lease_length_read(seconds, allocation),
        output_lease_read(seconds, output),
        cleanup_lease_read(seconds, cleanup),
    ensures
        1 <= seconds <= 300 ==> {
            &&& operation matches Ok(n) && n == seconds
            &&& allocation matches Ok(n) && n == seconds
            &&& output matches Ok(n) && n == seconds
            &&& cleanup matches Ok(n) && n == seconds
        },
        !(1 <= seconds <= 300) ==> {
            &&& operation == Err::<i32, ClaimError>(ClaimError::InvalidLease)
            &&& allocation == Err::<i32, DispatchError>(DispatchError::InvalidData)
            &&& output == Err::<i32, OutputError>(OutputError::InvalidPolicy)
            &&& cleanup == Err::<u32, OutputError>(OutputError::InvalidPolicy)
        },
{
}

/// A retry may be put off for one second to an hour, and is put off as was asked for.
pub proof fn delays_are_read_as_asked(seconds: u32, operation: Result<i32, ClaimError>, output: Result<i32, OutputError>)
    requires
        retry_read(seconds, operation),
        output_delay_read(seconds, output),
    ensures
        1 <= seconds <= 3600 ==> (operation matches Ok(n) && n == seconds) && (output matches Ok(n) && n == seconds),
        !(1 <= seconds <= 3600) ==> operation == Err::<i32, ClaimError>(ClaimError::InvalidRetryDelay) && output == Err::<
            i32,
            OutputError,
        >(OutputError::InvalidPolicy),
{
}

/// A claim is renewed until the stamp that was written, and is lost where none was; one
/// that is deferred was held.
pub proof fn claims_are_renewed_or_lost(
    renewed: Option<i128>,
    affected: u64,
    r: Result<i128, ClaimError>,
    d: Result<(), ClaimError>,
)
    requires
        claim_renewed(renewed, r),
        claim_deferred(affected, d),
    ensures
        renewed matches Some(at) ==> r == Ok::<i128, ClaimError>(at),
        renewed is None ==> r == Err::<i128, ClaimError>(ClaimError::LostClaim),
        affected >= 1 <==> d is Ok,
        affected == 0 <==> d == Err::<(), ClaimError>(ClaimError::LostClaim),
{
}

/// Output that has expired is not prepared, and any other can be.
pub proof fn expired_output_is_not_prepared(status: &str, r: Result<(), OutputError>)
    requires
        output_state_checked(status, r),
    ensures
        status@ == "expired"@ <==> r == Err::<(), OutputError>(OutputError::Expired),
        status@ != "expired"@ <==> r is Ok,
{
}

/// An allocation that somebody still uses is not ready to be retired.
pub proof fn used_allocations_are_not_ready(pending: bool, r: Result<(), RetirementError>)
    requires
        consumers_checked(pending, r),
    ensures
        pending <==> r == Err::<(), RetirementError>(RetirementError::Ineligible),
        !pending <==> r is Ok,
{
}

/// Only real epochs are scheduled for, and a frontier is one that serials can reach.
pub proof fn epochs_and_frontiers_are_real(
    epoch: i64,
    after: u64,
    e: Result<(), RetirementError>,
    f: Result<(), PermitError>,
)
    requires
        epoch_checked(epoch, e),
        frontier_checked(after, f),
    ensures
        epoch >= 1 <==> e is Ok,
        epoch < 1 <==> e == Err::<(), RetirementError>(RetirementError::Policy),
        after <= 9223372036854775807 <==> f is Ok,
{
}

/// An issued permit is read as its row says, where its serial is not negative.
pub proof fn issued_permits_are_read_as_stored(p: &PermitRow, r: Result<Permit, RetirementError>)
    requires
        permit_read(p, r),
    ensures
        p.serial >= 0 <==> r is Ok,
        r matches Ok(x) ==> {
            &&& x.host == p.host
            &&& x.project == p.project
            &&& x.sandbox == p.sandbox
            &&& x.allocation == p.allocation
            &&& x.create_operation == p.create_operation
            &&& x.generation == p.generation
            &&& x.original_epoch == p.original_epoch
            &&& x.serial == p.serial
        },
        r is Err ==> r == Err::<Permit, RetirementError>(RetirementError::Evidence),
{
}

/// Only a physical retirement counts: a real intent that was not simulated.
pub proof fn physical_intents_are_not_simulated(intent: &Intent, r: Result<(), RetirementError>)
    requires
        physical_checked(intent, r),
    ensures
        intent_valid(*intent) && !intent.simulated <==> r is Ok,
{
}

/// A unique key was violated exactly where the database says so by its code.
pub proof fn unique_violations_have_one_code(code: Option<&str>, r: bool)
    requires
        violation_read(code, r),
    ensures
        r <==> code is Some && code->0@ == "23505"@,
{
}

/// An operation is over where it succeeded, failed or was cancelled; it is settled
/// where it is over and nobody owns it or will try it again.
pub proof fn operations_end_in_three_ways(op: OperationRow)
    ensures
        final_status(op.status@) <==> op.status@ == "succeeded"@ || op.status@ == "failed"@ || op.status@ == "cancelled"@,
        settled(op) <==> final_status(op.status@) && op.completed_at is Some && op.lease_expires_at is None
            && op.next_retry_at is None,
{
}

/// A deadline has passed once it is reached, and the earlier of two is one of them and
/// comes after neither.
pub proof fn deadlines_pass_when_they_are_reached(a: Option<i128>, b: Option<i128>, now: i128)
    ensures
        passed(a, now) <==> (a matches Some(t) && now >= t),
        earlier_of(a, b) is None <==> a is None && b is None,
        earlier_of(a, b) matches Some(t) ==> (a == Some(t) || b == Some(t)) && (a matches Some(x) ==> t <= x) && (
        b matches Some(x) ==> t <= x),
{
}

/// A report is timely from ten seconds before its reference to five after, and not past
/// the claim.
pub proof fn reports_are_timely_within_seconds(observed: i64, reference: i64, expires: i64)
    ensures
        timely(observed, reference, expires) <==> observed >= 1 && observed >= reference - 10000 && observed <= reference
            + 5000 && observed <= expires,
{
}

/// A time is held from the start of the year -9999 to the last nanosecond of the year
/// 9999, and a stamp in milliseconds is told in nanoseconds.
pub proof fn times_lie_within_the_calendar(nanos: int, millis: i64)
    ensures
        representable(nanos) <==> -377705116800 * 1000000000 <= nanos <= 253402300800 * 1000000000 - 1,
        stamp_of(millis) is Some <==> -377705116800000 <= millis <= 253402300799999,
        stamp_of(millis) matches Some(n) ==> n == millis * 1000000,
{
}

} // verus!
