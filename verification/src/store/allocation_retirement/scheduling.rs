//! Which released allocation to look at next.
use crate::allocation_retirement::{intent_valid, Intent};
use crate::ids::{AllocationId, HostId};
use crate::store::allocation_retirement::{retirement_outcome, Error};
use crate::store::output::Column;
use vstd::prelude::*;

verus! {

/// A scheduling hint, never authority to delete metadata. Preparation and
/// historical completion lookup must independently validate this allocation.
#[derive(Debug)]
pub struct Candidate {
    pub allocation: AllocationId,
    pub intent: Option<Intent>,
}

/// What an epoch may be found to be.
pub open spec fn epoch_checked(epoch: i64, r: Result<(), Error>) -> bool {
    r == retirement_outcome(if epoch > 0 {
        None
    } else {
        Some(Error::Policy)
    })
}

/// Candidates are only looked for at a positive epoch.
pub fn check_epoch(epoch: i64) -> (r: Result<(), Error>)
    ensures
        epoch_checked(epoch, r),
{
    if epoch <= 0 {
        return Err(Error::Policy);
    }
    Ok(())
}

/// The retained intent is a valid physical one of this allocation on this host.
pub open spec fn hint_valid(i: Intent, allocation: AllocationId, host: HostId) -> bool {
    intent_valid(i) && i.permit.allocation == allocation && i.permit.host == host && !i.simulated
}

/// What may be scheduled for retirement.
pub open spec fn retirement_scheduled(
    allocation: AllocationId,
    host: HostId,
    intent: Column<Intent>,
    r: Result<Candidate, Error>,
) -> bool {
    match r {
        Ok(c) => {
            &&& c.allocation == allocation
            &&& match intent {
                Column::Absent => c.intent is None,
                Column::Value(i) => c.intent == Some(i) && hint_valid(i, allocation, host),
                Column::Unreadable => false,
            }
        },
        Err(e) => {
            &&& e == Error::Evidence
            &&& (intent is Unreadable || (intent matches Column::Value(i) && !hint_valid(i, allocation, host)))
        },
    }
}

/// Interpret one released physical allocation whose scan time was persisted
/// before, so that a malformed record cannot monopolize the worker.
pub fn next_allocation_retirement(allocation: AllocationId, host: HostId, intent: Column<Intent>) -> (r: Result<
    Candidate,
    Error,
>)
    ensures
        retirement_scheduled(allocation, host, intent, r),
{
    match intent {
        Column::Absent => Ok(Candidate { allocation, intent: None }),
        Column::Unreadable => Err(Error::Evidence),
        Column::Value(i) => {
            if i.validate().is_err() || i.permit.allocation != allocation || i.permit.host != host || i.simulated {
                return Err(Error::Evidence);
            }
            Ok(Candidate { allocation, intent: Some(i) })
        },
    }
}

} // verus!
