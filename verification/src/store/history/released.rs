//! Independent destruction claims; a release time schedules verification, never
//! proves it.
use crate::guest_model::{same_context, Context};
use crate::history::Domain;
use crate::ids::{id_text, is_v7, valid_uuid, Id, OperationId};
use crate::store::clock::millis_of;
use crate::store::destroy::{gone, is_gone};
use crate::store::history::coordinator::{
    agrees, claim_owner, fresh, history_outcome, observation_timely, owner, scan, scanned, CandidateStep, PrefixRow,
};
use crate::store::history::{domain_limit, limit, Claim, Error};
use crate::store::output::Column;
use crate::store::rows::AllocationRow;
use crate::supervisor::{ReleasedHistoryObservation, ReleasedHistoryRequest};
use crate::text::same_text;
use vstd::prelude::*;
use vstd::string::*;

verus! {

#[derive(Debug, Clone, Copy, PartialEq, Eq, Structural)]
pub struct ReleasedClaim {
    pub claim: Claim,
    pub reporting_epoch: i64,
}

#[derive(Debug)]
pub struct ReleasedPreparation {
    pub claim: ReleasedClaim,
    pub request: ReleasedHistoryRequest,
}

/// What is retained of a released allocation's history in a domain.
pub struct ReleasedRow {
    pub completed_through: Option<OperationId>,
    pub start_after: Option<OperationId>,
    pub reserved_through: OperationId,
    pub context: Column<Context>,
    pub request: Column<ReleasedHistoryRequest>,
}

pub open spec fn domain_number(domain: Domain) -> i32 {
    match domain {
        Domain::Commands => 1,
        Domain::Files => 2,
    }
}

pub open spec fn released_allowed(h: ReleasedRow, c: ReleasedClaim) -> bool {
    is_v7(h.reserved_through.value) && millis_of(c.claim.expires_at) is Some
}

/// What is asked of the host that released the allocation.
pub open spec fn released_request(q: ReleasedHistoryRequest, a: AllocationRow, h: ReleasedRow, c: ReleasedClaim) -> bool {
    &&& (q.ownership matches Some(o) && claim_owner(o, a, c.claim))
    &&& q.reporting_epoch == c.reporting_epoch
    &&& q.domain == domain_number(c.claim.domain)
    &&& q.through@ == id_text("op"@, h.reserved_through.value)
}

/// What a host may be asked to retire of a released allocation.
pub open spec fn released_requested(
    a: &AllocationRow,
    h: &ReleasedRow,
    c: &ReleasedClaim,
    r: Result<ReleasedHistoryRequest, Error>,
) -> bool {
    match r {
        Ok(q) => released_allowed(*h, *c) && released_request(q, *a, *h, *c),
        Err(e) => e == Error::Evidence && !released_allowed(*h, *c),
    }
}

pub fn request(a: &AllocationRow, h: &ReleasedRow, c: &ReleasedClaim) -> (r: Result<ReleasedHistoryRequest, Error>)
    ensures
        released_requested(a, h, c, r),
{
    if !valid_uuid(h.reserved_through.uuid()) {
        return Err(Error::Evidence);
    }
    match owner(a, &c.claim) {
        Ok(o) => Ok(
            ReleasedHistoryRequest {
                ownership: Some(o),
                reporting_epoch: c.reporting_epoch,
                domain: match c.claim.domain {
                    Domain::Commands => 1,
                    Domain::Files => 2,
                },
                through: h.reserved_through.to_string(),
            },
        ),
        Err(e) => Err(e),
    }
}

/// What earlier retirements prove: `released` and `live` are the completed
/// prefixes as their retained completions prove them, and `recorded` what the
/// live history records as completed.
#[derive(Debug, Clone, Copy)]
pub struct VerifiedFloors {
    pub released: Option<OperationId>,
    pub recorded: Option<OperationId>,
    pub live: Option<OperationId>,
}

/// Behind which identity the released history starts: behind what it has itself
/// completed, or behind what the live history completed.
pub open spec fn floor_of(h: Option<ReleasedRow>, v: VerifiedFloors) -> Result<Option<OperationId>, Error> {
    if h matches Some(row) && row.completed_through is Some {
        if v.released == h->0.completed_through {
            Ok(h->0.completed_through)
        } else {
            Err(Error::Evidence)
        }
    } else if v.recorded != v.live || (h matches Some(row) && row.start_after != v.live) {
        Err(Error::Evidence)
    } else {
        Ok(v.live)
    }
}

pub open spec fn row_of(h: Option<&ReleasedRow>) -> Option<ReleasedRow> {
    match h {
        Some(row) => Some(*row),
        None => None,
    }
}

fn same_identity(a: Option<OperationId>, b: Option<OperationId>) -> (r: bool)
    ensures
        r == (a == b),
{
    match (a, b) {
        (Some(x), Some(y)) => x == y,
        (None, None) => true,
        _ => false,
    }
}

/// What retirement may begin after.
pub open spec fn floor_read(
    h: Option<&ReleasedRow>,
    v: &VerifiedFloors,
    r: Result<Option<OperationId>, Error>,
) -> bool {
    r == floor_of(row_of(h), *v)
}

pub fn floor(h: Option<&ReleasedRow>, v: &VerifiedFloors) -> (r: Result<Option<OperationId>, Error>)
    ensures
        floor_read(h, v, r),
{
    if let Some(row) = h {
        if row.completed_through.is_some() {
            return if same_identity(v.released, row.completed_through) {
                Ok(row.completed_through)
            } else {
                Err(Error::Evidence)
            };
        }
    }
    let started: bool = match h {
        Some(row) => same_identity(row.start_after, v.live),
        None => true,
    };
    if !same_identity(v.recorded, v.live) || !started {
        return Err(Error::Evidence);
    }
    Ok(v.live)
}

/// The boot that a list of operations ran in, beginning with one that is known.
pub open spec fn boot_of(rows: Seq<PrefixRow>, context: Option<Context>) -> Result<Option<Context>, Error>
    decreases rows.len(),
{
    if rows.len() == 0 {
        Ok(context)
    } else {
        match rows[0].eligible {
            Err(e) => Err(e),
            Ok(None) => Err(Error::Evidence),
            Ok(Some(None)) => boot_of(rows.skip(1), context),
            Ok(Some(Some(found))) => if agrees(context, found) {
                boot_of(rows.skip(1), Some(found))
            } else {
                Err(Error::Evidence)
            },
        }
    }
}

pub open spec fn same_boot(a: Option<Context>, b: Option<Context>) -> bool {
    match (a, b) {
        (Some(x), Some(y)) => same_context(x, y),
        (None, None) => true,
        _ => false,
    }
}

pub open spec fn frozen_boot(c: Column<Context>) -> Option<Context> {
    match c {
        Column::Value(c) => Some(c),
        _ => None,
    }
}

/// The reserved prefix still holds: every operation of it may be retired, in
/// exactly the boot that was frozen with it.
pub open spec fn released_prefix(rows: Seq<PrefixRow>, h: ReleasedRow, domain: Domain) -> Result<(), Error> {
    if !(0 < rows.len() <= domain_limit(domain)) || rows.last().id != h.reserved_through || h.context is Unreadable {
        Err(Error::Evidence)
    } else {
        match boot_of(rows, frozen_boot(h.context)) {
            Err(e) => Err(e),
            Ok(found) => if same_boot(found, frozen_boot(h.context)) {
                Ok(())
            } else {
                Err(Error::Evidence)
            },
        }
    }
}

/// What checking a released prefix may come to.
pub open spec fn released_validated(
    rows: &Vec<PrefixRow>,
    h: &ReleasedRow,
    domain: Domain,
    r: Result<(), Error>,
) -> bool {
    r == released_prefix(rows@, *h, domain)
}

pub fn prefix(rows: &Vec<PrefixRow>, h: &ReleasedRow, domain: Domain) -> (r: Result<(), Error>)
    ensures
        released_validated(rows, h, domain, r),
{
    if rows.len() == 0 || rows.len() > limit(domain) || rows[rows.len() - 1].id != h.reserved_through {
        return Err(Error::Evidence);
    }
    let frozen: Option<Context> = match &h.context {
        Column::Unreadable => {
            return Err(Error::Evidence);
        },
        Column::Absent => None,
        Column::Value(c) => Some(c.clone()),
    };
    let ghost start = frozen_boot(h.context);
    let mut found: Option<Context> = match &h.context {
        Column::Value(c) => Some(c.clone()),
        _ => None,
    };
    let mut i: usize = 0;
    assert(rows@.skip(0) =~= rows@);
    while i < rows.len()
        invariant
            i <= rows@.len(),
            start == frozen_boot(h.context),
            0 < rows@.len() <= domain_limit(domain),
            rows@.last().id == h.reserved_through,
            !(h.context is Unreadable),
            boot_of(rows@, start) == boot_of(rows@.skip(i as int), found),
        decreases rows@.len() - i,
    {
        proof {
            assert(rows@.skip(i as int)[0] == rows@[i as int]);
            assert(rows@.skip(i as int).skip(1) =~= rows@.skip(i + 1));
        }
        match &rows[i].eligible {
            Err(e) => {
                return Err(*e);
            },
            Ok(None) => {
                return Err(Error::Evidence);
            },
            Ok(Some(None)) => {},
            Ok(Some(Some(next))) => {
                let same: bool = match &found {
                    Some(c) => c.same(next),
                    None => true,
                };
                if !same {
                    return Err(Error::Evidence);
                }
                found = Some(next.clone());
            },
        }
        i = i + 1;
    }
    let unchanged: bool = match (&found, &frozen) {
        (Some(x), Some(y)) => x.same(y),
        (None, None) => true,
        _ => false,
    };
    if !unchanged {
        return Err(Error::Evidence);
    }
    Ok(())
}

pub open spec fn released_pending(h: ReleasedRow) -> bool {
    h.completed_through != Some(h.reserved_through)
}

/// What the rows of a released allocation come to; `rows` are at most as many
/// operations behind the floor as one reservation closes.
pub open spec fn released_decision(old: Option<ReleasedRow>, v: VerifiedFloors, rows: Seq<PrefixRow>) -> Result<
    CandidateStep,
    Error,
> {
    if floor_of(old, v) is Err {
        Err(floor_of(old, v)->Err_0)
    } else if old matches Some(h) && released_pending(h) {
        Ok(CandidateStep::Reclaim)
    } else if old matches Some(h) && h.context is Unreadable {
        Err(Error::Evidence)
    } else {
        let frozen = match old {
            Some(h) => frozen_boot(h.context),
            None => None,
        };
        match scanned(rows, None, frozen) {
            Err(e) => Err(e),
            Ok((None, _)) => Ok(CandidateStep::Idle),
            Ok((Some(through), context)) => Ok(CandidateStep::Reserve { through, context }),
        }
    }
}

/// What may be done with a released candidate.
pub open spec fn released_prepared(
    old: Option<&ReleasedRow>,
    v: &VerifiedFloors,
    rows: &Vec<PrefixRow>,
    r: Result<CandidateStep, Error>,
) -> bool {
    r == released_decision(row_of(old), *v, rows@)
}

/// Decide a released allocation.
pub fn candidate(old: Option<&ReleasedRow>, v: &VerifiedFloors, rows: &Vec<PrefixRow>) -> (r: Result<
    CandidateStep,
    Error,
>)
    ensures
        released_prepared(old, v, rows, r),
{
    match floor(old, v) {
        Ok(_) => {},
        Err(e) => {
            return Err(e);
        },
    }
    let mut frozen: Option<Context> = None;
    if let Some(h) = old {
        let done: bool = match h.completed_through {
            Some(c) => c == h.reserved_through,
            None => false,
        };
        if !done {
            return Ok(CandidateStep::Reclaim);
        }
        match &h.context {
            Column::Unreadable => {
                return Err(Error::Evidence);
            },
            Column::Absent => {},
            Column::Value(c) => {
                frozen = Some(c.clone());
            },
        }
    }
    match scan(rows, frozen) {
        Err(e) => Err(e),
        Ok((None, _)) => Ok(CandidateStep::Idle),
        Ok((Some(through), context)) => Ok(CandidateStep::Reserve { through, context }),
    }
}

/// What a claimed released candidate may be prepared as.
pub open spec fn released_claimed(
    a: &AllocationRow,
    h: &ReleasedRow,
    c: ReleasedClaim,
    rows: &Vec<PrefixRow>,
    r: Result<ReleasedPreparation, Error>,
) -> bool {
    match r {
        Ok(p) => {
            &&& released_prefix(rows@, *h, c.claim.domain) is Ok
            &&& p.claim == c
            &&& released_request(p.request, *a, *h, c)
        },
        Err(e) => if released_prefix(rows@, *h, c.claim.domain) is Err {
            e == released_prefix(rows@, *h, c.claim.domain)->Err_0
        } else {
            e == Error::Evidence && !released_allowed(*h, c)
        },
    }
}

/// What a claimed reservation asks of the host.
pub fn claimed_candidate(a: &AllocationRow, h: &ReleasedRow, c: ReleasedClaim, rows: &Vec<PrefixRow>) -> (r: Result<
    ReleasedPreparation,
    Error,
>)
    ensures
        released_claimed(a, h, c, rows, r),
{
    match prefix(rows, h, c.claim.domain) {
        Ok(_) => {},
        Err(e) => {
            return Err(e);
        },
    }
    match request(a, h, &c) {
        Ok(q) => Ok(ReleasedPreparation { claim: c, request: q }),
        Err(e) => Err(e),
    }
}

/// The observation acknowledges exactly the request that was saved and sent, from
/// a host that no longer has the allocation.
pub open spec fn released_completion_fits(
    a: AllocationRow,
    h: ReleasedRow,
    c: ReleasedClaim,
    o: ReleasedHistoryObservation,
    now: i128,
    allow_simulated: bool,
) -> bool {
    &&& released_allowed(h, c)
    &&& (h.request matches Column::Value(saved) && released_request(saved, a, h, c))
    &&& (o.request matches Some(q) && released_request(q, a, h, c))
    &&& o.completed_through@ == id_text("op"@, h.reserved_through.value)
    &&& gone(o.release_state.meaning)
    &&& (o.simulated ==> allow_simulated)
    &&& observation_timely(o.observed_unix_ms, c.claim, now)
}

/// What a report of released history may come to.
pub open spec fn released_completed(
    a: &AllocationRow,
    h: &ReleasedRow,
    c: &ReleasedClaim,
    rows: &Vec<PrefixRow>,
    o: &ReleasedHistoryObservation,
    now: i128,
    allow_simulated: bool,
    r: Result<(), Error>,
) -> bool {
    r == (match released_prefix(rows@, *h, c.claim.domain) {
        Err(e) => Err::<(), Error>(e),
        Ok(_) => history_outcome(released_completion_fits(*a, *h, *c, *o, now, allow_simulated)),
    })
}

/// Only this exact acknowledgement promotes the reserved prefix to completed.
pub fn complete_released_history(
    a: &AllocationRow,
    h: &ReleasedRow,
    c: &ReleasedClaim,
    rows: &Vec<PrefixRow>,
    o: &ReleasedHistoryObservation,
    now: i128,
    allow_simulated: bool,
) -> (r: Result<(), Error>)
    ensures
        released_completed(a, h, c, rows, o, now, allow_simulated, r),
{
    match prefix(rows, h, c.claim.domain) {
        Ok(_) => {},
        Err(e) => {
            return Err(e);
        },
    }
    let expected: ReleasedHistoryRequest = match request(a, h, c) {
        Ok(q) => q,
        Err(e) => {
            return Err(e);
        },
    };
    let stored: bool = match &h.request {
        Column::Value(q) => q.same(&expected),
        _ => false,
    };
    let asked: bool = match &o.request {
        Some(q) => q.same(&expected),
        None => false,
    };
    if !stored || !asked || !same_text(o.completed_through.as_str(), expected.through.as_str()) || !is_gone(
        o.release_state.meaning,
    ) || (o.simulated && !allow_simulated) {
        return Err(Error::Evidence);
    }
    fresh(o.observed_unix_ms, &c.claim, now)
}

/// A pending reservation of a released allocation is never enlarged either.
pub proof fn released_reservations_are_not_enlarged(h: ReleasedRow, v: VerifiedFloors, rows: Seq<PrefixRow>)
    requires
        released_pending(h),
    ensures
        released_decision(Some(h), v, rows) matches Ok(step) ==> step is Reclaim,
{
}

} // verus!
