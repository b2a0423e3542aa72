//! Retiring the history of a released allocation: where it goes on, what is asked,
//! and which report completes it.
use crate::guest_model::Context;
use crate::history::Domain;
use crate::ids::{id_text, is_v7, OperationId};
use crate::store::history::coordinator::{prefix_scanned, CandidateStep, PrefixRow};
use crate::store::history::released::{
    boot_of, floor_read, released_claimed, released_completed, released_prepared, released_request, released_requested,
    released_validated, ReleasedClaim, ReleasedPreparation, ReleasedRow, VerifiedFloors,
};
use crate::store::history::Error;
use crate::store::laws::history::{
    acts_for, boots_alike, claims_act_in_every_field, ends_in_time, in_time, retirable, scans_stop_before_what_must_stay,
};
use crate::store::output::Column;
use crate::store::rows::AllocationRow;
use crate::supervisor::{AllocationState, ReleasedHistoryObservation, ReleasedHistoryRequest};
use vstd::prelude::*;

verus! {

/// What a host is asked to retire of a released allocation: everything of the domain,
/// by its number, through this operation, from this epoch, for the claim's own
/// maintainer.
pub open spec fn asks_released(q: ReleasedHistoryRequest, a: AllocationRow, h: ReleasedRow, c: ReleasedClaim) -> bool {
    &&& q.ownership matches Some(o) && acts_for(o, a, c.claim)
    &&& q.reporting_epoch == c.reporting_epoch
    &&& q.domain == (match c.claim.domain {
        Domain::Commands => 1i32,
        Domain::Files => 2i32,
    })
    &&& q.through@ == id_text("op"@, h.reserved_through.value)
}

proof fn lemma_asks_released(q: ReleasedHistoryRequest, a: AllocationRow, h: ReleasedRow, c: ReleasedClaim)
    requires
        ends_in_time(c.claim),
    ensures
        released_request(q, a, h, c) <==> asks_released(q, a, h, c),
{
    if let Some(o) = q.ownership {
        claims_act_in_every_field(o, a, c.claim);
    }
}

/// A host is asked to retire exactly the reserved history of its released allocation.
pub proof fn released_retirement_is_asked_through_the_reservation(
    a: &AllocationRow,
    h: &ReleasedRow,
    c: &ReleasedClaim,
    r: Result<ReleasedHistoryRequest, Error>,
)
    requires
        released_requested(a, h, c, r),
        ends_in_time(c.claim),
    ensures
        r is Ok <==> is_v7(h.reserved_through.value),
        r matches Ok(q) ==> asks_released(q, *a, *h, *c),
{
    if let Ok(q) = r {
        lemma_asks_released(q, *a, *h, *c);
    }
}

/// Retirement after release begins where the last proven one ended: at what was
/// completed after the release, where that is proven, and otherwise at what was
/// completed before it, where what was recorded then is still what is proven and what
/// this retirement began after.
pub proof fn released_retirement_goes_on_from_what_is_proven(
    h: Option<&ReleasedRow>,
    v: &VerifiedFloors,
    r: Result<Option<OperationId>, Error>,
)
    requires
        floor_read(h, v, r),
    ensures
        h is Some && h->0.completed_through is Some ==> {
            &&& r is Ok <==> v.released == h->0.completed_through
            &&& r matches Ok(floor) ==> floor == h->0.completed_through
        },
        h is None || h->0.completed_through is None ==> {
            &&& r is Ok <==> v.recorded == v.live && (h matches Some(row) ==> row.start_after == v.live)
            &&& r matches Ok(floor) ==> floor == v.live
        },
        r is Err ==> r == Err::<Option<OperationId>, Error>(Error::Evidence),
{
}

proof fn lemma_boot(rows: Seq<PrefixRow>, boot: Context, seen: Option<Context>)
    requires
        seen matches Some(c) ==> boots_alike(c, boot),
    ensures
        retirable(rows, rows.len() as int, boot) ==> (boot_of(rows, seen) matches Ok(found) && (found matches Some(c)
            ==> boots_alike(c, boot)) && (seen is Some ==> found is Some)),
        seen is Some && boot_of(rows, seen) is Ok ==> retirable(rows, rows.len() as int, boot),
    decreases rows.len(),
{
    if rows.len() > 0 {
        let rest = rows.skip(1);
        let n = rows.len() as int;
        if retirable(rows, n, boot) {
            assert(rows[0].eligible is Ok);
            assert forall|i: int| 0 <= i < n - 1 implies ((#[trigger] rest[i]).eligible matches Ok(Some(ran)) && (
            ran matches Some(c) ==> boots_alike(c, boot))) by {
                assert(rest[i] == rows[i + 1]);
            }
        }
        if rows[0].eligible is Ok && rows[0].eligible->Ok_0 is Some {
            let ran = rows[0].eligible->Ok_0->0;
            let next = if ran is Some {
                ran
            } else {
                seen
            };
            if next matches Some(c) ==> boots_alike(c, boot) {
                lemma_boot(rest, boot, next);
                if seen is Some && boot_of(rows, seen) is Ok {
                    assert forall|i: int| 0 <= i < n implies ((#[trigger] rows[i]).eligible matches Ok(Some(ran)) && (
                    ran matches Some(c) ==> boots_alike(c, boot))) by {
                        if i > 0 {
                            assert(rest[i - 1] == rows[i]);
                        }
                    }
                }
            }
        }
    }
}

/// A released prefix whose boot was kept is still good exactly where it holds at least
/// one operation and no more than the domain allows, ends with the reserved one, and
/// all of it can be retired in that boot.
pub proof fn released_prefixes_are_checked_again(
    rows: &Vec<PrefixRow>,
    h: &ReleasedRow,
    domain: Domain,
    boot: Context,
    r: Result<(), Error>,
)
    requires
        released_validated(rows, h, domain, r),
        h.context == Column::Value(boot),
    ensures
        r is Ok <==> {
            &&& 1 <= rows@.len() <= (match domain {
                Domain::Commands => 33int,
                Domain::Files => 17int,
            })
            &&& rows@.last().id == h.reserved_through
            &&& retirable(rows@, rows@.len() as int, boot)
        },
{
    lemma_boot(rows@, boot, Some(boot));
}

/// A released prefix whose boot cannot be read is no good, nor is one that does not
/// end with the reserved operation or that the domain does not allow.
pub proof fn misfit_released_prefixes_are_refused(
    rows: &Vec<PrefixRow>,
    h: &ReleasedRow,
    domain: Domain,
    r: Result<(), Error>,
)
    requires
        released_validated(rows, h, domain, r),
    ensures
        h.context is Unreadable || rows@.len() == 0 || rows@.len() > (match domain {
            Domain::Commands => 33int,
            Domain::Files => 17int,
        }) || rows@.last().id != h.reserved_through ==> r == Err::<(), Error>(Error::Evidence),
{
}

/// A pending reservation of a released allocation is reclaimed as it stands; otherwise
/// everything that can be retired is reserved, in the boot that it ran in.
pub proof fn released_candidates_reserve_what_can_be_retired(
    old: Option<&ReleasedRow>,
    v: &VerifiedFloors,
    rows: &Vec<PrefixRow>,
    floor: Result<Option<OperationId>, Error>,
    k: int,
    boot: Context,
    scan: Result<(Option<OperationId>, Option<Context>), Error>,
    frozen: Option<Context>,
    r: Result<CandidateStep, Error>,
)
    requires
        released_prepared(old, v, rows, r),
        floor_read(old, v, floor),
        retirable(rows@, k, boot),
        k < rows@.len() ==> rows@[k].eligible == Ok::<Option<Option<Context>>, Error>(None),
        old matches Some(h) ==> (h.context matches Column::Value(c) ==> boots_alike(c, boot)),
        old is Some && old->0.context is Value ==> frozen == Some(old->0.context->Value_0),
        old is None || !(old->0.context is Value) ==> frozen is None,
        prefix_scanned(rows, frozen, scan),
    ensures
        ({
            let pending = old matches Some(h) && h.completed_through != Some(h.reserved_through);
            let unreadable = old matches Some(h) && h.context is Unreadable;
            &&& floor is Err ==> r == Err::<CandidateStep, Error>(Error::Evidence)
            &&& floor is Ok && pending <==> r == Ok::<CandidateStep, Error>(CandidateStep::Reclaim)
            &&& floor is Ok && !pending && unreadable ==> r == Err::<CandidateStep, Error>(Error::Evidence)
            &&& floor is Ok && !pending && !unreadable && k == 0 ==> r == Ok::<CandidateStep, Error>(
                CandidateStep::Idle,
            )
            &&& floor is Ok && !pending && !unreadable && k > 0 ==> (r matches Ok(
                CandidateStep::Reserve { through, context },
            ) && through == rows@[k - 1].id && (context matches Some(c) ==> boots_alike(c, boot)))
        }),
{
    scans_stop_before_what_must_stay(rows, frozen, k, boot, scan);
}

/// A claimed released candidate is asked to retire its reservation, where its prefix
/// is still good.
pub proof fn claimed_released_candidates_retire_their_reservation(
    a: &AllocationRow,
    h: &ReleasedRow,
    c: ReleasedClaim,
    rows: &Vec<PrefixRow>,
    checked: Result<(), Error>,
    r: Result<ReleasedPreparation, Error>,
)
    requires
        released_claimed(a, h, c, rows, r),
        released_validated(rows, h, c.claim.domain, checked),
        ends_in_time(c.claim),
        is_v7(h.reserved_through.value),
    ensures
        r is Ok <==> checked is Ok,
        r matches Ok(p) ==> p.claim == c && asks_released(p.request, *a, *h, c),
{
    if let Ok(p) = r {
        lemma_asks_released(p.request, *a, *h, c);
    }
}

/// The reserved history of a released allocation is completed exactly where its prefix
/// is still good and the host reports, in time, that the allocation is gone and that
/// it retired exactly what it was asked to.
pub proof fn only_the_asked_released_prefix_is_completed(
    a: &AllocationRow,
    h: &ReleasedRow,
    c: &ReleasedClaim,
    rows: &Vec<PrefixRow>,
    o: &ReleasedHistoryObservation,
    now: i128,
    allow_simulated: bool,
    checked: Result<(), Error>,
    r: Result<(), Error>,
)
    requires
        released_completed(a, h, c, rows, o, now, allow_simulated, r),
        released_validated(rows, h, c.claim.domain, checked),
        0 <= now <= 253402300799999999999,
        ends_in_time(c.claim),
    ensures
        r is Ok <==> {
            &&& checked is Ok
            &&& is_v7(h.reserved_through.value)
            &&& h.request matches Column::Value(kept) && asks_released(kept, *a, *h, *c)
            &&& o.request matches Some(q) && asks_released(q, *a, *h, *c)
            &&& o.completed_through@ == id_text("op"@, h.reserved_through.value)
            &&& o.release_state.meaning == Some(AllocationState::Released) || o.release_state.meaning == Some(
                AllocationState::FencedAbsent,
            )
            &&& o.simulated ==> allow_simulated
            &&& in_time(o.observed_unix_ms, c.claim, now)
        },
{
    if let Column::Value(kept) = h.request {
        lemma_asks_released(kept, *a, *h, *c);
    }
    if let Some(q) = o.request {
        lemma_asks_released(q, *a, *h, *c);
    }
}

} // verus!
