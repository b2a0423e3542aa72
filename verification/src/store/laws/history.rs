//! Retiring a guest's history: how far it goes, in which boot, and which report
//! completes it.
use crate::guest_model::Context;
use crate::history::{Barrier, Domain};
use crate::ids::{id_text, is_v7, OperationId};
use crate::store::dispatch::DispatchError;
use crate::store::history::coordinator::{
    candidate_claimed, candidate_followed, candidate_prepared, claim_owner, freshness_checked, history_bound,
    history_completed, passing_prefixes_hold, prefix_scanned, prefix_validated, retirement_requested, scanned,
    CandidateNext, CandidateStep, HistoryRow, PrefixRow, Preparation,
};
use crate::store::history::{
    domain_limit, floor_found, floors_cover_everything_reserved, greatest, policy_checked, Claim, Error,
};
use crate::store::output::Column;
use crate::store::rows::AllocationRow;
use crate::supervisor::{HistoryBindingObservation, HistoryObservation, HistoryRequest, LeaseOwnership};
use crate::text::byte_len;
use vstd::prelude::*;

verus! {

/// The two boots are the same boot of the same allocation.
pub open spec fn boots_alike(a: Context, b: Context) -> bool {
    a.allocation_id == b.allocation_id && a.generation == b.generation && a.boot_id@ == b.boot_id@
}

/// The maintainer that a history claim acts as is made of the allocation's own
/// identities and the claim, until the claim's own end in whole milliseconds.
pub open spec fn acts_for(o: LeaseOwnership, a: AllocationRow, claim: Claim) -> bool {
    &&& o.host_id@ == id_text("hst"@, a.host_id.value)
    &&& o.project_id@ == id_text("prj"@, a.project_id.value)
    &&& o.sandbox_id@ == id_text("sbx"@, a.sandbox_id.value)
    &&& o.allocation_id@ == id_text("alc"@, claim.allocation_id.value)
    &&& o.generation == a.generation
    &&& o.supervisor_epoch == a.supervisor_epoch
    &&& o.revision == claim.revision
    &&& o.claim_expires_unix_ms * 1000000 <= claim.expires_at < o.claim_expires_unix_ms * 1000000 + 1000000
}

/// The claim ends at a time that a stamp of today can tell.
pub open spec fn ends_in_time(claim: Claim) -> bool {
    0 <= claim.expires_at <= 253402300799999999999
}

/// A claim and the maintainer it acts as agree in every field.
pub proof fn claims_act_in_every_field(o: LeaseOwnership, a: AllocationRow, claim: Claim)
    requires
        ends_in_time(claim),
    ensures
        claim_owner(o, a, claim) <==> acts_for(o, a, claim),
{
}

/// What is asked of the host, or what it says it did: to retire everything of the
/// claim's domain, in this boot, through this operation.
pub open spec fn asks_through(b: Barrier, through: OperationId, claim: Claim, context: Context) -> bool {
    b.version == 1 && boots_alike(b.context, context) && b.domain == claim.domain && b.through == through
}

/// A retirement policy names a real epoch and a lease of one second to five minutes.
pub proof fn retirement_policies_name_a_real_epoch(epoch: i64, seconds: u32, r: Result<(), Error>)
    requires
        policy_checked(epoch, seconds, r),
    ensures
        r is Ok <==> epoch >= 1 && seconds >= 1 && seconds <= 300,
        r is Err ==> r == Err::<(), Error>(Error::Policy),
{
}

/// A new command comes after every operation that was reserved and after the last one
/// that was admitted: the floor is one of them, and none lies above it. There is no
/// floor where there is none of them, and no new command on a retired allocation.
pub proof fn floors_lie_on_what_was_reserved(
    retired: bool,
    last: Option<OperationId>,
    reserved: &Vec<OperationId>,
    r: Result<Option<OperationId>, DispatchError>,
)
    requires
        floor_found(retired, last, reserved, r),
    ensures
        retired <==> r == Err::<Option<OperationId>, DispatchError>(DispatchError::Conflict),
        !retired <==> r is Ok,
        r matches Ok(floor) ==> {
            &&& floor is None <==> last is None && reserved@.len() == 0
            &&& floor matches Some(f) ==> {
                &&& Some(f) == last || exists|i: int| 0 <= i < reserved@.len() && #[trigger] reserved@[i] == f
                &&& last matches Some(l) ==> l.value <= f.value
                &&& forall|i: int| 0 <= i < reserved@.len() ==> (#[trigger] reserved@[i]).value <= f.value
            }
        },
{
    floors_cover_everything_reserved(last, reserved@);
    lemma_floor_is_reserved(last, reserved@);
}

proof fn lemma_floor_is_reserved(last: Option<OperationId>, reserved: Seq<OperationId>)
    ensures
        greatest(last, reserved) is None <==> last is None && reserved.len() == 0,
        greatest(last, reserved) matches Some(f) ==> Some(f) == last || exists|i: int|
            0 <= i < reserved.len() && #[trigger] reserved[i] == f,
    decreases reserved.len(),
{
    if reserved.len() > 0 {
        let before = reserved.drop_last();
        lemma_floor_is_reserved(last, before);
        assert(reserved[reserved.len() - 1] == reserved.last());
        if let Some(f) = greatest(last, before) {
            if Some(f) != last {
                let i = choose|i: int| 0 <= i < before.len() && #[trigger] before[i] == f;
                assert(reserved[i] == f);
            }
        }
    }
}

/// A report is in time where it is dated, from no more than ten seconds before now to
/// no more than five after, and not past the claim that asked for it.
pub open spec fn in_time(observed: i64, claim: Claim, now: i128) -> bool {
    &&& observed > 0
    &&& now / 1000000 - 10000 <= observed <= now / 1000000 + 5000
    &&& observed <= claim.expires_at / 1000000
}

/// A report counts exactly where it is in time.
pub proof fn reports_count_while_they_are_fresh(observed: i64, claim: &Claim, now: i128, r: Result<(), Error>)
    requires
        freshness_checked(observed, claim, now, r),
        0 <= now <= 253402300799999999999,
        ends_in_time(*claim),
    ensures
        in_time(observed, *claim, now) <==> r is Ok,
        r is Err ==> r == Err::<(), Error>(Error::Evidence),
{
}

/// The first `k` of the operations can be retired, and all that ran, ran in this boot.
pub open spec fn retirable(rows: Seq<PrefixRow>, k: int, boot: Context) -> bool {
    0 <= k <= rows.len() && forall|i: int|
        0 <= i < k ==> ((#[trigger] rows[i]).eligible matches Ok(Some(ran)) && (ran matches Some(c) ==> boots_alike(
            c,
            boot,
        )))
}

proof fn lemma_scan(rows: Seq<PrefixRow>, k: int, boot: Context, start: Option<OperationId>, seen: Option<Context>)
    requires
        retirable(rows, k, boot),
        k < rows.len() ==> rows[k].eligible == Ok::<Option<Option<Context>>, Error>(None),
        seen matches Some(c) ==> boots_alike(c, boot),
    ensures
        scanned(rows, start, seen) matches Ok((through, found)) && through == (if k == 0 {
            start
        } else {
            Some(rows[k - 1].id)
        }) && (found matches Some(c) ==> boots_alike(c, boot)) && (seen is Some ==> found is Some) && ((exists|i: int|
            0 <= i < k && (#[trigger] rows[i]).eligible->Ok_0->0 is Some) ==> found is Some),
    decreases rows.len(),
{
    if rows.len() > 0 && k > 0 {
        let rest = rows.skip(1);
        assert(rows[0].eligible is Ok);
        assert forall|i: int| 0 <= i < k - 1 implies ((#[trigger] rest[i]).eligible matches Ok(Some(ran)) && (
        ran matches Some(c) ==> boots_alike(c, boot))) by {
            assert(rest[i] == rows[i + 1]);
        }
        if k < rows.len() {
            assert(rest[k - 1] == rows[k]);
        }
        let ran = rows[0].eligible->Ok_0->0;
        let now_seen = if ran is Some {
            ran
        } else {
            seen
        };
        lemma_scan(rest, k - 1, boot, Some(rows[0].id), now_seen);
        if k > 1 {
            assert(rest[k - 2] == rows[k - 1]);
        }
        if exists|i: int| 0 <= i < k && (#[trigger] rows[i]).eligible->Ok_0->0 is Some {
            let i = choose|i: int| 0 <= i < k && (#[trigger] rows[i]).eligible->Ok_0->0 is Some;
            if i > 0 {
                assert(rest[i - 1] == rows[i]);
            }
        }
    }
}

/// A scan finds the last operation before the first that cannot be retired yet, and
/// the boot in which the retired ones ran.
pub proof fn scans_stop_before_what_must_stay(
    rows: &Vec<PrefixRow>,
    frozen: Option<Context>,
    k: int,
    boot: Context,
    r: Result<(Option<OperationId>, Option<Context>), Error>,
)
    requires
        prefix_scanned(rows, frozen, r),
        retirable(rows@, k, boot),
        k < rows@.len() ==> rows@[k].eligible == Ok::<Option<Option<Context>>, Error>(None),
        frozen matches Some(c) ==> boots_alike(c, boot),
    ensures
        r matches Ok((through, found)) && {
            &&& k == 0 ==> through is None
            &&& k > 0 ==> through == Some(rows@[k - 1].id)
            &&& found matches Some(c) ==> boots_alike(c, boot)
            &&& frozen is Some || (exists|i: int| 0 <= i < k && (#[trigger] rows@[i]).eligible->Ok_0->0 is Some)
                ==> found is Some
        },
{
    lemma_scan(rows@, k, boot, None, frozen);
}

proof fn lemma_scan_stops(rows: Seq<PrefixRow>, k: int, boot: Context, start: Option<OperationId>, seen: Option<Context>)
    requires
        retirable(rows, k, boot),
        k < rows.len(),
        seen matches Some(c) ==> boots_alike(c, boot),
        rows[k].eligible is Err,
    ensures
        scanned(rows, start, seen) == Err::<(Option<OperationId>, Option<Context>), Error>(rows[k].eligible->Err_0),
    decreases rows.len(),
{
    if k > 0 {
        let rest = rows.skip(1);
        assert(rows[0].eligible is Ok);
        assert forall|i: int| 0 <= i < k - 1 implies ((#[trigger] rest[i]).eligible matches Ok(Some(ran)) && (
        ran matches Some(c) ==> boots_alike(c, boot))) by {
            assert(rest[i] == rows[i + 1]);
        }
        assert(rest[k - 1] == rows[k]);
        let ran = rows[0].eligible->Ok_0->0;
        lemma_scan_stops(
            rest,
            k - 1,
            boot,
            Some(rows[0].id),
            if ran is Some {
                ran
            } else {
                seen
            },
        );
    }
}

/// An operation that cannot be judged stops the scan with its own reason, unless one
/// before it must stay.
pub proof fn unjudged_operations_stop_the_scan(
    rows: &Vec<PrefixRow>,
    frozen: Option<Context>,
    k: int,
    boot: Context,
    r: Result<(Option<OperationId>, Option<Context>), Error>,
)
    requires
        prefix_scanned(rows, frozen, r),
        retirable(rows@, k, boot),
        k < rows@.len(),
        rows@[k].eligible is Err,
        frozen matches Some(c) ==> boots_alike(c, boot),
    ensures
        r == Err::<(Option<OperationId>, Option<Context>), Error>(rows@[k].eligible->Err_0),
{
    lemma_scan_stops(rows@, k, boot, None, frozen);
}

/// A reserved prefix is still good exactly where it holds at least one operation and
/// no more than the domain allows, thirty-three commands or seventeen files, ends with
/// the reserved one, and all of it can be retired in the reserved boot.
pub proof fn reserved_prefixes_are_checked_again(
    rows: &Vec<PrefixRow>,
    through: OperationId,
    domain: Domain,
    context: &Context,
    r: Result<(), Error>,
)
    requires
        prefix_validated(rows, through, domain, context, r),
    ensures
        r is Ok <==> {
            &&& 1 <= rows@.len() <= (match domain {
                Domain::Commands => 33int,
                Domain::Files => 17int,
            })
            &&& rows@.last().id == through
            &&& retirable(rows@, rows@.len() as int, *context)
        },
{
    passing_prefixes_hold(rows@, through, domain_limit(domain), *context);
}

/// A candidate that was found is committed, one that was not is passed over, one whose
/// evidence fails is tried again later, and anything else fails the scan.
pub proof fn bad_evidence_does_not_stop_the_others(found: &Result<bool, Error>, r: CandidateNext)
    requires
        candidate_followed(found, r),
    ensures
        *found == Ok::<bool, Error>(true) <==> r is Commit,
        *found == Ok::<bool, Error>(false) <==> r is Skip,
        *found == Err::<bool, Error>(Error::Evidence) <==> r is Retry,
{
}

/// A pending reservation is reclaimed as it stands; otherwise everything that can be
/// retired is reserved, in the boot that it ran in. A history whose completed part is
/// not proven, or whose boot cannot be read, is left alone.
pub proof fn candidates_reserve_what_can_be_retired(
    old: Option<&HistoryRow>,
    verified: Option<OperationId>,
    rows: &Vec<PrefixRow>,
    k: int,
    boot: Context,
    r: Result<CandidateStep, Error>,
)
    requires
        candidate_prepared(old, verified, rows, r),
        retirable(rows@, k, boot),
        k < rows@.len() ==> rows@[k].eligible == Ok::<Option<Option<Context>>, Error>(None),
        old matches Some(h) ==> (h.context matches Column::Value(c) ==> boots_alike(c, boot)),
    ensures
        ({
            let unproven = old matches Some(h) && h.completed_through is Some && h.completed_through != verified;
            let pending = old matches Some(h) && h.completed_through != Some(h.reserved_through);
            let unreadable = old matches Some(h) && h.context is Unreadable;
            &&& unproven ==> r == Err::<CandidateStep, Error>(Error::Evidence)
            &&& !unproven && pending <==> r == Ok::<CandidateStep, Error>(CandidateStep::Reclaim)
            &&& !unproven && !pending && unreadable ==> r == Err::<CandidateStep, Error>(Error::Evidence)
            &&& !unproven && !pending && !unreadable && k == 0 ==> r == Ok::<CandidateStep, Error>(CandidateStep::Idle)
            &&& !unproven && !pending && !unreadable && k > 0 ==> (r matches Ok(
                CandidateStep::Reserve { through, context },
            ) && through == rows@[k - 1].id && (context matches Some(c) ==> boots_alike(c, boot)))
        }),
{
    let frozen = match old {
        Some(h) => match h.context {
            Column::Value(c) => Some(c),
            _ => None,
        },
        None => None,
    };
    lemma_scan(rows@, k, boot, None, frozen);
}

/// What a host is asked to retire: for the claim's own maintainer, everything of its
/// domain in this boot through this operation; and it is asked only where the boot is
/// of the claimed allocation and generation.
pub proof fn retirement_is_asked_of_the_claimed_boot(
    a: &AllocationRow,
    through: OperationId,
    claim: &Claim,
    context: &Context,
    r: Result<HistoryRequest, Error>,
)
    requires
        retirement_requested(a, through, claim, context, r),
        ends_in_time(*claim),
    ensures
        r is Ok <==> context.allocation_id == claim.allocation_id && context.generation == a.generation
            && context.generation >= 1 && context.boot_id@.len() >= 1 && byte_len(context.boot_id@) <= 64 && is_v7(
            through.value,
        ),
        r matches Ok(q) ==> (q.ownership matches Some(o) && acts_for(o, *a, *claim)) && (q.barrier matches Some(b)
            && asks_through(b, through, *claim, *context)),
{
    if let Ok(q) = r {
        if let Some(o) = q.ownership {
            claims_act_in_every_field(o, *a, *claim);
        }
    }
}

/// A claimed candidate whose boot is known is asked to retire its reserved prefix; one
/// whose boot is not is asked for it first.
pub proof fn claimed_candidates_retire_their_reservation(
    a: &AllocationRow,
    claim: Claim,
    h: &HistoryRow,
    rows: &Vec<PrefixRow>,
    r: Result<Preparation, Error>,
)
    requires
        candidate_claimed(a, claim, h, rows, r),
        ends_in_time(claim),
    ensures
        h.context is Unreadable ==> r == Err::<Preparation, Error>(Error::Evidence),
        h.context is Absent ==> (r matches Ok(Preparation::Binding { claim: c, request }) && c == claim && (
        request.ownership matches Some(o) && acts_for(o, *a, claim))),
        h.context matches Column::Value(boot) ==> (r matches Ok(p) ==> (p matches Preparation::Retire { claim: c, request }
            && {
            &&& c == claim
            &&& request.ownership matches Some(o) && acts_for(o, *a, claim)
            &&& request.barrier matches Some(b) && asks_through(b, h.reserved_through, claim, boot)
            &&& rows@.len() > 0 && rows@.last().id == h.reserved_through
            &&& retirable(rows@, rows@.len() as int, boot)
        })),
{
    if let Column::Value(boot) = h.context {
        passing_prefixes_hold(rows@, h.reserved_through, domain_limit(claim.domain), boot);
    }
    if let Ok(Preparation::Retire { request, .. }) = r {
        if let Some(o) = request.ownership {
            claims_act_in_every_field(o, *a, claim);
        }
    }
    if let Ok(Preparation::Binding { request, .. }) = r {
        if let Some(o) = request.ownership {
            claims_act_in_every_field(o, *a, claim);
        }
    }
}

/// A report of a boot counts only where it answers the claim's own question, in time,
/// simulated only where simulation is allowed, and the boot is the one that was kept,
/// if one was; what is then asked is to retire the reserved prefix in exactly that
/// boot.
pub proof fn reported_boots_answer_the_claim(
    a: &AllocationRow,
    claim: &Claim,
    h: &HistoryRow,
    rows: &Vec<PrefixRow>,
    o: HistoryBindingObservation,
    now: i128,
    allow_simulated: bool,
    q: HistoryRequest,
    boot: Context,
)
    requires
        history_bound(
            a,
            claim,
            h,
            rows,
            o,
            now,
            allow_simulated,
            Ok::<(HistoryRequest, Context), Error>((q, boot)),
        ),
        0 <= now <= 253402300799999999999,
        ends_in_time(*claim),
    ensures
        o.simulated ==> allow_simulated,
        o.request matches Some(asked) && asked.ownership matches Some(x) && acts_for(x, *a, *claim),
        in_time(o.observed_unix_ms, *claim, now),
        o.context matches Some(w) && w.allocation_id@ == id_text("alc"@, boot.allocation_id.value) && w.generation
            == boot.generation && w.boot_id@ == boot.boot_id@,
        !(h.context is Unreadable),
        h.context matches Column::Value(kept) ==> boots_alike(kept, boot),
        boot.allocation_id == claim.allocation_id,
        boot.generation == a.generation,
        rows@.len() > 0 && rows@.last().id == h.reserved_through,
        retirable(rows@, rows@.len() as int, boot),
        q.ownership matches Some(x) && acts_for(x, *a, *claim),
        q.barrier matches Some(b) && asks_through(b, h.reserved_through, *claim, boot),
{
    passing_prefixes_hold(rows@, h.reserved_through, domain_limit(claim.domain), boot);
    claims_act_in_every_field(o.request->0.ownership->0, *a, *claim);
    claims_act_in_every_field(q.ownership->0, *a, *claim);
}

/// A reserved prefix is completed exactly where its boot was kept and its operations
/// can still be retired in it, and the host reports, in time, that it retired exactly
/// what it was asked to: the request that was kept, answered by the same request, and
/// a barrier of the same boot, domain and operation.
pub proof fn only_the_asked_prefix_is_completed(
    a: &AllocationRow,
    claim: &Claim,
    h: &HistoryRow,
    rows: &Vec<PrefixRow>,
    o: &HistoryObservation,
    now: i128,
    allow_simulated: bool,
    boot: Context,
    r: Result<(), Error>,
)
    requires
        history_completed(a, claim, h, rows, o, now, allow_simulated, r),
        h.context == Column::Value(boot),
        0 <= now <= 253402300799999999999,
        ends_in_time(*claim),
    ensures
        r is Ok <==> {
            &&& 1 <= rows@.len() <= (match claim.domain {
                Domain::Commands => 33int,
                Domain::Files => 17int,
            })
            &&& rows@.last().id == h.reserved_through
            &&& retirable(rows@, rows@.len() as int, boot)
            &&& boot.allocation_id == claim.allocation_id && boot.generation == a.generation && boot.generation >= 1
                && boot.boot_id@.len() >= 1 && byte_len(boot.boot_id@) <= 64 && is_v7(h.reserved_through.value)
            &&& h.request matches Column::Value(kept) && (kept.ownership matches Some(x) && acts_for(x, *a, *claim)) && (
            kept.barrier matches Some(b) && asks_through(b, h.reserved_through, *claim, boot))
            &&& o.request matches Some(q) && (q.ownership matches Some(x) && acts_for(x, *a, *claim)) && (
            q.barrier matches Some(b) && asks_through(b, h.reserved_through, *claim, boot))
            &&& o.completed matches Some(b) && asks_through(b, h.reserved_through, *claim, boot)
            &&& o.simulated ==> allow_simulated
            &&& in_time(o.observed_unix_ms, *claim, now)
        },
{
    passing_prefixes_hold(rows@, h.reserved_through, domain_limit(claim.domain), boot);
    if let Column::Value(kept) = h.request {
        if let Some(x) = kept.ownership {
            claims_act_in_every_field(x, *a, *claim);
        }
    }
    if let Some(q) = o.request {
        if let Some(x) = q.ownership {
            claims_act_in_every_field(x, *a, *claim);
        }
    }
}

/// A history whose boot is not known is not completed.
pub proof fn unbound_history_is_not_completed(
    a: &AllocationRow,
    claim: &Claim,
    h: &HistoryRow,
    rows: &Vec<PrefixRow>,
    o: &HistoryObservation,
    now: i128,
    allow_simulated: bool,
    r: Result<(), Error>,
)
    requires
        history_completed(a, claim, h, rows, o, now, allow_simulated, r),
        !(h.context is Value),
    ensures
        r == Err::<(), Error>(Error::Evidence),
{
}

} // verus!
