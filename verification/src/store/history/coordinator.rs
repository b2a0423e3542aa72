//! Reserving a contiguous prefix of an allocation's history, and retiring it.
use crate::guest_model::{context_valid, same_context, Context};
use crate::guest_wire::{context_refusal, context_written, lemma_id_text_injective};
use crate::history::{Barrier, Domain};
use crate::ids::{id_text, is_v7, Id, OperationId};
use crate::store::clock::{is_timely, millis, millis_of, timely};
use crate::store::history::{domain_limit, limit, stamp_millis, Claim, Error};
use crate::store::output::Column;
use crate::store::rows::AllocationRow;
use crate::supervisor::{
    barriers_agree, lease_owned_by, HistoryBindingObservation, HistoryObservation, HistoryRequest, LeaseInspection, LeaseOwnership,
};
use vstd::prelude::*;
use vstd::string::*;

verus! {

#[derive(Debug)]
pub enum Preparation {
    Binding { claim: Claim, request: LeaseInspection },
    Retire { claim: Claim, request: HistoryRequest },
}

/// What checking something comes to.
pub open spec fn history_outcome(ok: bool) -> Result<(), Error> {
    if ok {
        Ok(())
    } else {
        Err(Error::Evidence)
    }
}

/// The owner that a history claim on an allocation stands for.
pub open spec fn claim_owner(o: LeaseOwnership, a: AllocationRow, claim: Claim) -> bool {
    &&& o.host_id@ == id_text("hst"@, a.host_id.value)
    &&& o.project_id@ == id_text("prj"@, a.project_id.value)
    &&& o.sandbox_id@ == id_text("sbx"@, a.sandbox_id.value)
    &&& o.allocation_id@ == id_text("alc"@, claim.allocation_id.value)
    &&& o.generation == a.generation
    &&& o.supervisor_epoch == a.supervisor_epoch
    &&& o.revision == claim.revision
    &&& Some(o.claim_expires_unix_ms) == millis_of(claim.expires_at)
}

pub fn owner(a: &AllocationRow, claim: &Claim) -> (r: Result<LeaseOwnership, Error>)
    ensures
        match r {
            Ok(o) => claim_owner(o, *a, *claim),
            Err(e) => e == Error::Evidence && millis_of(claim.expires_at) is None,
        },
{
    let expires: i64 = match stamp_millis(claim.expires_at) {
        Ok(m) => m,
        Err(e) => {
            return Err(e);
        },
    };
    Ok(
        LeaseOwnership {
            host_id: a.host_id.to_string(),
            project_id: a.project_id.to_string(),
            sandbox_id: a.sandbox_id.to_string(),
            allocation_id: claim.allocation_id.to_string(),
            generation: a.generation,
            supervisor_epoch: a.supervisor_epoch,
            revision: claim.revision,
            claim_expires_unix_ms: expires,
        },
    )
}

/// A retirement may be asked for in this boot of the claimed allocation.
pub open spec fn request_allowed(a: AllocationRow, through: OperationId, claim: Claim, context: Context) -> bool {
    &&& context.allocation_id == claim.allocation_id
    &&& context.generation == a.generation
    &&& context_valid(context)
    &&& is_v7(through.value)
    &&& millis_of(claim.expires_at) is Some
}

/// The barrier of a claim's domain, through the identity in this boot.
pub open spec fn retired_barrier(b: Barrier, through: OperationId, claim: Claim, context: Context) -> bool {
    b.version == 1 && same_context(b.context, context) && b.domain == claim.domain && b.through == through
}

/// The retirement that is asked for: everything through the reserved identity.
pub open spec fn retirement_request(q: HistoryRequest, a: AllocationRow, through: OperationId, claim: Claim, context: Context) -> bool {
    &&& (q.ownership matches Some(o) && claim_owner(o, a, claim))
    &&& (q.barrier matches Some(b) && retired_barrier(b, through, claim, context))
}

/// What a host may be asked to retire.
pub open spec fn retirement_requested(
    a: &AllocationRow,
    through: OperationId,
    claim: &Claim,
    context: &Context,
    r: Result<HistoryRequest, Error>,
) -> bool {
    match r {
        Ok(q) => request_allowed(*a, through, *claim, *context) && retirement_request(
            q,
            *a,
            through,
            *claim,
            *context,
        ),
        Err(e) => e == Error::Evidence && !request_allowed(*a, through, *claim, *context),
    }
}

pub fn request(a: &AllocationRow, through: OperationId, claim: &Claim, context: &Context) -> (r: Result<
    HistoryRequest,
    Error,
>)
    ensures
        retirement_requested(a, through, claim, context, r),
{
    if context.allocation_id != claim.allocation_id || context.generation != a.generation {
        return Err(Error::Evidence);
    }
    let barrier: Barrier = Barrier { version: 1, context: context.clone(), domain: claim.domain, through };
    if barrier.validate(context, claim.domain).is_err() {
        return Err(Error::Evidence);
    }
    match owner(a, claim) {
        Ok(o) => Ok(HistoryRequest { ownership: Some(o), barrier: Some(barrier) }),
        Err(e) => Err(e),
    }
}

/// An observation belongs to its short claim, with bounded clock skew.
pub open spec fn observation_timely(observed: i64, claim: Claim, now: i128) -> bool {
    &&& millis_of(now) is Some
    &&& millis_of(claim.expires_at) is Some
    &&& timely(observed, millis_of(now)->0, millis_of(claim.expires_at)->0)
}

/// What a report's time may be found to be.
pub open spec fn freshness_checked(observed: i64, claim: &Claim, now: i128, r: Result<(), Error>) -> bool {
    r == history_outcome(observation_timely(observed, *claim, now))
}

pub fn fresh(observed: i64, claim: &Claim, now: i128) -> (r: Result<(), Error>)
    ensures
        freshness_checked(observed, claim, now, r),
{
    match (millis(now), millis(claim.expires_at)) {
        (Some(now), Some(expires)) => if is_timely(observed, now, expires) {
            Ok(())
        } else {
            Err(Error::Evidence)
        },
        _ => Err(Error::Evidence),
    }
}

/// One operation of a prefix, and what judging it came to.
pub struct PrefixRow {
    pub id: OperationId,
    pub eligible: Result<Option<Option<Context>>, Error>,
}

/// The boot that a prefix runs in agrees with another one.
pub open spec fn agrees(context: Option<Context>, found: Context) -> bool {
    context matches Some(c) ==> same_context(c, found)
}

/// Walking a list of operations in order, as far as they may be retired: the last
/// one that may, and the one boot they all ran in. Operations of two boots, or one
/// with wrong evidence, are an error.
pub open spec fn scanned(rows: Seq<PrefixRow>, through: Option<OperationId>, context: Option<Context>) -> Result<
    (Option<OperationId>, Option<Context>),
    Error,
>
    decreases rows.len(),
{
    if rows.len() == 0 {
        Ok((through, context))
    } else {
        match rows[0].eligible {
            Err(e) => Err(e),
            Ok(None) => Ok((through, context)),
            Ok(Some(None)) => scanned(rows.skip(1), Some(rows[0].id), context),
            Ok(Some(Some(found))) => if agrees(context, found) {
                scanned(rows.skip(1), Some(rows[0].id), Some(found))
            } else {
                Err(Error::Evidence)
            },
        }
    }
}

/// What a scan may find.
pub open spec fn prefix_scanned(
    rows: &Vec<PrefixRow>,
    frozen: Option<Context>,
    r: Result<(Option<OperationId>, Option<Context>), Error>,
) -> bool {
    r == scanned(rows@, None, frozen)
}

pub fn scan(rows: &Vec<PrefixRow>, frozen: Option<Context>) -> (r: Result<(Option<OperationId>, Option<Context>), Error>)
    ensures
        prefix_scanned(rows, frozen, r),
{
    let mut through: Option<OperationId> = None;
    let ghost start = frozen;
    let mut context: Option<Context> = frozen;
    let mut i: usize = 0;
    assert(rows@.skip(0) =~= rows@);
    while i < rows.len()
        invariant
            i <= rows@.len(),
            start == frozen,
            scanned(rows@, None, start) == scanned(rows@.skip(i as int), through, context),
        decreases rows@.len() - i,
    {
        proof {
            assert(rows@.skip(i as int)[0] == rows@[i as int]);
            assert(rows@.skip(i as int).skip(1) =~= rows@.skip(i + 1));
        }
        let row: &PrefixRow = &rows[i];
        match &row.eligible {
            Err(e) => {
                return Err(*e);
            },
            Ok(None) => {
                return Ok((through, context));
            },
            Ok(Some(None)) => {},
            Ok(Some(Some(found))) => {
                let same: bool = match &context {
                    Some(c) => c.same(found),
                    None => true,
                };
                if !same {
                    return Err(Error::Evidence);
                }
                context = Some(found.clone());
            },
        }
        through = Some(row.id);
        i = i + 1;
    }
    Ok((through, context))
}

/// Every operation of a reserved prefix may still be retired, in this boot.
pub open spec fn prefix_holds(rows: Seq<PrefixRow>, through: OperationId, most: int, context: Context) -> bool {
    &&& 0 < rows.len() <= most
    &&& rows.last().id == through
    &&& forall|i: int|
        0 <= i < rows.len() ==> ((#[trigger] rows[i]).eligible matches Ok(Some(found)) && (found matches Some(c)
            ==> same_context(c, context)))
}

/// Judging the operations one after another, in this boot: the first that may not
/// be retired decides.
pub open spec fn prefix_walk(rows: Seq<PrefixRow>, context: Context) -> Result<(), Error>
    decreases rows.len(),
{
    if rows.len() == 0 {
        Ok(())
    } else {
        match rows[0].eligible {
            Err(e) => Err(e),
            Ok(None) => Err(Error::Evidence),
            Ok(Some(Some(c))) => if same_context(c, context) {
                prefix_walk(rows.skip(1), context)
            } else {
                Err(Error::Evidence)
            },
            Ok(Some(None)) => prefix_walk(rows.skip(1), context),
        }
    }
}

/// What checking a reserved prefix in a boot comes to.
pub open spec fn prefix_verdict(rows: Seq<PrefixRow>, through: OperationId, most: int, context: Context) -> Result<
    (),
    Error,
> {
    if 0 < rows.len() <= most && rows.last().id == through {
        prefix_walk(rows, context)
    } else {
        Err(Error::Evidence)
    }
}

proof fn lemma_prefix_walk(rows: Seq<PrefixRow>, context: Context)
    ensures
        prefix_walk(rows, context) is Ok <==> forall|i: int|
            0 <= i < rows.len() ==> ((#[trigger] rows[i]).eligible matches Ok(Some(found)) && (found matches Some(c)
                ==> same_context(c, context))),
    decreases rows.len(),
{
    if rows.len() > 0 {
        let rest = rows.skip(1);
        lemma_prefix_walk(rest, context);
        assert(forall|i: int| 0 <= i < rest.len() ==> rest[i] == rows[i + 1]);
        if prefix_walk(rows, context) is Ok {
            assert forall|i: int| 0 <= i < rows.len() implies ((#[trigger] rows[i]).eligible matches Ok(Some(found)) && (
            found matches Some(c) ==> same_context(c, context))) by {
                if i > 0 {
                    assert(rest[i - 1] == rows[i]);
                }
            }
        } else if forall|i: int|
            0 <= i < rows.len() ==> ((#[trigger] rows[i]).eligible matches Ok(Some(found)) && (found matches Some(c)
                ==> same_context(c, context))) {
            assert(rows[0].eligible matches Ok(Some(_)));
            assert forall|i: int| 0 <= i < rest.len() implies ((#[trigger] rest[i]).eligible matches Ok(Some(found)) && (
            found matches Some(c) ==> same_context(c, context))) by {
                assert(rest[i] == rows[i + 1]);
            }
        }
    }
}

proof fn lemma_walk_of_same_boot(rows: Seq<PrefixRow>, x: Context, y: Context)
    requires
        same_context(x, y),
    ensures
        prefix_walk(rows, x) == prefix_walk(rows, y),
    decreases rows.len(),
{
    if rows.len() > 0 {
        lemma_walk_of_same_boot(rows.skip(1), x, y);
    }
}

/// A reserved prefix passes exactly where every operation of it may be retired.
pub proof fn passing_prefixes_hold(rows: Seq<PrefixRow>, through: OperationId, most: int, context: Context)
    ensures
        prefix_verdict(rows, through, most, context) is Ok <==> prefix_holds(rows, through, most, context),
{
    lemma_prefix_walk(rows, context);
}

/// What checking a prefix may come to.
pub open spec fn prefix_validated(
    rows: &Vec<PrefixRow>,
    through: OperationId,
    domain: Domain,
    context: &Context,
    r: Result<(), Error>,
) -> bool {
    r == prefix_verdict(rows@, through, domain_limit(domain), *context)
}

pub fn validate_prefix(rows: &Vec<PrefixRow>, through: OperationId, domain: Domain, context: &Context) -> (r: Result<
    (),
    Error,
>)
    ensures
        prefix_validated(rows, through, domain, context, r),
{
    if rows.len() == 0 || rows.len() > limit(domain) || rows[rows.len() - 1].id != through {
        return Err(Error::Evidence);
    }
    let mut i: usize = 0;
    assert(rows@.skip(0) =~= rows@);
    while i < rows.len()
        invariant
            i <= rows@.len(),
            0 < rows@.len() <= domain_limit(domain),
            rows@.last().id == through,
            prefix_walk(rows@, *context) == prefix_walk(rows@.skip(i as int), *context),
        decreases rows@.len() - i,
    {
        proof {
            assert(rows@.skip(i as int)[0] == rows@[i as int]);
            assert(rows@.skip(i as int).skip(1) =~= rows@.skip(i + 1));
        }
        match &rows[i].eligible {
            Err(e) => {
                return Err(*e);
            },
            Ok(None) => {
                return Err(Error::Evidence);
            },
            Ok(Some(None)) => {},
            Ok(Some(Some(c))) => {
                if !c.same(context) {
                    return Err(Error::Evidence);
                }
            },
        }
        i = i + 1;
    }
    Ok(())
}

/// What is retained of a domain's history.
pub struct HistoryRow {
    pub completed_through: Option<OperationId>,
    pub reserved_through: OperationId,
    pub context: Column<Context>,
    pub request: Column<HistoryRequest>,
}

/// A reservation that is not yet completed.
pub open spec fn reservation_pending(h: HistoryRow) -> bool {
    h.completed_through != Some(h.reserved_through)
}

/// What to do about a candidate allocation.
pub enum CandidateStep {
    /// Nothing can be retired yet.
    Idle,
    /// Reclaim the pending reservation as it stands.
    Reclaim,
    /// Reserve everything through this operation, in this boot.
    Reserve { through: OperationId, context: Option<Context> },
}

/// How a scan goes on behind one candidate.
#[derive(Debug, Clone, Copy, PartialEq, Eq, Structural)]
pub enum CandidateNext {
    /// Commit what was prepared: the scan is done.
    Commit,
    /// Keep the candidate as it is and go on to the next.
    Skip,
    /// Undo what the candidate wrote, try it again later, and go on to the next.
    Retry,
    /// Fail the whole scan.
    Fail,
}

/// What may follow a candidate.
pub open spec fn candidate_followed(found: &Result<bool, Error>, r: CandidateNext) -> bool {
    r == (match *found {
        Ok(true) => CandidateNext::Commit,
        Ok(false) => CandidateNext::Skip,
        Err(Error::Evidence) => CandidateNext::Retry,
        Err(_) => CandidateNext::Fail,
    })
}

/// Decide how a scan goes on, by whether a candidate was prepared. Malformed
/// evidence of one allocation must not hold up its peers; any other failure ends
/// the scan.
pub fn after_candidate(found: &Result<bool, Error>) -> (r: CandidateNext)
    ensures
        candidate_followed(found, r),
{
    match found {
        Ok(true) => CandidateNext::Commit,
        Ok(false) => CandidateNext::Skip,
        Err(Error::Evidence) => CandidateNext::Retry,
        Err(_) => CandidateNext::Fail,
    }
}

/// What the rows of a candidate allocation come to.
pub open spec fn candidate_decision(old: Option<HistoryRow>, verified: Option<OperationId>, rows: Seq<PrefixRow>) -> Result<
    CandidateStep,
    Error,
> {
    if old matches Some(h) && h.completed_through is Some && verified != h.completed_through {
        Err(Error::Evidence)
    } else if old matches Some(h) && reservation_pending(h) {
        Ok(CandidateStep::Reclaim)
    } else if old matches Some(h) && h.context is Unreadable {
        Err(Error::Evidence)
    } else {
        let frozen = match old {
            Some(h) => match h.context {
                Column::Value(c) => Some(c),
                _ => None,
            },
            None => None,
        };
        match scanned(rows, None, frozen) {
            Err(e) => Err(e),
            Ok((None, _)) => Ok(CandidateStep::Idle),
            Ok((Some(through), context)) => Ok(CandidateStep::Reserve { through, context }),
        }
    }
}

/// What may be done with a candidate.
pub open spec fn candidate_prepared(
    old: Option<&HistoryRow>,
    verified: Option<OperationId>,
    rows: &Vec<PrefixRow>,
    r: Result<CandidateStep, Error>,
) -> bool {
    r == candidate_decision(
        match old {
            Some(h) => Some(*h),
            None => None,
        },
        verified,
        rows@,
    )
}

/// Decide a candidate allocation. `verified` is the completed prefix as its
/// retained completion proves it; `rows` are the operations behind it, in order.
/// Pending reservations are reclaimed using the same prefix, never enlarged.
pub fn prepare_candidate(old: Option<&HistoryRow>, verified: Option<OperationId>, rows: &Vec<PrefixRow>) -> (r: Result<
    CandidateStep,
    Error,
>)
    ensures
        candidate_prepared(old, verified, rows, r),
{
    let mut frozen: Option<Context> = None;
    if let Some(h) = old {
        if let Some(completed) = h.completed_through {
            let agreed: bool = match verified {
                Some(v) => v == completed,
                None => false,
            };
            if !agreed {
                return Err(Error::Evidence);
            }
        }
        let done: bool = match h.completed_through {
            Some(c) => c == h.reserved_through,
            None => false,
        };
        if !done {
            return Ok(CandidateStep::Reclaim);
        }
        match &h.context {
            Column::Unreadable => {
                return Err(Error::Evidence);
            },
            Column::Absent => {},
            Column::Value(c) => {
                frozen = Some(c.clone());
            },
        }
    }
    match scan(rows, frozen) {
        Err(e) => Err(e),
        Ok((None, _)) => Ok(CandidateStep::Idle),
        Ok((Some(through), context)) => Ok(CandidateStep::Reserve { through, context }),
    }
}

/// What a claimed candidate may be prepared as.
pub open spec fn candidate_claimed(
    a: &AllocationRow,
    claim: Claim,
    h: &HistoryRow,
    rows: &Vec<PrefixRow>,
    r: Result<Preparation, Error>,
) -> bool {
    match r {
        Ok(Preparation::Retire { claim: c, request }) => {
            &&& c == claim
            &&& h.context matches Column::Value(context)
            &&& prefix_verdict(rows@, h.reserved_through, domain_limit(claim.domain), context) is Ok
            &&& request_allowed(*a, h.reserved_through, claim, context)
            &&& retirement_request(request, *a, h.reserved_through, claim, context)
        },
        Ok(Preparation::Binding { claim: c, request }) => {
            &&& c == claim
            &&& h.context is Absent
            &&& (request.ownership matches Some(o) && claim_owner(o, *a, claim))
        },
        Err(e) => match h.context {
            Column::Unreadable => e == Error::Evidence,
            Column::Absent => e == Error::Evidence && millis_of(claim.expires_at) is None,
            Column::Value(context) => match prefix_verdict(
                rows@,
                h.reserved_through,
                domain_limit(claim.domain),
                context,
            ) {
                Err(x) => e == x,
                Ok(_) => e == Error::Evidence && !request_allowed(*a, h.reserved_through, claim, context),
            },
        },
    }
}

/// What a claimed reservation asks of the host: to retire the prefix where the
/// boot is known and every operation still may be, else which boot is running.
pub fn claimed_candidate(a: &AllocationRow, claim: Claim, h: &HistoryRow, rows: &Vec<PrefixRow>) -> (r: Result<
    Preparation,
    Error,
>)
    ensures
        candidate_claimed(a, claim, h, rows, r),
{
    match &h.context {
        Column::Unreadable => Err(Error::Evidence),
        Column::Value(context) => {
            match validate_prefix(rows, h.reserved_through, claim.domain, context) {
                Ok(_) => {},
                Err(e) => {
                    return Err(e);
                },
            }
            match request(a, h.reserved_through, &claim, context) {
                Ok(q) => Ok(Preparation::Retire { claim, request: q }),
                Err(e) => Err(e),
            }
        },
        Column::Absent => match owner(a, &claim) {
            Ok(o) => Ok(Preparation::Binding { claim, request: LeaseInspection { ownership: Some(o) } }),
            Err(e) => Err(e),
        },
    }
}

/// The observation answers this claim's own question, in time.
pub open spec fn binding_answers(o: HistoryBindingObservation, a: AllocationRow, claim: Claim, now: i128, allow_simulated: bool) -> bool {
    &&& (o.simulated ==> allow_simulated)
    &&& (o.request matches Some(q) && (q.ownership matches Some(x) && claim_owner(x, a, claim)))
    &&& observation_timely(o.observed_unix_ms, claim, now)
}

/// Why the boot that a host reports may not be bound: it is another than the one
/// retained, or the reserved prefix does not hold in it.
pub open spec fn binding_refusal(a: AllocationRow, claim: Claim, h: HistoryRow, rows: Seq<PrefixRow>, context: Context) -> Option<
    Error,
> {
    let retained = match h.context {
        Column::Unreadable => false,
        Column::Absent => true,
        Column::Value(saved) => same_context(saved, context),
    };
    if !retained {
        Some(Error::Evidence)
    } else {
        match prefix_verdict(rows, h.reserved_through, domain_limit(claim.domain), context) {
            Err(e) => Some(e),
            Ok(_) => if request_allowed(a, h.reserved_through, claim, context) {
                None
            } else {
                Some(Error::Evidence)
            },
        }
    }
}

proof fn lemma_binding_of_same_boot(
    a: AllocationRow,
    claim: Claim,
    h: HistoryRow,
    rows: Seq<PrefixRow>,
    x: Context,
    y: Context,
)
    requires
        same_context(x, y),
    ensures
        binding_refusal(a, claim, h, rows, x) == binding_refusal(a, claim, h, rows, y),
{
    lemma_walk_of_same_boot(rows, x, y);
}

/// What a report of a boot may come to.
pub open spec fn history_bound(
    a: &AllocationRow,
    claim: &Claim,
    h: &HistoryRow,
    rows: &Vec<PrefixRow>,
    o: HistoryBindingObservation,
    now: i128,
    allow_simulated: bool,
    r: Result<(HistoryRequest, Context), Error>,
) -> bool {
    match r {
        Ok((q, context)) => {
            &&& binding_answers(o, *a, *claim, now, allow_simulated)
            &&& (o.context matches Some(wire) && context_refusal(wire) is None && context_written(context, wire))
            &&& binding_refusal(*a, *claim, *h, rows@, context) is None
            &&& retirement_request(q, *a, h.reserved_through, *claim, context)
        },
        Err(e) => if !binding_answers(o, *a, *claim, now, allow_simulated) || o.context is None || context_refusal(
            o.context->0,
        ) is Some {
            e == Error::Evidence
        } else {
            forall|context: Context| #[trigger]
                context_written(context, o.context->0) ==> binding_refusal(*a, *claim, *h, rows@, context) == Some(e)
        },
    }
}

/// Bind a reserved prefix to the boot that the host reports. Only what goes
/// through here can then be retired.
pub fn bind_history(
    a: &AllocationRow,
    claim: &Claim,
    h: &HistoryRow,
    rows: &Vec<PrefixRow>,
    o: HistoryBindingObservation,
    now: i128,
    allow_simulated: bool,
) -> (r: Result<(HistoryRequest, Context), Error>)
    ensures
        history_bound(a, claim, h, rows, o, now, allow_simulated, r),
{
    if o.simulated && !allow_simulated {
        return Err(Error::Evidence);
    }
    let expected: LeaseOwnership = match owner(a, claim) {
        Ok(x) => x,
        Err(e) => {
            return Err(e);
        },
    };
    let asked: bool = match &o.request {
        Some(q) => lease_owned_by(&q.ownership, &expected),
        None => false,
    };
    if !asked {
        return Err(Error::Evidence);
    }
    match fresh(o.observed_unix_ms, claim, now) {
        Ok(_) => {},
        Err(e) => {
            return Err(e);
        },
    }
    let ghost wire = o.context;
    let context: Context = match o.context {
        None => {
            return Err(Error::Evidence);
        },
        Some(c) => match Context::from_wire(c) {
            Ok(context) => context,
            Err(_) => {
                return Err(Error::Evidence);
            },
        },
    };
    proof {
        assert forall|other: Context| #[trigger] context_written(other, wire->0) implies binding_refusal(
            *a,
            *claim,
            *h,
            rows@,
            other,
        ) == binding_refusal(*a, *claim, *h, rows@, context) by {
            lemma_id_text_injective("alc"@, other.allocation_id.value, context.allocation_id.value);
            lemma_binding_of_same_boot(*a, *claim, *h, rows@, other, context);
        }
    }
    match &h.context {
        Column::Unreadable => {
            return Err(Error::Evidence);
        },
        Column::Absent => {},
        Column::Value(saved) => {
            if !saved.same(&context) {
                return Err(Error::Evidence);
            }
        },
    }
    match validate_prefix(rows, h.reserved_through, claim.domain, &context) {
        Ok(_) => {},
        Err(e) => {
            return Err(e);
        },
    }
    match request(a, h.reserved_through, claim, &context) {
        Ok(q) => Ok((q, context)),
        Err(e) => Err(e),
    }
}

/// The observation acknowledges exactly the request that was saved and sent, and
/// exactly the prefix it asks for.
pub open spec fn completion_fits(
    a: AllocationRow,
    claim: Claim,
    h: HistoryRow,
    o: HistoryObservation,
    now: i128,
    allow_simulated: bool,
    context: Context,
) -> bool {
    &&& request_allowed(a, h.reserved_through, claim, context)
    &&& (h.request matches Column::Value(saved) && retirement_request(saved, a, h.reserved_through, claim, context))
    &&& (o.request matches Some(q) && retirement_request(q, a, h.reserved_through, claim, context))
    &&& (o.simulated ==> allow_simulated)
    &&& (o.completed matches Some(b) && retired_barrier(b, h.reserved_through, claim, context))
    &&& observation_timely(o.observed_unix_ms, claim, now)
}

/// Why a completion is refused.
pub open spec fn completion_refusal(
    a: AllocationRow,
    claim: Claim,
    h: HistoryRow,
    rows: Seq<PrefixRow>,
    o: HistoryObservation,
    now: i128,
    allow_simulated: bool,
) -> Option<Error> {
    match h.context {
        Column::Value(context) => match prefix_verdict(
            rows,
            h.reserved_through,
            domain_limit(claim.domain),
            context,
        ) {
            Err(e) => Some(e),
            Ok(_) => if completion_fits(a, claim, h, o, now, allow_simulated, context) {
                None
            } else {
                Some(Error::Evidence)
            },
        },
        _ => Some(Error::Evidence),
    }
}

/// What a report of retired history may come to.
pub open spec fn history_completed(
    a: &AllocationRow,
    claim: &Claim,
    h: &HistoryRow,
    rows: &Vec<PrefixRow>,
    o: &HistoryObservation,
    now: i128,
    allow_simulated: bool,
    r: Result<(), Error>,
) -> bool {
    r == (match completion_refusal(*a, *claim, *h, rows@, *o, now, allow_simulated) {
        None => Ok::<(), Error>(()),
        Some(e) => Err(e),
    })
}

/// Only this exact acknowledgement promotes the reserved prefix to completed.
pub fn complete_history(
    a: &AllocationRow,
    claim: &Claim,
    h: &HistoryRow,
    rows: &Vec<PrefixRow>,
    o: &HistoryObservation,
    now: i128,
    allow_simulated: bool,
) -> (r: Result<(), Error>)
    ensures
        history_completed(a, claim, h, rows, o, now, allow_simulated, r),
{
    let context: &Context = match &h.context {
        Column::Value(c) => c,
        _ => {
            return Err(Error::Evidence);
        },
    };
    match validate_prefix(rows, h.reserved_through, claim.domain, context) {
        Ok(_) => {},
        Err(e) => {
            return Err(e);
        },
    }
    let expected: HistoryRequest = match request(a, h.reserved_through, claim, context) {
        Ok(q) => q,
        Err(e) => {
            return Err(e);
        },
    };
    let stored: bool = match &h.request {
        Column::Value(q) => q.same(&expected),
        _ => false,
    };
    let asked: bool = match &o.request {
        Some(q) => q.same(&expected),
        None => false,
    };
    if !stored || !asked || (o.simulated && !allow_simulated) || !barriers_agree(&o.completed, &expected.barrier) {
        return Err(Error::Evidence);
    }
    fresh(o.observed_unix_ms, claim, now)
}

/// A pending reservation is never enlarged: whatever has become eligible since,
/// the same prefix is reclaimed.
pub proof fn pending_reservations_are_not_enlarged(h: HistoryRow, verified: Option<OperationId>, rows: Seq<PrefixRow>)
    requires
        reservation_pending(h),
    ensures
        candidate_decision(Some(h), verified, rows) matches Ok(step) ==> step is Reclaim,
{
}

/// Walking stops at the first operation that may not be retired: everything
/// through the identity it gives may be, in one boot.
pub proof fn reserved_prefixes_are_eligible(rows: Seq<PrefixRow>, start: Option<OperationId>, context: Option<Context>)
    requires
        scanned(rows, start, context) is Ok,
    ensures
        ({
            let (through, found) = scanned(rows, start, context)->Ok_0;
            &&& (through == start || exists|k: int|
                0 <= k < rows.len() && #[trigger] rows[k].id == through->0 && (forall|i: int|
                    0 <= i <= k ==> ((#[trigger] rows[i]).eligible matches Ok(Some(c)) && (c matches Some(x)
                        ==> (found matches Some(f) && same_context(x, f))))) && through is Some)
            &&& (context matches Some(c) ==> (found matches Some(f) && same_context(c, f)))
        }),
    decreases rows.len(),
{
    if rows.len() > 0 {
        match rows[0].eligible {
            Ok(Some(None)) => {
                let rest = rows.skip(1);
                reserved_prefixes_are_eligible(rest, Some(rows[0].id), context);
                lemma_prefix_step(rows, start, Some(rows[0].id), context, context);
            },
            Ok(Some(Some(found))) => {
                let rest = rows.skip(1);
                reserved_prefixes_are_eligible(rest, Some(rows[0].id), Some(found));
                lemma_prefix_step(rows, start, Some(rows[0].id), context, Some(found));
            },
            _ => {},
        }
    }
}

proof fn lemma_prefix_step(
    rows: Seq<PrefixRow>,
    start: Option<OperationId>,
    next: Option<OperationId>,
    context: Option<Context>,
    after: Option<Context>,
)
    requires
        rows.len() > 0,
        next == Some(rows[0].id),
        rows[0].eligible matches Ok(Some(c)) && after == (if c is Some {
            c
        } else {
            context
        }) && (c matches Some(x) ==> agrees(context, x)),
        scanned(rows, start, context) == scanned(rows.skip(1), next, after),
        scanned(rows.skip(1), next, after) is Ok,
        ({
            let (through, found) = scanned(rows.skip(1), next, after)->Ok_0;
            &&& (through == next || exists|k: int|
                0 <= k < rows.skip(1).len() && #[trigger] rows.skip(1)[k].id == through->0 && (forall|i: int|
                    0 <= i <= k ==> ((#[trigger] rows.skip(1)[i]).eligible matches Ok(Some(c)) && (c matches Some(x)
                        ==> (found matches Some(f) && same_context(x, f))))) && through is Some)
            &&& (after matches Some(c) ==> (found matches Some(f) && same_context(c, f)))
        }),
    ensures
        ({
            let (through, found) = scanned(rows, start, context)->Ok_0;
            &&& exists|k: int|
                0 <= k < rows.len() && #[trigger] rows[k].id == through->0 && (forall|i: int|
                    0 <= i <= k ==> ((#[trigger] rows[i]).eligible matches Ok(Some(c)) && (c matches Some(x)
                        ==> (found matches Some(f) && same_context(x, f))))) && through is Some
            &&& (context matches Some(c) ==> (found matches Some(f) && same_context(c, f)))
        }),
{
    let rest = rows.skip(1);
    let (through, found) = scanned(rest, next, after)->Ok_0;
    if through == next {
        assert(rows[0].id == through->0);
    } else {
        let k = choose|k: int|
            0 <= k < rest.len() && #[trigger] rest[k].id == through->0 && (forall|i: int|
                0 <= i <= k ==> ((#[trigger] rest[i]).eligible matches Ok(Some(c)) && (c matches Some(x) ==> (
                found matches Some(f) && same_context(x, f))))) && through is Some;
        assert(rows[k + 1] == rest[k]);
        assert forall|i: int| 0 <= i <= k + 1 implies ((#[trigger] rows[i]).eligible matches Ok(Some(c)) && (
        c matches Some(x) ==> (found matches Some(f) && same_context(x, f)))) by {
            if i > 0 {
                assert(rest[i - 1] == rows[i]);
            }
        }
        assert(rows[k + 1].id == through->0);
    }
}

} // verus!
