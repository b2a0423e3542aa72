//! Historical physical metadata completion.
use crate::allocation_authority::Permit;
use crate::allocation_retirement::{
    intent_valid, request_bytes, request_validity, same_intent, same_request, Intent, Request,
};
use crate::guest_model::same_bytes;
use crate::store::allocation_retirement::{
    allocation_matches, allocation_of, digest_release, permit, permit_row_of, permitted, release_digest, retirement_of,
    retirement_outcome, Error, RetirementRow,
};
use crate::store::clock::{is_timely, millis, millis_of, timely};
use crate::store::output::Column;
use crate::store::rows::{permit_of, AllocationRow, PermitRow};
use crate::supervisor::AllocationMetadataObservation;
use crate::text::same_text;
use vstd::prelude::*;
use vstd::string::*;

verus! {

/// Historical physical metadata completion, not a fresh host claim or proof of
/// root forgetting. Read this after an uncertain database commit before retrying.
#[derive(Debug, PartialEq, Eq)]
pub struct Completion {
    pub request: Request,
    pub observed_unix_ms: i64,
    pub completed_at: i128,
}

impl Clone for Completion {
    fn clone(&self) -> (r: Self)
        ensures
            r == *self,
    {
        Completion {
            request: self.request.clone(),
            observed_unix_ms: self.observed_unix_ms,
            completed_at: self.completed_at,
        }
    }
}

/// A completion as it is stored.
#[derive(Debug)]
pub struct MetadataEvidence {
    pub version: u32,
    pub request: Request,
    pub observed_unix_ms: i64,
}

/// The allocation is released, and its evidence is what the intent names.
pub open spec fn release_named(a: AllocationRow, i: Intent) -> bool {
    &&& permitted(a, i.permit)
    &&& a.status@ == "released"@
    &&& a.released_at is Some
    &&& i.release_evidence_sha256@ == release_digest(a.release_evidence@)
}

/// What holding a release against an intent may come to.
pub open spec fn release_matched(a: &AllocationRow, i: &Intent, r: Result<(), Error>) -> bool {
    r == retirement_outcome(if release_named(*a, *i) {
        None
    } else {
        Some(Error::Evidence)
    })
}

pub fn release_matches(a: &AllocationRow, i: &Intent) -> (r: Result<(), Error>)
    ensures
        release_matched(a, i, r),
{
    if allocation_matches(a, &i.permit).is_err() || !same_text(a.status.as_str(), "released") || a.released_at.is_none()
        || !same_text(i.release_evidence_sha256.as_str(), digest_release(&a.release_evidence).as_str()) {
        return Err(Error::Evidence);
    }
    Ok(())
}

/// The retained completion is whole: of the frozen physical intent of this very
/// retirement, under the claim that is retained with it, observed in time, and of
/// an allocation that is still released as the intent says.
pub open spec fn completion_intact(r: RetirementRow, e: MetadataEvidence, i: Intent, p: Permit, a: AllocationRow) -> bool {
    &&& r.metadata_completed_at is Some
    &&& r.metadata_claim_expires_at is Some
    &&& r.metadata_completed_at->0 < r.metadata_claim_expires_at->0
    &&& intent_valid(i)
    &&& e.version == 1
    &&& same_intent(e.request.intent, i)
    &&& i.permit == p
    &&& !i.simulated
    &&& i.retirement == r.retirement_id
    &&& p.allocation == r.allocation_id
    &&& e.request.revision > 0
    &&& e.request.revision == r.claim_revision
    &&& e.request.reporting_epoch == r.reporting_epoch
    &&& e.request.reporting_epoch >= p.original_epoch
    &&& Some(e.request.expires_unix_ms) == millis_of(r.metadata_claim_expires_at->0)
    &&& r.lease_expires_at is None
    &&& millis_of(r.metadata_completed_at->0) is Some
    &&& timely(e.observed_unix_ms, millis_of(r.metadata_completed_at->0)->0, e.request.expires_unix_ms)
    &&& release_named(a, i)
}

/// Whether a completion is retained; an error where what is retained is not whole.
pub open spec fn retention(r: RetirementRow, p: Permit, a: AllocationRow) -> Result<bool, Error> {
    match r.metadata_completion {
        Column::Absent => if r.metadata_completed_at is Some || r.metadata_claim_expires_at is Some {
            Err(Error::Evidence)
        } else {
            Ok(false)
        },
        Column::Unreadable => Err(Error::Evidence),
        Column::Value(e) => match r.intent {
            Column::Value(i) => if completion_intact(r, e, i, p, a) {
                Ok(true)
            } else {
                Err(Error::Evidence)
            },
            _ => Err(Error::Evidence),
        },
    }
}

/// The completion that a row retains.
pub open spec fn completion_of(r: RetirementRow) -> Completion {
    Completion {
        request: r.metadata_completion->Value_0.request,
        observed_unix_ms: r.metadata_completion->Value_0.observed_unix_ms,
        completed_at: r.metadata_completed_at->0,
    }
}

/// What may be kept of a completed retirement.
pub open spec fn completion_retained(
    r: &RetirementRow,
    p: &Permit,
    a: &AllocationRow,
    x: Result<Option<Completion>, Error>,
) -> bool {
    match x {
        Ok(Some(c)) => retention(*r, *p, *a) == Ok::<bool, Error>(true) && c == completion_of(*r),
        Ok(None) => retention(*r, *p, *a) == Ok::<bool, Error>(false),
        Err(e) => retention(*r, *p, *a) == Err::<bool, Error>(e),
    }
}

pub fn retained(r: &RetirementRow, p: &Permit, a: &AllocationRow) -> (x: Result<Option<Completion>, Error>)
    ensures
        completion_retained(r, p, a, x),
{
    let e: &MetadataEvidence = match &r.metadata_completion {
        Column::Absent => {
            if r.metadata_completed_at.is_some() || r.metadata_claim_expires_at.is_some() {
                return Err(Error::Evidence);
            }
            return Ok(None);
        },
        Column::Unreadable => {
            return Err(Error::Evidence);
        },
        Column::Value(e) => e,
    };
    let completed_at: i128 = match r.metadata_completed_at {
        Some(t) => t,
        None => {
            return Err(Error::Evidence);
        },
    };
    let expires_at: i128 = match r.metadata_claim_expires_at {
        Some(t) => t,
        None => {
            return Err(Error::Evidence);
        },
    };
    let intent: &Intent = match &r.intent {
        Column::Value(i) => i,
        _ => {
            return Err(Error::Evidence);
        },
    };
    if intent.validate().is_err() {
        return Err(Error::Evidence);
    }
    let expiry: bool = match millis(expires_at) {
        Some(m) => m == e.request.expires_unix_ms,
        None => false,
    };
    let timely: bool = match millis(completed_at) {
        Some(m) => is_timely(e.observed_unix_ms, m, e.request.expires_unix_ms),
        None => false,
    };
    if completed_at >= expires_at || e.version != 1 || !e.request.intent.same(intent) || intent.permit != *p
        || intent.simulated || intent.retirement != r.retirement_id || p.allocation != r.allocation_id
        || e.request.revision <= 0 || e.request.revision != r.claim_revision || e.request.reporting_epoch
        != r.reporting_epoch || e.request.reporting_epoch < p.original_epoch || !expiry || r.lease_expires_at.is_some()
        || !timely {
        return Err(Error::Evidence);
    }
    if release_matches(a, intent).is_err() {
        return Err(Error::Evidence);
    }
    Ok(
        Some(
            Completion { request: e.request.clone(), observed_unix_ms: e.observed_unix_ms, completed_at },
        ),
    )
}

/// A repeat is answered with what was retained, if it repeats exactly that.
pub fn identical(saved: Completion, request: &Request, observed: i64) -> (r: Result<Completion, Error>)
    ensures
        r == (if same_request(saved.request, *request) && saved.observed_unix_ms == observed {
            Ok::<Completion, Error>(saved)
        } else {
            Err(Error::Evidence)
        }),
{
    if !saved.request.same(request) || saved.observed_unix_ms != observed {
        return Err(Error::Evidence);
    }
    Ok(saved)
}

/// A valid intent of a physical host's allocation.
pub open spec fn physical(intent: Intent) -> bool {
    intent_valid(intent) && !intent.simulated
}

/// What an intent may be found to be.
pub open spec fn physical_checked(intent: &Intent, r: Result<(), Error>) -> bool {
    r == retirement_outcome(if physical(*intent) {
        None
    } else {
        Some(Error::Evidence)
    })
}

/// A completion is only looked up for a valid physical intent.
pub fn check_physical(intent: &Intent) -> (r: Result<(), Error>)
    ensures
        physical_checked(intent, r),
{
    if intent.validate().is_err() || intent.simulated {
        return Err(Error::Evidence);
    }
    Ok(())
}

/// What a lookup finds: nothing without a retirement, an error where the intent is
/// not a physical one, the frozen one is another or the evidence is not whole.
pub open spec fn lookup(
    intent: Intent,
    r: Option<RetirementRow>,
    a: Option<AllocationRow>,
    issued: Option<PermitRow>,
) -> Result<bool, Error> {
    match r {
        _ if !physical(intent) => Err(Error::Evidence),
        None => Ok(false),
        Some(row) => if !(row.intent matches Column::Value(i) && same_intent(i, intent)) || a is None || issued is None
            || permit_of(issued->0) is None {
            Err(Error::Evidence)
        } else {
            retention(row, permit_of(issued->0)->0, a->0)
        },
    }
}

/// What may be found of a completed retirement.
pub open spec fn completion_found(
    intent: &Intent,
    r: Option<&RetirementRow>,
    a: Option<&AllocationRow>,
    issued: Option<&PermitRow>,
    x: Result<Option<Completion>, Error>,
) -> bool {
    let found = lookup(*intent, retirement_of(r), allocation_of(a), permit_row_of(issued));
    match x {
        Ok(Some(c)) => found == Ok::<bool, Error>(true) && c == completion_of(*r->0),
        Ok(None) => found == Ok::<bool, Error>(false),
        Err(e) => found == Err::<bool, Error>(e),
    }
}

/// Look up the retained completion of a physical intent. This intentionally
/// survives host epoch advancement and expiry of the completed claim.
pub fn allocation_retirement_completion(
    intent: &Intent,
    r: Option<&RetirementRow>,
    a: Option<&AllocationRow>,
    issued: Option<&PermitRow>,
) -> (x: Result<Option<Completion>, Error>)
    ensures
        completion_found(intent, r, a, issued, x),
{
    match check_physical(intent) {
        Ok(_) => {},
        Err(e) => {
            return Err(e);
        },
    }
    let row: &RetirementRow = match r {
        Some(row) => row,
        None => {
            return Ok(None);
        },
    };
    let frozen: bool = match &row.intent {
        Column::Value(i) => i.same(intent),
        _ => false,
    };
    if !frozen {
        return Err(Error::Evidence);
    }
    match (a, issued) {
        (Some(a), Some(issued)) => match permit(issued) {
            Ok(p) => retained(row, &p, a),
            Err(e) => Err(e),
        },
        _ => Err(Error::Evidence),
    }
}

/// The observation carries the request's exact encoding.
pub open spec fn echoes(o: AllocationMetadataObservation, q: Request) -> bool {
    &&& request_bytes(q) is Ok
    &&& (o.request matches Some(sent) && sent.request_json@ == request_bytes(q)->Ok_0)
}

/// A completion may be attempted at all: for a physical request that was claimed,
/// with an observation of exactly that request.
pub open spec fn completion_attempt(q: Request, o: AllocationMetadataObservation) -> bool {
    &&& !q.intent.simulated
    &&& q.revision > 0
    &&& q.reporting_epoch >= q.intent.permit.original_epoch
    &&& q.expires_unix_ms > 0
    &&& o.observed_unix_ms > 0
    &&& echoes(o, q)
}

/// What a report of a retirement may be found to be.
pub open spec fn completion_checked(
    q: &Request,
    o: &AllocationMetadataObservation,
    r: Result<(), Error>,
) -> bool {
    r == retirement_outcome(if completion_attempt(*q, *o) {
        None
    } else {
        Some(Error::Evidence)
    })
}

/// Ordinary release or fence responses are not interchangeable with a metadata
/// observation, and no simulator completion is accepted.
pub fn check_completion(q: &Request, o: &AllocationMetadataObservation) -> (r: Result<(), Error>)
    ensures
        completion_checked(q, o, r),
{
    let encoded: Vec<u8> = match q.encode() {
        Ok(b) => b,
        Err(_) => {
            return Err(Error::Evidence);
        },
    };
    let echoed: bool = match &o.request {
        Some(sent) => same_bytes(sent.request_json.as_slice(), encoded.as_slice()),
        None => false,
    };
    if q.intent.simulated || q.revision <= 0 || q.reporting_epoch < q.intent.permit.original_epoch || q.expires_unix_ms
        <= 0 || o.observed_unix_ms <= 0 || !echoed {
        return Err(Error::Evidence);
    }
    Ok(())
}

/// What an attempted completion comes to on what is retained, before anything is
/// locked: the completion that it repeats, nothing where none is retained yet, or
/// why it is refused. Neither the host's epoch nor the time enters it.
pub open spec fn repetition(
    q: Request,
    o: AllocationMetadataObservation,
    r: Option<RetirementRow>,
    a: Option<AllocationRow>,
    issued: Option<PermitRow>,
) -> Result<Option<Completion>, Error> {
    if !completion_attempt(q, o) {
        Err(Error::Evidence)
    } else {
        match lookup(q.intent, r, a, issued) {
            Err(e) => Err(e),
            Ok(false) => Ok(None),
            Ok(true) => {
                let saved = completion_of(r->0);
                if same_request(saved.request, q) && saved.observed_unix_ms == o.observed_unix_ms {
                    Ok(Some(saved))
                } else {
                    Err(Error::Evidence)
                }
            },
        }
    }
}

/// What a repeated report of a retirement may come to.
pub open spec fn completion_repeated(
    q: &Request,
    o: &AllocationMetadataObservation,
    r: Option<&RetirementRow>,
    a: Option<&AllocationRow>,
    issued: Option<&PermitRow>,
    x: Result<Option<Completion>, Error>,
) -> bool {
    x == repetition(*q, *o, retirement_of(r), allocation_of(a), permit_row_of(issued))
}

/// Answer a completion that was recorded before. This comes ahead of any lock, so
/// that a repeat survives the end of its claim and of the host's epoch.
pub fn repeated_completion(
    q: &Request,
    o: &AllocationMetadataObservation,
    r: Option<&RetirementRow>,
    a: Option<&AllocationRow>,
    issued: Option<&PermitRow>,
) -> (x: Result<Option<Completion>, Error>)
    ensures
        completion_repeated(q, o, r, a, issued, x),
{
    match check_completion(q, o) {
        Ok(_) => {},
        Err(e) => {
            return Err(e);
        },
    }
    match allocation_retirement_completion(&q.intent, r, a, issued) {
        Err(e) => Err(e),
        Ok(None) => Ok(None),
        Ok(Some(saved)) => match identical(saved, q, o.observed_unix_ms) {
            Ok(c) => Ok(Some(c)),
            Err(e) => Err(e),
        },
    }
}

/// What completing a retirement is decided on. `host_current` is whether the host
/// is at the reporting epoch, requires launch authority and has registered the
/// serial, read before the allocation is locked.
pub struct CompletionRows<'a> {
    pub host_current: bool,
    pub allocation: Option<&'a AllocationRow>,
    pub issued: Option<&'a PermitRow>,
    pub retirement: Option<&'a RetirementRow>,
}

/// What the rows come to.
pub enum CompletionStep {
    /// This was retained before.
    Saved(Completion),
    /// The claim is still ours, until this stamp: prove the scope again.
    Prove { expires_at: i128 },
}

/// The retained claim is the request's own.
pub open spec fn claim_refusal(row: RetirementRow, q: Request) -> Option<Error> {
    match row.intent {
        Column::Value(i) => if row.lease_expires_at is None {
            Some(Error::LostClaim)
        } else if !same_intent(i, q.intent) || row.retirement_id != i.retirement {
            Some(Error::Evidence)
        } else if q.revision != row.claim_revision || q.reporting_epoch != row.reporting_epoch {
            Some(Error::LostClaim)
        } else if millis_of(row.lease_expires_at->0) is None {
            Some(Error::Evidence)
        } else if Some(q.expires_unix_ms) != millis_of(row.lease_expires_at->0) {
            Some(Error::LostClaim)
        } else {
            None
        },
        _ => Some(Error::Evidence),
    }
}

/// What the rows of an attempted completion come to.
pub open spec fn completion_decision(rows: CompletionRows, q: Request, observed: i64, r: Result<CompletionStep, Error>) -> bool {
    let p = q.intent.permit;
    if !rows.host_current || rows.allocation is None {
        r == Err::<CompletionStep, Error>(Error::LostClaim)
    } else if rows.issued is None || permit_of(*rows.issued->0) != Some(p) || !permitted(*rows.allocation->0, p) {
        r == Err::<CompletionStep, Error>(Error::Evidence)
    } else if rows.retirement is None {
        r == Err::<CompletionStep, Error>(Error::LostClaim)
    } else {
        let row = *rows.retirement->0;
        match retention(row, p, *rows.allocation->0) {
            Err(e) => r == Err::<CompletionStep, Error>(e),
            Ok(true) => if same_request(completion_of(row).request, q) && completion_of(row).observed_unix_ms
                == observed {
                r == Ok::<CompletionStep, Error>(CompletionStep::Saved(completion_of(row)))
            } else {
                r == Err::<CompletionStep, Error>(Error::Evidence)
            },
            Ok(false) => match claim_refusal(row, q) {
                Some(e) => r == Err::<CompletionStep, Error>(e),
                None => r == Ok::<CompletionStep, Error>(
                    CompletionStep::Prove { expires_at: row.lease_expires_at->0 },
                ),
            },
        }
    }
}

fn check_claim(row: &RetirementRow, q: &Request) -> (r: Result<i128, Error>)
    ensures
        match r {
            Ok(t) => claim_refusal(*row, *q) is None && row.lease_expires_at == Some(t),
            Err(e) => claim_refusal(*row, *q) == Some(e),
        },
{
    let intent: &Intent = match &row.intent {
        Column::Value(i) => i,
        _ => {
            return Err(Error::Evidence);
        },
    };
    let expires: i128 = match row.lease_expires_at {
        Some(t) => t,
        None => {
            return Err(Error::LostClaim);
        },
    };
    if !intent.same(&q.intent) || row.retirement_id != intent.retirement {
        return Err(Error::Evidence);
    }
    if q.revision != row.claim_revision || q.reporting_epoch != row.reporting_epoch {
        return Err(Error::LostClaim);
    }
    match millis(expires) {
        None => Err(Error::Evidence),
        Some(m) => if m == q.expires_unix_ms {
            Ok(expires)
        } else {
            Err(Error::LostClaim)
        },
    }
}

/// Decide an attempted completion on the locked rows.
pub fn complete_allocation_retirement(rows: &CompletionRows, q: &Request, observed: i64) -> (r: Result<
    CompletionStep,
    Error,
>)
    ensures
        completion_decision(*rows, *q, observed, r),
{
    if !rows.host_current {
        return Err(Error::LostClaim);
    }
    let a: &AllocationRow = match rows.allocation {
        Some(a) => a,
        None => {
            return Err(Error::LostClaim);
        },
    };
    let issued: &PermitRow = match rows.issued {
        Some(p) => p,
        None => {
            return Err(Error::Evidence);
        },
    };
    let p: Permit = match permit(issued) {
        Ok(p) => p,
        Err(e) => {
            return Err(e);
        },
    };
    if p != q.intent.permit || allocation_matches(a, &p).is_err() {
        return Err(Error::Evidence);
    }
    let row: &RetirementRow = match rows.retirement {
        Some(row) => row,
        None => {
            return Err(Error::LostClaim);
        },
    };
    match retained(row, &p, a) {
        Err(e) => Err(e),
        Ok(Some(saved)) => match identical(saved, q, observed) {
            Ok(c) => Ok(CompletionStep::Saved(c)),
            Err(e) => Err(e),
        },
        Ok(None) => match check_claim(row, q) {
            Ok(expires_at) => Ok(CompletionStep::Prove { expires_at }),
            Err(e) => Err(e),
        },
    }
}

/// Why the proven scope does not complete the claim at `now`.
pub open spec fn acceptance_refusal(q: Request, scope: Intent, observed: i64, now: i128) -> Option<Error> {
    if !same_intent(scope, q.intent) {
        Some(Error::Evidence)
    } else if millis_of(now) is None {
        Some(Error::Evidence)
    } else if request_validity(q, q.intent, q.reporting_epoch, q.revision, millis_of(now)->0) is Err {
        Some(Error::LostClaim)
    } else if observed > millis_of(now)->0 + 5000 || observed < millis_of(now)->0 - 10000 || observed
        > q.expires_unix_ms {
        Some(Error::Evidence)
    } else {
        None
    }
}

/// What accepting a report of a retirement may come to.
pub open spec fn completion_accepted(
    q: &Request,
    scope: &Intent,
    observed: i64,
    now: i128,
    r: Result<MetadataEvidence, Error>,
) -> bool {
    match r {
        Ok(e) => acceptance_refusal(*q, *scope, observed, now) is None && e == (MetadataEvidence {
            version: 1,
            request: *q,
            observed_unix_ms: observed,
        }),
        Err(e) => acceptance_refusal(*q, *scope, observed, now) == Some(e),
    }
}

/// Accept the metadata completion: the original release, outcomes and consumer
/// closure were proven again under the admission lock and are still exactly the
/// frozen scope, and the claim and the observation are live at `now`. Preparation
/// alone is not completion evidence.
pub fn accept_completion(q: &Request, scope: &Intent, observed: i64, now: i128) -> (r: Result<MetadataEvidence, Error>)
    ensures
        completion_accepted(q, scope, observed, now, r),
{
    if !scope.same(&q.intent) {
        return Err(Error::Evidence);
    }
    let now_ms: i64 = match millis(now) {
        Some(m) => m,
        None => {
            return Err(Error::Evidence);
        },
    };
    if q.validate(&q.intent, q.reporting_epoch, q.revision, now_ms).is_err() {
        return Err(Error::LostClaim);
    }
    if observed as i128 > now_ms as i128 + 5000 || (observed as i128) < now_ms as i128 - 10000 || observed
        > q.expires_unix_ms {
        return Err(Error::Evidence);
    }
    Ok(MetadataEvidence { version: 1, request: q.clone(), observed_unix_ms: observed })
}

/// A completion that is accepted and then recorded, at a stamp at which the claim
/// is still live and the observation fresh, is found whole afterwards: repeating
/// the request is answered with it, and nothing is retired twice.
pub proof fn recorded_completion_is_retained(
    row: RetirementRow,
    after: RetirementRow,
    q: Request,
    scope: Intent,
    observed: i64,
    now: i128,
    at: i128,
    a: AllocationRow,
)
    requires
        row.allocation_id == q.intent.permit.allocation,
        claim_refusal(row, q) is None,
        acceptance_refusal(q, scope, observed, now) is None,
        !q.intent.simulated,
        observed > 0,
        release_named(a, q.intent),
        at < row.lease_expires_at->0,
        millis_of(at) is Some,
        millis_of(at)->0 - 10000 <= observed <= millis_of(at)->0 + 5000,
        after.allocation_id == row.allocation_id,
        after.retirement_id == row.retirement_id,
        after.intent == row.intent,
        after.reporting_epoch == row.reporting_epoch,
        after.claim_revision == row.claim_revision,
        after.lease_expires_at is None,
        after.metadata_completion == Column::Value(
            MetadataEvidence { version: 1, request: q, observed_unix_ms: observed },
        ),
        after.metadata_completed_at == Some(at),
        after.metadata_claim_expires_at == row.lease_expires_at,
    ensures
        retention(after, q.intent.permit, a) == Ok::<bool, Error>(true),
        completion_of(after).request == q,
        completion_of(after).observed_unix_ms == observed,
{
    let i = row.intent->Value_0;
    assert(same_intent(i, q.intent));
    assert(intent_valid(q.intent));
    assert(intent_valid(i));
}

/// Once a completion is recorded, repeating the whole request is answered with
/// that completion and its stamp, whatever became of its claim and of the host's
/// epoch since. Any other request or observed time is refused as evidence, and
/// what is retained stays.
pub proof fn repeated_completions_are_answered_alike(
    row: RetirementRow,
    after: RetirementRow,
    q: Request,
    o: AllocationMetadataObservation,
    scope: Intent,
    now: i128,
    at: i128,
    a: AllocationRow,
    issued: PermitRow,
)
    requires
        row.allocation_id == q.intent.permit.allocation,
        completion_attempt(q, o),
        claim_refusal(row, q) is None,
        acceptance_refusal(q, scope, o.observed_unix_ms, now) is None,
        release_named(a, q.intent),
        permit_of(issued) == Some(q.intent.permit),
        at < row.lease_expires_at->0,
        millis_of(at) is Some,
        millis_of(at)->0 - 10000 <= o.observed_unix_ms <= millis_of(at)->0 + 5000,
        after.allocation_id == row.allocation_id,
        after.retirement_id == row.retirement_id,
        after.intent == row.intent,
        after.reporting_epoch == row.reporting_epoch,
        after.claim_revision == row.claim_revision,
        after.lease_expires_at is None,
        after.metadata_completion == Column::Value(
            MetadataEvidence { version: 1, request: q, observed_unix_ms: o.observed_unix_ms },
        ),
        after.metadata_completed_at == Some(at),
        after.metadata_claim_expires_at == row.lease_expires_at,
    ensures
        repetition(q, o, Some(after), Some(a), Some(issued)) == Ok::<Option<Completion>, Error>(
            Some(Completion { request: q, observed_unix_ms: o.observed_unix_ms, completed_at: at }),
        ),
        forall|p: Request, x: AllocationMetadataObservation|
            !same_request(q, p) || x.observed_unix_ms != o.observed_unix_ms ==> #[trigger] repetition(
                p,
                x,
                Some(after),
                Some(a),
                Some(issued),
            ) == Err::<Option<Completion>, Error>(Error::Evidence),
{
    recorded_completion_is_retained(row, after, q, scope, o.observed_unix_ms, now, at, a);
    assert forall|p: Request, x: AllocationMetadataObservation|
        !same_request(q, p) || x.observed_unix_ms != o.observed_unix_ms implies #[trigger] repetition(
        p,
        x,
        Some(after),
        Some(a),
        Some(issued),
    ) == Err::<Option<Completion>, Error>(Error::Evidence) by {}
}

/// A request of a simulated host, one that cannot be encoded, one that was not
/// claimed or never expires, or one whose observation carries no stamp or not its
/// exact encoding, completes nothing, whatever is retained.
pub proof fn unproven_requests_complete_nothing(
    q: Request,
    o: AllocationMetadataObservation,
    r: Option<RetirementRow>,
    a: Option<AllocationRow>,
    issued: Option<PermitRow>,
)
    requires
        q.intent.simulated || request_bytes(q) is Err || q.revision <= 0 || q.reporting_epoch
            < q.intent.permit.original_epoch || q.expires_unix_ms <= 0 || o.observed_unix_ms <= 0 || o.request is None
            || o.request->0.request_json@ != request_bytes(q)->Ok_0,
    ensures
        repetition(q, o, r, a, issued) == Err::<Option<Completion>, Error>(Error::Evidence),
{
}

} // verus!
