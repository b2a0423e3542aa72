//! Having a host forget an allocation whose metadata completion is retained.
use crate::allocation_authority::Permit;
use crate::allocation_retirement::{
    forget_bytes, same_intent, same_request, ForgetRequest, Intent, Request,
};
use crate::guest_model::same_bytes;
use crate::ids::HostId;
use crate::store::allocation_retirement::completion::{check_physical, completion_of, physical, retention, Completion};
use crate::store::allocation_retirement::{
    allocation_matches, allocation_of, completion, permit, permit_row_of, permitted, retirement_of, retirement_outcome,
    Error, RetirementRow,
};
use crate::store::clock::{is_timely, millis, millis_of, timely};
use crate::store::output::Column;
use crate::store::rows::{permit_of, AllocationRow, PermitRow};
use crate::supervisor::{AllocationForgetObservation, AllocationForgetState};
use vstd::prelude::*;

verus! {

#[derive(Debug, PartialEq, Eq)]
pub struct ForgettingCompletion {
    pub request: ForgetRequest,
    pub state: AllocationForgetState,
    pub observed_unix_ms: i64,
    pub completed_at: i128,
}

impl Clone for ForgettingCompletion {
    fn clone(&self) -> (r: Self)
        ensures
            r == *self,
    {
        ForgettingCompletion {
            request: self.request.clone(),
            state: self.state.clone(),
            observed_unix_ms: self.observed_unix_ms,
            completed_at: self.completed_at,
        }
    }
}

/// A forgetting as it is stored. `state` is nothing for a number that the
/// enumeration does not name.
#[derive(Debug)]
pub struct ForgetEvidence {
    pub version: u32,
    pub request: ForgetRequest,
    pub state: Option<AllocationForgetState>,
    pub observed_unix_ms: i64,
}

/// A state that says the host will not act on the allocation again.
pub open spec fn final_state(s: Option<AllocationForgetState>) -> Option<AllocationForgetState> {
    if s == Some(AllocationForgetState::Forgotten) || s == Some(AllocationForgetState::Retired) {
        s
    } else {
        None
    }
}

/// What a reported state may be read as.
pub open spec fn state_read(
    value: Option<AllocationForgetState>,
    r: Result<AllocationForgetState, Error>,
) -> bool {
    match r {
        Ok(s) => final_state(value) == Some(s),
        Err(e) => e == Error::Evidence && final_state(value) is None,
    }
}

pub fn state(value: Option<AllocationForgetState>) -> (r: Result<AllocationForgetState, Error>)
    ensures
        state_read(value, r),
{
    match value {
        Some(AllocationForgetState::Forgotten) => Ok(AllocationForgetState::Forgotten),
        Some(AllocationForgetState::Retired) => Ok(AllocationForgetState::Retired),
        _ => Err(Error::Evidence),
    }
}

pub open spec fn same_forget(a: ForgetRequest, b: ForgetRequest) -> bool {
    a.version == b.version && same_request(a.claim, b.claim) && same_request(a.metadata_request, b.metadata_request)
}

fn is_same_forget(a: &ForgetRequest, b: &ForgetRequest) -> (r: bool)
    ensures
        r == same_forget(*a, *b),
{
    a.version == b.version && a.claim.same(&b.claim) && a.metadata_request.same(&b.metadata_request)
}

/// The retained forgetting is whole: of the retained metadata completion, under
/// the claim that is retained with it, observed in time and final.
pub open spec fn forgetting_intact(r: RetirementRow, e: ForgetEvidence) -> bool {
    &&& forget_bytes(e.request) is Ok
    &&& r.forgotten_at is Some
    &&& r.forget_claim_expires_at is Some
    &&& r.forgotten_at->0 < r.forget_claim_expires_at->0
    &&& e.version == 1
    &&& same_request(e.request.metadata_request, completion_of(r).request)
    &&& e.request.claim.revision == r.forget_revision
    &&& Some(e.request.claim.reporting_epoch) == r.forget_epoch
    &&& Some(e.request.claim.expires_unix_ms) == millis_of(r.forget_claim_expires_at->0)
    &&& r.forget_lease_expires_at is None
    &&& millis_of(r.forgotten_at->0) is Some
    &&& timely(e.observed_unix_ms, millis_of(r.forgotten_at->0)->0, e.request.claim.expires_unix_ms)
    &&& final_state(e.state) is Some
}

/// Whether a forgetting is retained; an error where what is retained is not whole.
pub open spec fn forget_retention(r: RetirementRow, p: Permit, a: AllocationRow) -> Result<bool, Error> {
    match r.forget_completion {
        Column::Absent => if r.forgotten_at is Some || r.forget_claim_expires_at is Some {
            Err(Error::Evidence)
        } else {
            Ok(false)
        },
        _ => if retention(r, p, a) is Err {
            Err(retention(r, p, a)->Err_0)
        } else if retention(r, p, a) == Ok::<bool, Error>(false) || r.forget_completion is Unreadable
            || !forgetting_intact(r, r.forget_completion->Value_0) {
            Err(Error::Evidence)
        } else {
            Ok(true)
        },
    }
}

pub open spec fn forgetting_of(r: RetirementRow) -> ForgettingCompletion {
    let e = r.forget_completion->Value_0;
    ForgettingCompletion {
        request: e.request,
        state: final_state(e.state)->0,
        observed_unix_ms: e.observed_unix_ms,
        completed_at: r.forgotten_at->0,
    }
}

/// What may be kept of a forgotten allocation.
pub open spec fn forgetting_retained(
    r: &RetirementRow,
    p: &Permit,
    a: &AllocationRow,
    x: Result<Option<ForgettingCompletion>, Error>,
) -> bool {
    match x {
        Ok(Some(f)) => forget_retention(*r, *p, *a) == Ok::<bool, Error>(true) && f == forgetting_of(*r),
        Ok(None) => forget_retention(*r, *p, *a) == Ok::<bool, Error>(false),
        Err(e) => forget_retention(*r, *p, *a) == Err::<bool, Error>(e),
    }
}

pub fn retained(r: &RetirementRow, p: &Permit, a: &AllocationRow) -> (x: Result<Option<ForgettingCompletion>, Error>)
    ensures
        forgetting_retained(r, p, a, x),
{
    match &r.forget_completion {
        Column::Absent => {
            if r.forgotten_at.is_some() || r.forget_claim_expires_at.is_some() {
                return Err(Error::Evidence);
            }
            return Ok(None);
        },
        _ => {},
    }
    let metadata: Completion = match completion::retained(r, p, a) {
        Ok(Some(c)) => c,
        Ok(None) => {
            return Err(Error::Evidence);
        },
        Err(e) => {
            return Err(e);
        },
    };
    let e: &ForgetEvidence = match &r.forget_completion {
        Column::Value(e) => e,
        _ => {
            return Err(Error::Evidence);
        },
    };
    if e.request.encode().is_err() {
        return Err(Error::Evidence);
    }
    let at: i128 = match r.forgotten_at {
        Some(t) => t,
        None => {
            return Err(Error::Evidence);
        },
    };
    let expires: i128 = match r.forget_claim_expires_at {
        Some(t) => t,
        None => {
            return Err(Error::Evidence);
        },
    };
    let epoch: bool = match r.forget_epoch {
        Some(n) => n == e.request.claim.reporting_epoch,
        None => false,
    };
    let expiry: bool = match millis(expires) {
        Some(m) => m == e.request.claim.expires_unix_ms,
        None => false,
    };
    let timely: bool = match millis(at) {
        Some(m) => is_timely(e.observed_unix_ms, m, e.request.claim.expires_unix_ms),
        None => false,
    };
    if at >= expires || e.version != 1 || !e.request.metadata_request.same(&metadata.request)
        || e.request.claim.revision != r.forget_revision || !epoch || !expiry || r.forget_lease_expires_at.is_some()
        || !timely {
        return Err(Error::Evidence);
    }
    match state(e.state) {
        Ok(s) => Ok(
            Some(
                ForgettingCompletion {
                    request: e.request.clone(),
                    state: s,
                    observed_unix_ms: e.observed_unix_ms,
                    completed_at: at,
                },
            ),
        ),
        Err(x) => Err(x),
    }
}

/// What was retained is what is being repeated.
pub open spec fn repeats(saved: ForgettingCompletion, q: ForgetRequest, o: AllocationForgetObservation) -> bool {
    same_forget(saved.request, q) && o.state == Some(saved.state) && saved.observed_unix_ms == o.observed_unix_ms
}

pub fn identical(saved: ForgettingCompletion, q: &ForgetRequest, o: &AllocationForgetObservation) -> (r: Result<
    ForgettingCompletion,
    Error,
>)
    ensures
        r == (if repeats(saved, *q, *o) {
            Ok::<ForgettingCompletion, Error>(saved)
        } else {
            Err(Error::Evidence)
        }),
{
    let state: bool = match o.state {
        Some(s) => s == saved.state,
        None => false,
    };
    if !is_same_forget(&saved.request, q) || !state || saved.observed_unix_ms != o.observed_unix_ms {
        return Err(Error::Evidence);
    }
    Ok(saved)
}

/// The three rows of an allocation's retirement.
pub struct ForgetRows<'a> {
    pub allocation: Option<&'a AllocationRow>,
    pub issued: Option<&'a PermitRow>,
    pub retirement: Option<&'a RetirementRow>,
}

/// Why the rows do not belong together.
pub open spec fn rows_refusal(
    a: Option<AllocationRow>,
    issued: Option<PermitRow>,
    r: Option<RetirementRow>,
) -> Option<Error> {
    if a is None || issued is None {
        Some(Error::Ineligible)
    } else if permit_of(issued->0) is None || !permitted(a->0, permit_of(issued->0)->0) {
        Some(Error::Evidence)
    } else if r is None {
        Some(Error::Ineligible)
    } else {
        None
    }
}

pub open spec fn rows_fault(rows: ForgetRows) -> Option<Error> {
    rows_refusal(allocation_of(rows.allocation), permit_row_of(rows.issued), retirement_of(rows.retirement))
}

/// Read the three rows together.
pub fn rows<'a>(all: &ForgetRows<'a>) -> (r: Result<(&'a AllocationRow, Permit, &'a RetirementRow), Error>)
    ensures
        match r {
            Ok((a, p, row)) => {
                &&& rows_fault(*all) is None
                &&& all.allocation == Some(a)
                &&& Some(p) == permit_of(*all.issued->0)
                &&& all.retirement == Some(row)
            },
            Err(e) => rows_fault(*all) == Some(e),
        },
{
    let a: &AllocationRow = match all.allocation {
        Some(a) => a,
        None => {
            return Err(Error::Ineligible);
        },
    };
    let issued: &PermitRow = match all.issued {
        Some(p) => p,
        None => {
            return Err(Error::Ineligible);
        },
    };
    let p: Permit = match permit(issued) {
        Ok(p) => p,
        Err(e) => {
            return Err(e);
        },
    };
    match allocation_matches(a, &p) {
        Ok(_) => {},
        Err(e) => {
            return Err(e);
        },
    }
    match all.retirement {
        Some(row) => Ok((a, p, row)),
        None => Err(Error::Ineligible),
    }
}

/// What preparing to forget does next.
pub enum ForgetStep {
    /// It is forgotten, or somebody holds the claim to have it forgotten.
    Held,
    /// Prove the scope of the retained completion again.
    Prove { permit: Permit, metadata: Completion },
}

/// What the rows of an allocation come to. `frontier` is how far the host has
/// registered, where it is at the epoch and requires launch authority.
pub open spec fn forget_preparation(
    frontier: Option<i64>,
    rows: ForgetRows,
    host: HostId,
    epoch: i64,
    now: i128,
) -> Result<ForgetStep, Error> {
    if frontier is None {
        Err(Error::Ineligible)
    } else if rows_fault(rows) is Some {
        Err(rows_fault(rows)->0)
    } else {
        let p = permit_of(*rows.issued->0)->0;
        let a = *rows.allocation->0;
        let r = *rows.retirement->0;
        if p.host != host || p.original_epoch > epoch || p.serial > frontier->0 as u64 {
            Err(Error::Evidence)
        } else if retention(r, p, a) is Err {
            Err(retention(r, p, a)->Err_0)
        } else if retention(r, p, a) == Ok::<bool, Error>(false) {
            Err(Error::Ineligible)
        } else if forget_retention(r, p, a) is Err {
            Err(forget_retention(r, p, a)->Err_0)
        } else if forget_retention(r, p, a) == Ok::<bool, Error>(true) || (r.forget_lease_expires_at matches Some(t)
            && t > now) {
            Ok(ForgetStep::Held)
        } else {
            Ok(ForgetStep::Prove { permit: p, metadata: completion_of(r) })
        }
    }
}

/// What may be done to have an allocation forgotten.
pub open spec fn forgetting_prepared(
    frontier: Option<i64>,
    all: &ForgetRows,
    host: HostId,
    epoch: i64,
    now: i128,
    x: Result<ForgetStep, Error>,
) -> bool {
    x == forget_preparation(frontier, *all, host, epoch, now)
}

/// Fresh delivery ownership only after exact metadata completion is retained.
pub fn prepare_allocation_forgetting(
    frontier: Option<i64>,
    all: &ForgetRows,
    host: HostId,
    epoch: i64,
    now: i128,
) -> (x: Result<ForgetStep, Error>)
    ensures
        forgetting_prepared(frontier, all, host, epoch, now, x),
{
    let frontier: i64 = match frontier {
        Some(n) => n,
        None => {
            return Err(Error::Ineligible);
        },
    };
    let (a, p, r) = match rows(all) {
        Ok(x) => x,
        Err(e) => {
            return Err(e);
        },
    };
    if p.host != host || p.original_epoch > epoch || p.serial > frontier as u64 {
        return Err(Error::Evidence);
    }
    let metadata: Completion = match completion::retained(r, &p, a) {
        Ok(Some(c)) => c,
        Ok(None) => {
            return Err(Error::Ineligible);
        },
        Err(e) => {
            return Err(e);
        },
    };
    match retained(r, &p, a) {
        Ok(Some(_)) => {
            return Ok(ForgetStep::Held);
        },
        Ok(None) => {},
        Err(e) => {
            return Err(e);
        },
    }
    let held: bool = match r.forget_lease_expires_at {
        Some(t) => t > now,
        None => false,
    };
    if held {
        return Ok(ForgetStep::Held);
    }
    Ok(ForgetStep::Prove { permit: p, metadata })
}

/// What a host may be asked to forget.
pub open spec fn forgetting_requested(
    scope: &Intent,
    metadata: Completion,
    epoch: i64,
    revision: i64,
    expires_at: i128,
    r: Result<ForgetRequest, Error>,
) -> bool {
    match r {
        Ok(q) => {
            &&& same_intent(*scope, metadata.request.intent)
            &&& q.version == 1
            &&& q.claim.intent == metadata.request.intent
            &&& q.claim.reporting_epoch == epoch
            &&& q.claim.revision == revision
            &&& Some(q.claim.expires_unix_ms) == millis_of(expires_at)
            &&& q.metadata_request == metadata.request
            &&& forget_bytes(q) is Ok
        },
        Err(e) => {
            &&& e == Error::Evidence
            &&& (!same_intent(*scope, metadata.request.intent) || millis_of(expires_at) is None || forget_bytes(
                ForgetRequest {
                    version: 1,
                    claim: Request {
                        intent: metadata.request.intent,
                        reporting_epoch: epoch,
                        revision,
                        expires_unix_ms: millis_of(expires_at)->0,
                    },
                    metadata_request: metadata.request,
                },
            ) is Err)
        },
    }
}

/// The request of a fresh claim to forget: the proven scope must still be exactly
/// the completed one.
pub fn forget_request(scope: &Intent, metadata: Completion, epoch: i64, revision: i64, expires_at: i128) -> (r: Result<
    ForgetRequest,
    Error,
>)
    ensures
        forgetting_requested(scope, metadata, epoch, revision, expires_at, r),
{
    if !scope.same(&metadata.request.intent) {
        return Err(Error::Evidence);
    }
    let expires_unix_ms: i64 = match millis(expires_at) {
        Some(m) => m,
        None => {
            return Err(Error::Evidence);
        },
    };
    let q: ForgetRequest = ForgetRequest {
        version: 1,
        claim: Request { intent: metadata.request.intent.clone(), reporting_epoch: epoch, revision, expires_unix_ms },
        metadata_request: metadata.request,
    };
    if q.encode().is_err() {
        return Err(Error::Evidence);
    }
    Ok(q)
}

/// What a lookup of a physical intent's forgetting finds.
pub open spec fn forget_lookup(intent: Intent, rows: ForgetRows) -> Result<bool, Error> {
    match rows_fault(rows) {
        _ if !physical(intent) => Err(Error::Evidence),
        Some(Error::Ineligible) => Ok(false),
        Some(e) => Err(e),
        None => {
            let r = *rows.retirement->0;
            if !(r.intent matches Column::Value(i) && same_intent(i, intent)) {
                Err(Error::Evidence)
            } else {
                forget_retention(r, permit_of(*rows.issued->0)->0, *rows.allocation->0)
            }
        },
    }
}

/// What may be found of a forgotten allocation.
pub open spec fn forgetting_found(
    intent: &Intent,
    all: &ForgetRows,
    x: Result<Option<ForgettingCompletion>, Error>,
) -> bool {
    match x {
        Ok(Some(f)) => forget_lookup(*intent, *all) == Ok::<bool, Error>(true) && f == forgetting_of(
            *all.retirement->0,
        ),
        Ok(None) => forget_lookup(*intent, *all) == Ok::<bool, Error>(false),
        Err(e) => forget_lookup(*intent, *all) == Err::<bool, Error>(e),
    }
}

/// Look up the retained forgetting of a physical intent.
pub fn allocation_forgetting_completion(intent: &Intent, all: &ForgetRows) -> (x: Result<
    Option<ForgettingCompletion>,
    Error,
>)
    ensures
        forgetting_found(intent, all, x),
{
    match check_physical(intent) {
        Ok(_) => {},
        Err(e) => {
            return Err(e);
        },
    }
    let (a, p, r) = match rows(all) {
        Ok(x) => x,
        Err(e) => {
            return match e {
                Error::Ineligible => Ok(None),
                _ => Err(e),
            };
        },
    };
    let frozen: bool = match &r.intent {
        Column::Value(i) => i.same(intent),
        _ => false,
    };
    if !frozen {
        return Err(Error::Evidence);
    }
    retained(r, &p, a)
}

/// A forgetting may be attempted at all.
pub open spec fn forget_attempt(q: ForgetRequest, o: AllocationForgetObservation) -> bool {
    &&& forget_bytes(q) is Ok
    &&& final_state(o.state) is Some
    &&& o.observed_unix_ms > 0
    &&& (o.request matches Some(sent) && sent.request_json@ == forget_bytes(q)->Ok_0)
}

/// What a report of forgetting may be found to be.
pub open spec fn forgetting_checked(
    q: &ForgetRequest,
    o: &AllocationForgetObservation,
    r: Result<(), Error>,
) -> bool {
    r == retirement_outcome(if forget_attempt(*q, *o) {
        None
    } else {
        Some(Error::Evidence)
    })
}

pub fn check_forgetting(q: &ForgetRequest, o: &AllocationForgetObservation) -> (r: Result<(), Error>)
    ensures
        forgetting_checked(q, o, r),
{
    let encoded: Vec<u8> = match q.encode() {
        Ok(b) => b,
        Err(_) => {
            return Err(Error::Evidence);
        },
    };
    let echoed: bool = match &o.request {
        Some(sent) => same_bytes(sent.request_json.as_slice(), encoded.as_slice()),
        None => false,
    };
    if state(o.state).is_err() || o.observed_unix_ms <= 0 || !echoed {
        return Err(Error::Evidence);
    }
    Ok(())
}

/// What completing a forgetting comes to.
pub enum ForgetDecision {
    /// This was retained before.
    Saved(ForgettingCompletion),
    /// The claim is still ours, until this stamp: prove the scope again.
    Prove { expires_at: i128 },
}

/// What an attempted forgetting comes to on what is retained, before anything is
/// locked. Neither the host's epoch nor the time enters it.
pub open spec fn forget_repetition(
    q: ForgetRequest,
    o: AllocationForgetObservation,
    rows: ForgetRows,
) -> Result<Option<ForgettingCompletion>, Error> {
    if !forget_attempt(q, o) {
        Err(Error::Evidence)
    } else {
        match forget_lookup(q.claim.intent, rows) {
            Err(e) => Err(e),
            Ok(false) => Ok(None),
            Ok(true) => if repeats(forgetting_of(*rows.retirement->0), q, o) {
                Ok(Some(forgetting_of(*rows.retirement->0)))
            } else {
                Err(Error::Evidence)
            },
        }
    }
}

/// What a repeated report of forgetting may come to.
pub open spec fn forgetting_repeated(
    q: &ForgetRequest,
    o: &AllocationForgetObservation,
    all: &ForgetRows,
    x: Result<Option<ForgettingCompletion>, Error>,
) -> bool {
    x == forget_repetition(*q, *o, *all)
}

/// Answer a forgetting that was recorded before.
pub fn repeated_forgetting(q: &ForgetRequest, o: &AllocationForgetObservation, all: &ForgetRows) -> (x: Result<
    Option<ForgettingCompletion>,
    Error,
>)
    ensures
        forgetting_repeated(q, o, all, x),
{
    match check_forgetting(q, o) {
        Ok(_) => {},
        Err(e) => {
            return Err(e);
        },
    }
    match allocation_forgetting_completion(&q.claim.intent, all) {
        Err(e) => Err(e),
        Ok(None) => Ok(None),
        Ok(Some(saved)) => match identical(saved, q, o) {
            Ok(f) => Ok(Some(f)),
            Err(e) => Err(e),
        },
    }
}

/// Why the claim to forget is not the request's own.
pub open spec fn forget_claim_refusal(r: RetirementRow, q: ForgetRequest) -> Option<Error> {
    if r.forget_lease_expires_at is None || r.forget_revision != q.claim.revision || r.forget_epoch != Some(
        q.claim.reporting_epoch,
    ) {
        Some(Error::LostClaim)
    } else if millis_of(r.forget_lease_expires_at->0) is None {
        Some(Error::Evidence)
    } else if millis_of(r.forget_lease_expires_at->0) != Some(q.claim.expires_unix_ms) {
        Some(Error::LostClaim)
    } else {
        None
    }
}

/// What the rows of an attempted forgetting come to. `host_current` is whether
/// the host is at the reporting epoch, requires launch authority and has
/// registered the serial.
pub open spec fn forget_decision(
    host_current: bool,
    rows: ForgetRows,
    q: ForgetRequest,
    o: AllocationForgetObservation,
) -> Result<ForgetDecision, Error> {
    if !host_current {
        Err(Error::LostClaim)
    } else if rows_fault(rows) is Some {
        Err(rows_fault(rows)->0)
    } else {
        let p = permit_of(*rows.issued->0)->0;
        let a = *rows.allocation->0;
        let r = *rows.retirement->0;
        if p != q.claim.intent.permit {
            Err(Error::Evidence)
        } else if retention(r, p, a) is Err {
            Err(retention(r, p, a)->Err_0)
        } else if retention(r, p, a) == Ok::<bool, Error>(false) || !same_request(
            completion_of(r).request,
            q.metadata_request,
        ) {
            Err(Error::Evidence)
        } else if forget_retention(r, p, a) is Err {
            Err(forget_retention(r, p, a)->Err_0)
        } else if forget_retention(r, p, a) == Ok::<bool, Error>(true) {
            if repeats(forgetting_of(r), q, o) {
                Ok(ForgetDecision::Saved(forgetting_of(r)))
            } else {
                Err(Error::Evidence)
            }
        } else {
            match forget_claim_refusal(r, q) {
                Some(e) => Err(e),
                None => Ok(ForgetDecision::Prove { expires_at: r.forget_lease_expires_at->0 }),
            }
        }
    }
}

/// What a report of forgetting may come to.
pub open spec fn forgetting_completed(
    host_current: bool,
    all: &ForgetRows,
    q: &ForgetRequest,
    o: &AllocationForgetObservation,
    x: Result<ForgetDecision, Error>,
) -> bool {
    x == forget_decision(host_current, *all, *q, *o)
}

/// Decide an attempted forgetting on the locked rows. A retired serial is only
/// denial; it is consumable here because the exact original metadata completion
/// is independently retained and revalidated.
pub fn complete_allocation_forgetting(
    host_current: bool,
    all: &ForgetRows,
    q: &ForgetRequest,
    o: &AllocationForgetObservation,
) -> (x: Result<ForgetDecision, Error>)
    ensures
        forgetting_completed(host_current, all, q, o, x),
{
    if !host_current {
        return Err(Error::LostClaim);
    }
    let (a, p, r) = match rows(all) {
        Ok(x) => x,
        Err(e) => {
            return Err(e);
        },
    };
    if p != q.claim.intent.permit {
        return Err(Error::Evidence);
    }
    let metadata: Completion = match completion::retained(r, &p, a) {
        Ok(Some(c)) => c,
        Ok(None) => {
            return Err(Error::Evidence);
        },
        Err(e) => {
            return Err(e);
        },
    };
    if !metadata.request.same(&q.metadata_request) {
        return Err(Error::Evidence);
    }
    match retained(r, &p, a) {
        Err(e) => {
            return Err(e);
        },
        Ok(Some(saved)) => {
            return match identical(saved, q, o) {
                Ok(f) => Ok(ForgetDecision::Saved(f)),
                Err(e) => Err(e),
            };
        },
        Ok(None) => {},
    }
    let expires: i128 = match r.forget_lease_expires_at {
        Some(t) => t,
        None => {
            return Err(Error::LostClaim);
        },
    };
    let epoch: bool = match r.forget_epoch {
        Some(n) => n == q.claim.reporting_epoch,
        None => false,
    };
    if r.forget_revision != q.claim.revision || !epoch {
        return Err(Error::LostClaim);
    }
    match millis(expires) {
        None => Err(Error::Evidence),
        Some(m) => if m == q.claim.expires_unix_ms {
            Ok(ForgetDecision::Prove { expires_at: expires })
        } else {
            Err(Error::LostClaim)
        },
    }
}

/// What accepting a report of forgetting may come to.
pub open spec fn forgetting_accepted(
    scope: &Intent,
    q: &ForgetRequest,
    o: &AllocationForgetObservation,
    r: Result<ForgetEvidence, Error>,
) -> bool {
    match r {
        Ok(e) => same_intent(*scope, q.claim.intent) && e == (ForgetEvidence {
            version: 1,
            request: *q,
            state: o.state,
            observed_unix_ms: o.observed_unix_ms,
        }),
        Err(e) => e == Error::Evidence && !same_intent(*scope, q.claim.intent),
    }
}

/// Accept the forgetting: the scope was proven again and is still exactly the
/// completed one.
pub fn accept_forgetting(scope: &Intent, q: &ForgetRequest, o: &AllocationForgetObservation) -> (r: Result<
    ForgetEvidence,
    Error,
>)
    ensures
        forgetting_accepted(scope, q, o, r),
{
    if !scope.same(&q.claim.intent) {
        return Err(Error::Evidence);
    }
    Ok(ForgetEvidence { version: 1, request: q.clone(), state: o.state, observed_unix_ms: o.observed_unix_ms })
}

/// Nothing is forgotten without a whole metadata completion: wherever a forgetting
/// is retained or prepared, the completion is.
pub proof fn forgetting_follows_completion(
    r: RetirementRow,
    p: Permit,
    a: AllocationRow,
    frontier: Option<i64>,
    rows: ForgetRows,
    host: HostId,
    epoch: i64,
    now: i128,
)
    ensures
        forget_retention(r, p, a) == Ok::<bool, Error>(true) ==> retention(r, p, a) == Ok::<bool, Error>(true),
        forget_preparation(frontier, rows, host, epoch, now) matches Ok(ForgetStep::Prove { .. }) ==> retention(
            *rows.retirement->0,
            permit_of(*rows.issued->0)->0,
            *rows.allocation->0,
        ) == Ok::<bool, Error>(true),
{
}

/// A forgetting that is accepted and then recorded, at a stamp at which the claim is
/// still live and the observation fresh, is found whole afterwards: repeating the
/// request is answered with it.
pub proof fn recorded_forgetting_is_retained(
    row: RetirementRow,
    after: RetirementRow,
    q: ForgetRequest,
    o: AllocationForgetObservation,
    at: i128,
    p: Permit,
    a: AllocationRow,
)
    requires
        forget_attempt(q, o),
        retention(row, p, a) == Ok::<bool, Error>(true),
        same_request(completion_of(row).request, q.metadata_request),
        forget_claim_refusal(row, q) is None,
        at < row.forget_lease_expires_at->0,
        millis_of(at) is Some,
        timely(o.observed_unix_ms, millis_of(at)->0, q.claim.expires_unix_ms),
        after == (RetirementRow {
            forget_completion: Column::Value(
                ForgetEvidence { version: 1, request: q, state: o.state, observed_unix_ms: o.observed_unix_ms },
            ),
            forgotten_at: Some(at),
            forget_claim_expires_at: row.forget_lease_expires_at,
            forget_lease_expires_at: None,
            ..row
        }),
    ensures
        forget_retention(after, p, a) == Ok::<bool, Error>(true),
        repeats(forgetting_of(after), q, o),
        forgetting_of(after).completed_at == at,
{
    assert(retention(after, p, a) == retention(row, p, a));
    assert(completion_of(after) == completion_of(row));
}

/// Once a forgetting is recorded, repeating the whole request is answered with it
/// and its stamp, whatever became of its claim and of the host's epoch since. Any
/// other request, state or observed time is refused as evidence.
pub proof fn repeated_forgettings_are_answered_alike(
    row: RetirementRow,
    q: ForgetRequest,
    o: AllocationForgetObservation,
    at: i128,
    p: Permit,
    rows: ForgetRows,
)
    requires
        forget_attempt(q, o),
        rows.allocation is Some,
        rows.issued is Some,
        rows.retirement is Some,
        rows_fault(rows) is None,
        permit_of(*rows.issued->0) == Some(p),
        retention(row, p, *rows.allocation->0) == Ok::<bool, Error>(true),
        same_request(completion_of(row).request, q.metadata_request),
        forget_claim_refusal(row, q) is None,
        at < row.forget_lease_expires_at->0,
        millis_of(at) is Some,
        timely(o.observed_unix_ms, millis_of(at)->0, q.claim.expires_unix_ms),
        *rows.retirement->0 == (RetirementRow {
            forget_completion: Column::Value(
                ForgetEvidence { version: 1, request: q, state: o.state, observed_unix_ms: o.observed_unix_ms },
            ),
            forgotten_at: Some(at),
            forget_claim_expires_at: row.forget_lease_expires_at,
            forget_lease_expires_at: None,
            ..row
        }),
    ensures
        forget_repetition(q, o, rows) == Ok::<Option<ForgettingCompletion>, Error>(
            Some(
                ForgettingCompletion {
                    request: q,
                    state: o.state->0,
                    observed_unix_ms: o.observed_unix_ms,
                    completed_at: at,
                },
            ),
        ),
        forall|r: ForgetRequest, x: AllocationForgetObservation|
            !same_forget(q, r) || x.state != o.state || x.observed_unix_ms != o.observed_unix_ms
                ==> #[trigger] forget_repetition(r, x, rows) == Err::<Option<ForgettingCompletion>, Error>(
                Error::Evidence,
            ),
{
    let after = *rows.retirement->0;
    recorded_forgetting_is_retained(row, after, q, o, at, p, *rows.allocation->0);
    assert forall|r: ForgetRequest, x: AllocationForgetObservation|
        !same_forget(q, r) || x.state != o.state || x.observed_unix_ms != o.observed_unix_ms implies #[trigger] forget_repetition(
        r,
        x,
        rows,
    ) == Err::<Option<ForgettingCompletion>, Error>(Error::Evidence) by {}
}

} // verus!
