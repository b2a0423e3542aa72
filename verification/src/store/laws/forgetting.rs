//! Having a retired allocation forgotten: when, by which request, and which report
//! completes it.
use crate::allocation_authority::Permit;
use crate::allocation_retirement::{
    forget_json, forget_shape, intent_valid, valid_forget_request_encodes, ForgetRequest, Intent, Request,
};
use crate::ids::HostId;
use crate::store::allocation_retirement::completion::{completion_retained, Completion};
use crate::store::allocation_retirement::forgetting::{
    forgetting_accepted, forgetting_checked, forgetting_completed, forgetting_found, forgetting_prepared,
    forgetting_requested, forgetting_retained, state_read, ForgetDecision, ForgetEvidence, ForgetRows, ForgetStep,
    ForgettingCompletion,
};
use crate::store::allocation_retirement::{Error, RetirementRow};
use crate::store::clock::millis_of;
use crate::store::laws::retirement::{
    intents_alike, issued_for, permit_told, requests_alike, stamped, stamps_in_time,
};
use crate::store::output::Column;
use crate::store::rows::{permit_of, AllocationRow, PermitRow};
use crate::supervisor::{AllocationForgetObservation, AllocationForgetState};
use vstd::utf8::*;
use vstd::prelude::*;

verus! {

/// A host has forgotten an allocation where it says that it is forgotten or retired,
/// and in no other state.
pub proof fn forgotten_is_forgotten_or_retired(value: Option<AllocationForgetState>, r: Result<AllocationForgetState, Error>)
    requires
        state_read(value, r),
    ensures
        r is Ok <==> value == Some(AllocationForgetState::Forgotten) || value == Some(AllocationForgetState::Retired),
        r matches Ok(s) ==> value == Some(s),
{
}

/// The two requests to forget are the same, under the same claim and for the same
/// completed retirement.
pub open spec fn forgets_alike(a: ForgetRequest, b: ForgetRequest) -> bool {
    a.version == b.version && requests_alike(a.claim, b.claim) && requests_alike(a.metadata_request, b.metadata_request)
}

/// What is kept says that the allocation was forgotten: a report of this very claim,
/// made in time, for the completed retirement that the row keeps, of a final state; and
/// the claim has been given up.
pub open spec fn forgetting_kept(r: RetirementRow, e: ForgetEvidence, completed: Completion) -> bool {
    &&& e.version == 1
    &&& forget_shape(e.request)
    &&& requests_alike(e.request.metadata_request, completed.request)
    &&& e.request.claim.revision == r.forget_revision
    &&& r.forget_epoch == Some(e.request.claim.reporting_epoch)
    &&& r.forget_lease_expires_at is None
    &&& r.forgotten_at matches Some(at) && r.forget_claim_expires_at matches Some(end) && {
        &&& at < end
        &&& stamped(end, e.request.claim.expires_unix_ms)
        &&& e.observed_unix_ms >= 1
        &&& at / 1000000 - 10000 <= e.observed_unix_ms <= at / 1000000 + 5000
        &&& e.observed_unix_ms <= e.request.claim.expires_unix_ms
    }
    &&& e.state == Some(AllocationForgetState::Forgotten) || e.state == Some(AllocationForgetState::Retired)
}

/// That an allocation was forgotten is kept exactly where its completed retirement is,
/// and everything of the report is intact; it is read back as it was kept. Nothing is
/// kept where nothing was written.
pub proof fn forgettings_are_kept_whole(
    r: &RetirementRow,
    p: &Permit,
    a: &AllocationRow,
    completed: Result<Option<Completion>, Error>,
    x: Result<Option<ForgettingCompletion>, Error>,
)
    requires
        forgetting_retained(r, p, a, x),
        completion_retained(r, p, a, completed),
        stamps_in_time(*r),
    ensures
        x == Ok::<Option<ForgettingCompletion>, Error>(None) <==> r.forget_completion is Absent && r.forgotten_at is None
            && r.forget_claim_expires_at is None,
        (x matches Ok(Some(_))) <==> r.forget_completion is Value && (completed matches Ok(Some(c)) && forgetting_kept(
            *r,
            r.forget_completion->Value_0,
            c,
        )),
        x matches Ok(Some(f)) ==> r.forget_completion matches Column::Value(e) && f.request == e.request && Some(f.state)
            == e.state && f.observed_unix_ms == e.observed_unix_ms && Some(f.completed_at) == r.forgotten_at,
{
    if let Column::Value(e) = r.forget_completion {
        if forget_shape(e.request) {
            valid_forget_request_encodes(e.request);
        }
    }
}

/// An allocation whose retirement was completed is to be forgotten, under its own
/// permit and for that completed retirement, where the host has registered its serial;
/// while somebody holds the claim to it, and once it is forgotten, it is held.
pub proof fn retired_allocations_are_forgotten(
    frontier: i64,
    all: &ForgetRows,
    host: HostId,
    epoch: i64,
    now: i128,
    a: AllocationRow,
    issued: PermitRow,
    row: RetirementRow,
    permit: Permit,
    completed: Result<Option<Completion>, Error>,
    forgotten: Result<Option<ForgettingCompletion>, Error>,
    x: Result<ForgetStep, Error>,
)
    requires
        forgetting_prepared(Some(frontier), all, host, epoch, now, x),
        frontier >= 0,
        all.allocation == Some(&a),
        all.issued == Some(&issued),
        all.retirement == Some(&row),
        issued_for(issued, a),
        permit_told(permit, issued),
        completion_retained(&row, &permit, &a, completed),
        forgetting_retained(&row, &permit, &a, forgotten),
    ensures
        ({
            let here = issued.host == host && issued.original_epoch <= epoch && issued.serial <= frontier;
            let held = forgotten matches Ok(Some(_)) || (row.forget_lease_expires_at matches Some(t) && t > now);
            &&& !here ==> x == Err::<ForgetStep, Error>(Error::Evidence)
            &&& here && completed == Ok::<Option<Completion>, Error>(None) ==> x == Err::<ForgetStep, Error>(
                Error::Ineligible,
            )
            &&& here && completed is Err ==> x == Err::<ForgetStep, Error>(completed->Err_0)
            &&& here && completed is Ok && completed->Ok_0 is Some && forgotten is Ok ==> {
                &&& held <==> x == Ok::<ForgetStep, Error>(ForgetStep::Held)
                &&& !held <==> (x matches Ok(ForgetStep::Prove { permit: p, metadata }) && p == permit && metadata
                    == completed->Ok_0->0)
            }
        }),
{
    assert(permit_of(issued) == Some(permit));
}

/// Nothing is forgotten on a host that is not there, of an allocation, permit or
/// retirement that is not, or under another allocation's permit.
pub proof fn missing_rows_forget_nothing(
    frontier: Option<i64>,
    all: &ForgetRows,
    host: HostId,
    epoch: i64,
    now: i128,
    x: Result<ForgetStep, Error>,
)
    requires
        forgetting_prepared(frontier, all, host, epoch, now, x),
    ensures
        frontier is None || all.allocation is None || all.issued is None ==> x == Err::<ForgetStep, Error>(
            Error::Ineligible,
        ),
        frontier is Some && all.allocation is Some && all.issued is Some && !issued_for(
            *all.issued->0,
            *all.allocation->0,
        ) ==> x == Err::<ForgetStep, Error>(Error::Evidence),
        all.retirement is None ==> x is Err,
{
}

/// What a host is asked to forget is the completed retirement, under the new claim, and
/// only where the scope proven again is still the one that was completed.
pub proof fn forget_requests_carry_the_completed_retirement(
    scope: &Intent,
    metadata: Completion,
    epoch: i64,
    revision: i64,
    expires_at: i128,
    r: Result<ForgetRequest, Error>,
)
    requires
        forgetting_requested(scope, metadata, epoch, revision, expires_at, r),
        0 <= expires_at <= 253402300799999999999,
    ensures
        !intents_alike(*scope, metadata.request.intent) ==> r == Err::<ForgetRequest, Error>(Error::Evidence),
        r matches Ok(q) ==> {
            &&& intents_alike(*scope, metadata.request.intent)
            &&& q.version == 1
            &&& q.metadata_request == metadata.request
            &&& q.claim.intent == metadata.request.intent
            &&& q.claim.reporting_epoch == epoch
            &&& q.claim.revision == revision
            &&& stamped(expires_at, q.claim.expires_unix_ms)
        },
        intents_alike(*scope, metadata.request.intent) && intent_valid(metadata.request.intent)
            && !metadata.request.intent.simulated && metadata.request.revision >= 1 && metadata.request.expires_unix_ms
            >= 1 && metadata.request.intent.permit.original_epoch <= metadata.request.reporting_epoch <= epoch && revision
            >= 1 && expires_at >= 1000000 ==> r is Ok,
{
    let made = ForgetRequest {
        version: 1,
        claim: Request {
            intent: metadata.request.intent,
            reporting_epoch: epoch,
            revision,
            expires_unix_ms: millis_of(expires_at)->0,
        },
        metadata_request: metadata.request,
    };
    if forget_shape(made) {
        valid_forget_request_encodes(made);
    }
}

/// A report of forgetting counts only where it echoes, byte for byte, a request of the
/// right shape, is dated, and is of a final state.
pub proof fn forgetting_reports_echo_their_request(
    q: &ForgetRequest,
    o: &AllocationForgetObservation,
    r: Result<(), Error>,
)
    requires
        forgetting_checked(q, o, r),
    ensures
        r is Ok <==> {
            &&& forget_shape(*q)
            &&& o.state == Some(AllocationForgetState::Forgotten) || o.state == Some(AllocationForgetState::Retired)
            &&& o.observed_unix_ms >= 1
            &&& o.request matches Some(sent) && sent.request_json@ == encode_utf8(forget_json(*q))
        },
        r is Err ==> r == Err::<(), Error>(Error::Evidence),
{
    if forget_shape(*q) {
        valid_forget_request_encodes(*q);
    }
}

/// A request to forget has its shape: a physical intent, of a completed retirement under
/// a real claim and epoch, under a later claim of its own.
pub proof fn forget_requests_are_of_completed_retirements(q: ForgetRequest)
    ensures
        forget_shape(q) <==> {
            &&& q.version == 1
            &&& intent_valid(q.claim.intent)
            &&& intent_valid(q.metadata_request.intent)
            &&& intents_alike(q.claim.intent, q.metadata_request.intent)
            &&& !q.claim.intent.simulated
            &&& q.metadata_request.revision >= 1
            &&& q.metadata_request.expires_unix_ms >= 1
            &&& q.metadata_request.reporting_epoch >= q.claim.intent.permit.original_epoch
            &&& q.claim.reporting_epoch >= q.metadata_request.reporting_epoch
            &&& q.claim.revision >= 1
            &&& q.claim.expires_unix_ms >= 1
        },
{
}

/// A report of forgetting goes on to be proven exactly while its host is current, the
/// request is for the completed retirement that is kept, and the claim that it carries
/// is still held; one that was kept before answers the very same report alike.
pub proof fn held_claims_complete_their_forgetting(
    all: &ForgetRows,
    q: &ForgetRequest,
    o: &AllocationForgetObservation,
    a: AllocationRow,
    issued: PermitRow,
    row: RetirementRow,
    completed: Completion,
    forgotten: Result<Option<ForgettingCompletion>, Error>,
    x: Result<ForgetDecision, Error>,
)
    requires
        forgetting_completed(true, all, q, o, x),
        all.allocation == Some(&a),
        all.issued == Some(&issued),
        all.retirement == Some(&row),
        issued_for(issued, a),
        permit_told(q.claim.intent.permit, issued),
        completion_retained(&row, &q.claim.intent.permit, &a, Ok::<Option<Completion>, Error>(Some(completed))),
        forgetting_retained(&row, &q.claim.intent.permit, &a, forgotten),
        stamps_in_time(row),
    ensures
        !requests_alike(completed.request, q.metadata_request) ==> x == Err::<ForgetDecision, Error>(Error::Evidence),
        requests_alike(completed.request, q.metadata_request) && forgotten == Ok::<Option<ForgettingCompletion>, Error>(
            None,
        ) ==> {
            let held = row.forget_lease_expires_at matches Some(end) && row.forget_revision == q.claim.revision
                && row.forget_epoch == Some(q.claim.reporting_epoch) && stamped(end, q.claim.expires_unix_ms);
            &&& held ==> (x matches Ok(ForgetDecision::Prove { expires_at }) && row.forget_lease_expires_at == Some(
                expires_at,
            ))
            &&& !held ==> x == Err::<ForgetDecision, Error>(Error::LostClaim)
        },
        requests_alike(completed.request, q.metadata_request) && forgotten is Ok && forgotten->Ok_0 is Some ==> {
            let saved = forgotten->Ok_0->0;
            let same = forgets_alike(saved.request, *q) && o.state == Some(saved.state) && o.observed_unix_ms
                == saved.observed_unix_ms;
            &&& same ==> x == Ok::<ForgetDecision, Error>(ForgetDecision::Saved(saved))
            &&& !same ==> x == Err::<ForgetDecision, Error>(Error::Evidence)
        },
{
    assert(permit_of(issued) == Some(q.claim.intent.permit));
}

/// A report of a host that is no longer current is lost.
pub proof fn stale_hosts_forget_nothing(
    all: &ForgetRows,
    q: &ForgetRequest,
    o: &AllocationForgetObservation,
    x: Result<ForgetDecision, Error>,
)
    requires
        forgetting_completed(false, all, q, o, x),
    ensures
        x == Err::<ForgetDecision, Error>(Error::LostClaim),
{
}

/// A proven forgetting is accepted exactly where the scope proven again is the one that
/// was asked for; what is kept is the request, the state and when it was seen.
pub proof fn accepted_forgettings_are_of_the_same_scope(
    scope: &Intent,
    q: &ForgetRequest,
    o: &AllocationForgetObservation,
    r: Result<ForgetEvidence, Error>,
)
    requires
        forgetting_accepted(scope, q, o, r),
    ensures
        r is Ok <==> intents_alike(*scope, q.claim.intent),
        r matches Ok(e) ==> e.version == 1 && e.request == *q && e.state == o.state && e.observed_unix_ms
            == o.observed_unix_ms,
        r is Err ==> r == Err::<ForgetEvidence, Error>(Error::Evidence),
{
}

/// That an allocation was forgotten is found by its intent, which is physical and the
/// one that the row holds; where a row is missing nothing was forgotten.
pub proof fn forgettings_are_found_by_their_intent(
    intent: &Intent,
    all: &ForgetRows,
    x: Result<Option<ForgettingCompletion>, Error>,
)
    requires
        forgetting_found(intent, all, x),
    ensures
        !intent_valid(*intent) || intent.simulated ==> x == Err::<Option<ForgettingCompletion>, Error>(Error::Evidence),
        intent_valid(*intent) && !intent.simulated && (all.allocation is None || all.issued is None) ==> x == Ok::<
            Option<ForgettingCompletion>,
            Error,
        >(None),
        x matches Ok(Some(f)) ==> (all.retirement matches Some(row) && (row.intent matches Column::Value(i)
            && intents_alike(i, *intent)) && (row.forget_completion matches Column::Value(e) && f.request == e.request
            && Some(f.state) == e.state && f.observed_unix_ms == e.observed_unix_ms) && Some(f.completed_at)
            == row.forgotten_at),
{
}

} // verus!
