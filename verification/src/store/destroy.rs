//! Tenant-scoped destroy admission and epoch-bound stop/release evidence.
use crate::canonical::Json;
use crate::document::{
    json_flag, json_integer, json_text, number, optional_flag, Doc, Members,
};
use crate::idempotency::{IdempotencyKey, RequestDigest};
use crate::ids::{hyphenated, id_text, uuid_text, Id, OperationId, ProjectId, SandboxId};
use crate::store::dispatch::{
    evidence, evidence_members, simulated_result, simulated_result_document, superseded, superseded_by, DispatchError,
};
use crate::store::retries::{is_same_request, same_request};
use crate::store::rows::{OperationRow, RetryRow, SandboxRow};
use crate::supervisor::{is_owner, owned_by, AllocationState, Observation, Ownership};
use crate::text::same_text;
use crate::token::TokenKeyId;
use vstd::prelude::*;
use vstd::string::*;

verus! {

pub struct DestroySandbox {
    pub project_id: ProjectId,
    pub sandbox_id: SandboxId,
    pub key_id: TokenKeyId,
    pub idempotency_key: IdempotencyKey,
    pub request_digest: RequestDigest,
    pub correlation_id: Option<String>,
}

#[derive(Debug)]
pub enum DestroyAdmission {
    ResponseExpired(OperationId),
    Accepted { operation_id: OperationId, status: String },
    NotFound,
    Unauthorized,
    DigestConflict,
    Busy(OperationId),
}

#[derive(Debug)]
pub enum DestroyAction {
    Stop(Ownership),
    Inspect(Ownership),
}

/// How an earlier use of the key answers the request.
pub open spec fn destroy_retry(row: RetryRow, digest: RequestDigest, r: DestroyAdmission) -> bool {
    if !same_request(row, digest) {
        r is DigestConflict
    } else if row.response_expired {
        r == DestroyAdmission::ResponseExpired(row.id)
    } else {
        r matches DestroyAdmission::Accepted { operation_id, status } && operation_id == row.id && status@ == row.status@
    }
}

/// What a key that may already exist may resolve to.
pub open spec fn destroy_resolved(
    row: Option<&RetryRow>,
    digest: &RequestDigest,
    r: Option<DestroyAdmission>,
) -> bool {
    match row {
        None => r is None,
        Some(row) => r matches Some(a) && destroy_retry(*row, *digest, a),
    }
}

/// Resolve a key that may already exist.
pub fn existing(row: Option<&RetryRow>, digest: &RequestDigest) -> (r: Option<DestroyAdmission>)
    ensures
        destroy_resolved(row, digest, r),
{
    match row {
        None => None,
        Some(row) => Some(
            if !is_same_request(row, digest) {
                DestroyAdmission::DigestConflict
            } else if row.response_expired {
                DestroyAdmission::ResponseExpired(row.id)
            } else {
                DestroyAdmission::Accepted { operation_id: row.id, status: row.status.clone() }
            },
        ),
    }
}

/// What the creation that a destroy takes over becomes.
#[derive(Debug)]
pub struct SupersededCreate {
    pub id: OperationId,
    pub phase: &'static str,
    pub status: &'static str,
    pub error: Json,
}

/// What admitting a destroy writes.
#[derive(Debug)]
pub struct DestroyPlan {
    /// Nothing is left to stop: the operation succeeds as it is admitted.
    pub immediate: bool,
    /// The sandbox is already destroyed and is left as it is.
    pub no_op: bool,
    pub status: &'static str,
    pub phase: &'static str,
    pub payload: Json,
    pub result: Option<Json>,
    pub superseded: Option<SupersededCreate>,
    /// The sandbox's observed state, and the transition that owns it.
    pub observed_state: &'static str,
    pub active_transition: Option<OperationId>,
}

#[derive(Debug)]
pub enum DestroyDecision {
    Settled(DestroyAdmission),
    Admit(DestroyPlan),
}

/// What a destroy request is decided on. `discovered` is the sandbox's active
/// transition before any lock, where the project has the sandbox; `previous` is
/// that operation, locked; `sandbox` the sandbox, locked after it; `authorized`
/// whether the project is active and the credential live.
pub struct DestroyRows<'a> {
    pub discovered: Option<Option<OperationId>>,
    pub previous: Option<&'a OperationRow>,
    pub sandbox: Option<&'a SandboxRow>,
    pub authorized: bool,
}

/// Already destroyed, with nothing allocated.
pub open spec fn already_destroyed(sandbox: SandboxRow) -> bool {
    sandbox.observed_state@ == "destroyed"@ && sandbox.current_allocation_id is None
}

/// A create that never had an allocation or a dispatch.
pub open spec fn never_allocated(sandbox: SandboxRow, previous: Option<OperationRow>) -> bool {
    &&& sandbox.current_allocation_id is None
    &&& sandbox.generation == 0
    &&& (previous matches Some(op) && op.attempt_count == 0)
}

/// Another lifecycle transition owns the sandbox, and destroy does not take over
/// from it: it takes over only from a creation whose outcome is unknown.
pub open spec fn held_by_other(previous: Option<OperationRow>) -> bool {
    previous matches Some(op) && (op.kind@ != "create"@ || op.status@ != "unknown"@)
}

pub open spec fn row_view(row: Option<&OperationRow>) -> Option<OperationRow> {
    match row {
        Some(op) => Some(*op),
        None => None,
    }
}

/// How a destroy request is settled without admitting anything.
pub open spec fn destroy_settled(rows: DestroyRows) -> Option<Result<DestroyAdmission, DispatchError>> {
    match rows.discovered {
        None => Some(Ok(DestroyAdmission::NotFound)),
        Some(active) => match rows.sandbox {
            None => Some(Err(DispatchError::Conflict)),
            Some(sandbox) => {
                let current = sandbox.active_transition_operation_id;
                let previous = row_view(rows.previous);
                if current != active {
                    Some(
                        Ok(
                            DestroyAdmission::Busy(
                                if current is Some {
                                    current->0
                                } else {
                                    active->0
                                },
                            ),
                        ),
                    )
                } else if held_by_other(previous) {
                    Some(
                        if active is Some {
                            Ok(DestroyAdmission::Busy(active->0))
                        } else {
                            Err(DispatchError::Conflict)
                        },
                    )
                } else if !rows.authorized {
                    Some(Ok(DestroyAdmission::Unauthorized))
                } else if sandbox.current_allocation_id is None && !already_destroyed(*sandbox) && !never_allocated(
                    *sandbox,
                    previous,
                ) {
                    Some(Err(DispatchError::Conflict))
                } else {
                    None
                }
            },
        },
    }
}

pub open spec fn optional_text(text: Option<String>) -> Doc {
    match text {
        Some(t) => Doc::Text(t@),
        None => Doc::Null,
    }
}

fn optional_text_document(text: &Option<String>) -> (r: Json)
    ensures
        r@ == optional_text(*text),
{
    match text {
        Some(t) => json_text(t.as_str()),
        None => Json::Null,
    }
}

/// The destroy operation's payload: the caller's correlation, and by its UUID the
/// creation that is taken over.
pub open spec fn destroy_payload(correlation: Option<String>, active: Option<OperationId>) -> Doc {
    Doc::Object(
        Seq::<(Seq<char>, Doc)>::empty().push(("correlation_id"@, optional_text(correlation))).push(
            (
                "supersedes_operation_id"@,
                match active {
                    Some(id) => Doc::Text(hyphenated(id.value)),
                    None => Doc::Null,
                },
            ),
        ),
    )
}

pub open spec fn immediate_result(sandbox_id: SandboxId, no_op: bool, unallocated: bool, simulated: Option<bool>) -> Doc {
    Doc::Object(
        Seq::<(Seq<char>, Doc)>::empty().push(("sandbox_id"@, Doc::Text(id_text("sbx"@, sandbox_id.value)))).push(
            ("noop"@, Doc::Bool(no_op)),
        ).push(("never_allocated"@, Doc::Bool(unallocated))).push(("simulated"@, optional_flag(simulated))),
    )
}

pub open spec fn takeover_error(operation: OperationId) -> Doc {
    Doc::Object(
        Seq::<(Seq<char>, Doc)>::empty().push(("code"@, Doc::Text("cleanup_owned_by_destroy"@))).push(
            ("destroy_operation_id"@, Doc::Text(id_text("op"@, operation.value))),
        ).push(("create_outcome_unknown"@, Doc::Bool(true))),
    )
}

pub open spec fn takeover(s: SupersededCreate, active: OperationId, operation: OperationId, immediate: bool) -> bool {
    &&& s.id == active
    &&& s.phase@ == (if immediate {
        "destroyed_during_create"@
    } else {
        "cleanup_owned_by_destroy"@
    })
    &&& s.status@ == (if immediate {
        "failed"@
    } else {
        "unknown"@
    })
    &&& s.error@ == takeover_error(operation)
}

/// What admitting the destroy of this sandbox writes.
pub open spec fn destroy_planned(p: DestroyPlan, rows: DestroyRows, request: DestroySandbox, operation: OperationId) -> bool {
    let sandbox = *rows.sandbox->0;
    let active = rows.discovered->0;
    let unallocated = never_allocated(sandbox, row_view(rows.previous));
    &&& p.no_op == already_destroyed(sandbox)
    &&& p.immediate == (p.no_op || unallocated)
    &&& p.status@ == (if p.immediate {
        "succeeded"@
    } else {
        "queued"@
    })
    &&& p.phase@ == (if p.immediate {
        "destroyed"@
    } else {
        "admitted"@
    })
    &&& p.payload@ == destroy_payload(request.correlation_id, active)
    &&& if p.immediate {
        p.result matches Some(d) && d@ == immediate_result(
            request.sandbox_id,
            p.no_op,
            unallocated,
            sandbox.observation_simulated,
        )
    } else {
        p.result is None
    }
    &&& match active {
        Some(id) => p.superseded matches Some(s) && takeover(s, id, operation, p.immediate),
        None => p.superseded is None,
    }
    &&& p.observed_state@ == (if p.immediate {
        "destroyed"@
    } else {
        "destroying"@
    })
    &&& p.active_transition == (if p.immediate {
        None
    } else {
        Some(operation)
    })
}

/// What a destroy request may be answered.
pub open spec fn destroy_decided(
    rows: &DestroyRows,
    request: &DestroySandbox,
    operation: OperationId,
    r: Result<DestroyDecision, DispatchError>,
) -> bool {
    match r {
        Ok(DestroyDecision::Settled(a)) => destroy_settled(*rows) == Some(Ok::<DestroyAdmission, DispatchError>(a)),
        Ok(DestroyDecision::Admit(p)) => destroy_settled(*rows) is None && destroy_planned(
            p,
            *rows,
            *request,
            operation,
        ),
        Err(e) => destroy_settled(*rows) == Some(Err::<DestroyAdmission, DispatchError>(e)),
    }
}

/// Decide a destroy request that no earlier use of its key answers. `operation`
/// is the identity that a new operation takes.
pub fn admit_destroy(rows: &DestroyRows, request: &DestroySandbox, operation: OperationId) -> (r: Result<
    DestroyDecision,
    DispatchError,
>)
    ensures
        destroy_decided(rows, request, operation, r),
{
    let active: Option<OperationId> = match rows.discovered {
        Some(active) => active,
        None => {
            return Ok(DestroyDecision::Settled(DestroyAdmission::NotFound));
        },
    };
    let sandbox: &SandboxRow = match rows.sandbox {
        Some(s) => s,
        None => {
            return Err(DispatchError::Conflict);
        },
    };
    match (sandbox.active_transition_operation_id, active) {
        (Some(current), Some(seen)) => {
            if current != seen {
                return Ok(DestroyDecision::Settled(DestroyAdmission::Busy(current)));
            }
        },
        (Some(current), None) => {
            return Ok(DestroyDecision::Settled(DestroyAdmission::Busy(current)));
        },
        (None, Some(seen)) => {
            return Ok(DestroyDecision::Settled(DestroyAdmission::Busy(seen)));
        },
        (None, None) => {},
    }
    if let Some(op) = rows.previous {
        if !same_text(op.kind.as_str(), "create") || !same_text(op.status.as_str(), "unknown") {
            return match active {
                Some(id) => Ok(DestroyDecision::Settled(DestroyAdmission::Busy(id))),
                None => Err(DispatchError::Conflict),
            };
        }
    }
    if !rows.authorized {
        return Ok(DestroyDecision::Settled(DestroyAdmission::Unauthorized));
    }
    let unallocated_sandbox: bool = sandbox.current_allocation_id.is_none();
    let no_op: bool = same_text(sandbox.observed_state.as_str(), "destroyed") && unallocated_sandbox;
    let undispatched: bool = match rows.previous {
        Some(op) => op.attempt_count == 0,
        None => false,
    };
    let unallocated: bool = unallocated_sandbox && sandbox.generation == 0 && undispatched;
    if unallocated_sandbox && !no_op && !unallocated {
        return Err(DispatchError::Conflict);
    }
    let immediate: bool = no_op || unallocated;
    let mut payload: Members = Members::new();
    payload.put("correlation_id", optional_text_document(&request.correlation_id));
    payload.put(
        "supersedes_operation_id",
        match active {
            Some(id) => json_text(uuid_text(id.uuid()).as_str()),
            None => Json::Null,
        },
    );
    let result: Option<Json> = if immediate {
        let mut m: Members = Members::new();
        m.put("sandbox_id", json_text(request.sandbox_id.to_string().as_str()));
        m.put("noop", Json::Bool(no_op));
        m.put("never_allocated", Json::Bool(unallocated));
        m.put("simulated", json_flag(sandbox.observation_simulated));
        Some(m.object())
    } else {
        None
    };
    let superseded_create: Option<SupersededCreate> = match active {
        Some(id) => {
            let mut error: Members = Members::new();
            error.put("code", json_text("cleanup_owned_by_destroy"));
            error.put("destroy_operation_id", json_text(operation.to_string().as_str()));
            error.put("create_outcome_unknown", Json::Bool(true));
            Some(
                SupersededCreate {
                    id,
                    phase: if immediate {
                        "destroyed_during_create"
                    } else {
                        "cleanup_owned_by_destroy"
                    },
                    status: if immediate {
                        "failed"
                    } else {
                        "unknown"
                    },
                    error: error.object(),
                },
            )
        },
        None => None,
    };
    Ok(
        DestroyDecision::Admit(
            DestroyPlan {
                immediate,
                no_op,
                status: if immediate {
                    "succeeded"
                } else {
                    "queued"
                },
                phase: if immediate {
                    "destroyed"
                } else {
                    "admitted"
                },
                payload: payload.object(),
                result,
                superseded: superseded_create,
                observed_state: if immediate {
                    "destroyed"
                } else {
                    "destroying"
                },
                active_transition: if immediate {
                    None
                } else {
                    Some(operation)
                },
            },
        ),
    )
}

/// What a claimed destroy does next.
#[derive(Debug)]
pub struct DestroyStep {
    /// Send a stop, rather than inspect.
    pub stop: bool,
    pub phase: &'static str,
    /// The intent document, retained where it is the first attempt.
    pub intent: Json,
}

/// At most a hundred stops are ever sent for one destroy.
pub const MAX_STOPS: i32 = 100;

pub open spec fn sends_stop(attempts: i32, retry_stop: bool) -> bool {
    attempts == 0 || retry_stop
}

pub open spec fn destroy_blocked(sandbox: SandboxRow, attempts: i32, retry_stop: bool) -> bool {
    sandbox.desired_state@ != "destroyed"@ || (sends_stop(attempts, retry_stop) && attempts >= MAX_STOPS)
}

/// What a claimed destroy may do next.
pub open spec fn destroy_prepared(
    sandbox: &SandboxRow,
    attempts: i32,
    retry_stop: bool,
    owner: &Ownership,
    r: Result<DestroyStep, DispatchError>,
) -> bool {
    match r {
        Ok(s) => {
            &&& !destroy_blocked(*sandbox, attempts, retry_stop)
            &&& s.stop == sends_stop(attempts, retry_stop)
            &&& s.phase@ == (if s.stop {
                "stop_dispatched"@
            } else {
                "reconciling"@
            })
            &&& s.intent@ == Doc::Object(evidence_members(*owner, None, "stop_dispatch_intent"@))
        },
        Err(e) => e == DispatchError::Conflict && destroy_blocked(*sandbox, attempts, retry_stop),
    }
}

/// Decide a claimed destroy: the first attempt stops, and a later one only where
/// the caller asks for another stop.
pub fn prepare_destroy(sandbox: &SandboxRow, attempts: i32, retry_stop: bool, owner: &Ownership) -> (r: Result<
    DestroyStep,
    DispatchError,
>)
    ensures
        destroy_prepared(sandbox, attempts, retry_stop, owner, r),
{
    if !same_text(sandbox.desired_state.as_str(), "destroyed") {
        return Err(DispatchError::Conflict);
    }
    let stop: bool = attempts == 0 || retry_stop;
    if stop && attempts >= MAX_STOPS {
        return Err(DispatchError::Conflict);
    }
    Ok(
        DestroyStep {
            stop,
            phase: if stop {
                "stop_dispatched"
            } else {
                "reconciling"
            },
            intent: evidence(owner, None, "stop_dispatch_intent").object(),
        },
    )
}

/// What is recorded with an unconfirmed release.
pub fn release_unconfirmed_error() -> (r: Json)
    ensures
        r@ == Doc::Object(Seq::<(Seq<char>, Doc)>::empty().push(("code"@, Doc::Text("release_unconfirmed"@)))),
{
    let mut m: Members = Members::new();
    m.put("code", json_text("release_unconfirmed"));
    m.object()
}

/// The host no longer holds the allocation: it released it, or it has fenced it
/// without ever having had it.
pub open spec fn gone(state: Option<AllocationState>) -> bool {
    state == Some(AllocationState::Released) || state == Some(AllocationState::FencedAbsent)
}

pub fn is_gone(state: Option<AllocationState>) -> (r: bool)
    ensures
        r == gone(state),
{
    match state {
        Some(AllocationState::Released) => true,
        Some(AllocationState::FencedAbsent) => true,
        _ => false,
    }
}

/// What is recorded of a released allocation.
#[derive(Debug)]
pub struct DestroyOutcome {
    pub receipt: Json,
    pub result: Json,
    /// The creation that the destroy took over, with its error.
    pub superseded: Option<(OperationId, Json)>,
}

/// Why an observation is no evidence that the allocation is released.
pub open spec fn release_refusal(
    o: Observation,
    allow_simulated: bool,
    owner: Ownership,
    op: OperationRow,
) -> Option<DispatchError> {
    if o.simulated && !allow_simulated {
        Some(DispatchError::SimulationDenied)
    } else if !is_owner(o.ownership, owner) || op.attempt_count < 1 || !gone(o.state.meaning) {
        Some(DispatchError::BadEvidence)
    } else if superseded_by(op.payload@) is Err {
        Some(DispatchError::InvalidData)
    } else {
        None
    }
}

pub open spec fn release_receipt(o: Observation, owner: Ownership) -> Doc {
    Doc::Object(
        evidence_members(owner, Some(o.simulated), "allocation_released"@).push(
            ("fenced_absent"@, Doc::Bool(o.state.meaning == Some(AllocationState::FencedAbsent))),
        ).push(("observed_unix_ms"@, number(o.observed_unix_ms as int))),
    )
}

/// What a creation says that a destroy ended while its outcome was unknown.
pub open spec fn destroyed_during_create(destroy: OperationId) -> Doc {
    Doc::Object(
        Seq::<(Seq<char>, Doc)>::empty().push(("code"@, Doc::Text("destroyed_during_create"@))).push(
            ("create_outcome_unknown"@, Doc::Bool(true)),
        ).push(("destroy_operation_id"@, Doc::Text(id_text("op"@, destroy.value)))),
    )
}

/// The creation that the payload names, with the error it ends with.
pub open spec fn superseded_ends(s: Option<(OperationId, Json)>, payload: Doc, destroy: OperationId) -> bool {
    match s {
        Some((id, error)) => superseded_by(payload) == Ok::<Option<u128>, DispatchError>(Some(id.value)) && error@
            == destroyed_during_create(destroy),
        None => superseded_by(payload) == Ok::<Option<u128>, DispatchError>(None),
    }
}

pub fn end_superseded(payload: &Json, destroy: OperationId) -> (r: Result<Option<(OperationId, Json)>, DispatchError>)
    ensures
        match r {
            Ok(s) => superseded_ends(s, payload@, destroy),
            Err(e) => superseded_by(payload@) == Err::<Option<u128>, DispatchError>(e),
        },
{
    match superseded(payload) {
        Err(e) => Err(e),
        Ok(None) => Ok(None),
        Ok(Some(id)) => {
            let mut error: Members = Members::new();
            error.put("code", json_text("destroyed_during_create"));
            error.put("create_outcome_unknown", Json::Bool(true));
            error.put("destroy_operation_id", json_text(destroy.to_string().as_str()));
            Ok(Some((id, error.object())))
        },
    }
}

/// What a report that an allocation is gone may come to.
pub open spec fn release_recorded(
    o: &Observation,
    allow_simulated: bool,
    owner: &Ownership,
    op: &OperationRow,
    r: Result<DestroyOutcome, DispatchError>,
) -> bool {
    match r {
        Ok(x) => {
            &&& release_refusal(*o, allow_simulated, *owner, *op) is None
            &&& x.receipt@ == release_receipt(*o, *owner)
            &&& x.result@ == simulated_result(owner.sandbox_id@, o.simulated)
            &&& superseded_ends(x.superseded, op.payload@, op.id)
        },
        Err(e) => release_refusal(*o, allow_simulated, *owner, *op) == Some(e),
    }
}

/// Accept a host's report that a stopped allocation is gone.
pub fn record_destroy_observation(o: &Observation, allow_simulated: bool, owner: &Ownership, op: &OperationRow) -> (r: Result<
    DestroyOutcome,
    DispatchError,
>)
    ensures
        release_recorded(o, allow_simulated, owner, op, r),
{
    if o.simulated && !allow_simulated {
        return Err(DispatchError::SimulationDenied);
    }
    if !owned_by(&o.ownership, owner) || op.attempt_count < 1 || !is_gone(o.state.meaning) {
        return Err(DispatchError::BadEvidence);
    }
    let absent: bool = match o.state.meaning {
        Some(AllocationState::FencedAbsent) => true,
        _ => false,
    };
    let ended: Option<(OperationId, Json)> = match end_superseded(&op.payload, op.id) {
        Ok(s) => s,
        Err(_) => {
            return Err(DispatchError::InvalidData);
        },
    };
    let mut receipt: Members = evidence(owner, Some(o.simulated), "allocation_released");
    receipt.put("fenced_absent", Json::Bool(absent));
    receipt.put("observed_unix_ms", json_integer(o.observed_unix_ms));
    Ok(
        DestroyOutcome {
            receipt: receipt.object(),
            result: simulated_result_document(owner.sandbox_id.as_str(), o.simulated),
            superseded: ended,
        },
    )
}

/// A key answers the same way however often it is asked, and never with a new
/// operation: whatever it answers names the earlier operation or a conflict.
pub proof fn retries_never_admit(row: RetryRow, digest: RequestDigest, a: DestroyAdmission)
    requires
        destroy_retry(row, digest, a),
    ensures
        a is DigestConflict || a == DestroyAdmission::ResponseExpired(row.id) || (a matches DestroyAdmission::Accepted {
            operation_id,
            ..
        } && operation_id == row.id),
        a is DigestConflict <==> !same_request(row, digest),
{
}

/// A destroy that still has something to stop owns the sandbox; one that does not
/// leaves it unowned.
pub proof fn admitted_destroy_owns_the_sandbox(
    p: DestroyPlan,
    rows: DestroyRows,
    request: DestroySandbox,
    operation: OperationId,
)
    requires
        destroy_settled(rows) is None,
        destroy_planned(p, rows, request, operation),
    ensures
        p.active_transition == Some(operation) <==> rows.sandbox->0.current_allocation_id is Some,
        p.immediate <==> rows.sandbox->0.current_allocation_id is None,
{
}

} // verus!
