//! Destroying a sandbox: who may, what is written, and which report ends it.
use crate::document::{field, lemma_pushed_member, number, text_of, Doc};
use crate::idempotency::RequestDigest;
use crate::ids::{hyphenated, id_text, parsed_uuid, OperationId};
use crate::store::destroy::{
    destroy_decided, destroy_prepared, destroy_resolved, release_recorded, DestroyAdmission, DestroyDecision,
    DestroyOutcome, DestroyPlan, DestroyRows, DestroySandbox, DestroyStep,
};
use crate::store::dispatch::DispatchError;
use crate::store::laws::evidence::{evidence_tells_its_owner, owners_agree_in_every_field, reports_for, tells_owner};
use crate::store::rows::{OperationRow, RetryRow, SandboxRow};
use crate::supervisor::{AllocationState, Observation, Ownership};
use vstd::prelude::*;

verus! {

/// The keys of a release receipt are apart.
proof fn lemma_release_words()
    ensures
        "phase"@ != "host_id"@,
        "phase"@ != "project_id"@,
        "phase"@ != "sandbox_id"@,
        "phase"@ != "operation_id"@,
        "phase"@ != "allocation_id"@,
        "phase"@ != "generation"@,
        "phase"@ != "supervisor_epoch"@,
        "phase"@ != "claim_revision"@,
        "phase"@ != "simulated"@,
        "phase"@ != "fenced_absent"@,
        "phase"@ != "observed_unix_ms"@,
        "host_id"@ != "project_id"@,
        "host_id"@ != "sandbox_id"@,
        "host_id"@ != "operation_id"@,
        "host_id"@ != "allocation_id"@,
        "host_id"@ != "generation"@,
        "host_id"@ != "supervisor_epoch"@,
        "host_id"@ != "claim_revision"@,
        "host_id"@ != "simulated"@,
        "host_id"@ != "fenced_absent"@,
        "host_id"@ != "observed_unix_ms"@,
        "project_id"@ != "sandbox_id"@,
        "project_id"@ != "operation_id"@,
        "project_id"@ != "allocation_id"@,
        "project_id"@ != "generation"@,
        "project_id"@ != "supervisor_epoch"@,
        "project_id"@ != "claim_revision"@,
        "project_id"@ != "simulated"@,
        "project_id"@ != "fenced_absent"@,
        "project_id"@ != "observed_unix_ms"@,
        "sandbox_id"@ != "operation_id"@,
        "sandbox_id"@ != "allocation_id"@,
        "sandbox_id"@ != "generation"@,
        "sandbox_id"@ != "supervisor_epoch"@,
        "sandbox_id"@ != "claim_revision"@,
        "sandbox_id"@ != "simulated"@,
        "sandbox_id"@ != "fenced_absent"@,
        "sandbox_id"@ != "observed_unix_ms"@,
        "operation_id"@ != "allocation_id"@,
        "operation_id"@ != "generation"@,
        "operation_id"@ != "supervisor_epoch"@,
        "operation_id"@ != "claim_revision"@,
        "operation_id"@ != "simulated"@,
        "operation_id"@ != "fenced_absent"@,
        "operation_id"@ != "observed_unix_ms"@,
        "allocation_id"@ != "generation"@,
        "allocation_id"@ != "supervisor_epoch"@,
        "allocation_id"@ != "claim_revision"@,
        "allocation_id"@ != "simulated"@,
        "allocation_id"@ != "fenced_absent"@,
        "allocation_id"@ != "observed_unix_ms"@,
        "generation"@ != "supervisor_epoch"@,
        "generation"@ != "claim_revision"@,
        "generation"@ != "simulated"@,
        "generation"@ != "fenced_absent"@,
        "generation"@ != "observed_unix_ms"@,
        "supervisor_epoch"@ != "claim_revision"@,
        "supervisor_epoch"@ != "simulated"@,
        "supervisor_epoch"@ != "fenced_absent"@,
        "supervisor_epoch"@ != "observed_unix_ms"@,
        "claim_revision"@ != "simulated"@,
        "claim_revision"@ != "fenced_absent"@,
        "claim_revision"@ != "observed_unix_ms"@,
        "simulated"@ != "fenced_absent"@,
        "simulated"@ != "observed_unix_ms"@,
        "fenced_absent"@ != "observed_unix_ms"@,
{
    reveal_strlit("phase");
    reveal_strlit("host_id");
    reveal_strlit("project_id");
    reveal_strlit("sandbox_id");
    reveal_strlit("operation_id");
    reveal_strlit("allocation_id");
    reveal_strlit("generation");
    reveal_strlit("supervisor_epoch");
    reveal_strlit("claim_revision");
    reveal_strlit("simulated");
    reveal_strlit("fenced_absent");
    reveal_strlit("observed_unix_ms");
    assert("phase"@.len() == 5);
    assert("host_id"@.len() == 7);
    assert("project_id"@.len() == 10);
    assert("sandbox_id"@.len() == 10);
    assert("operation_id"@.len() == 12);
    assert("allocation_id"@.len() == 13);
    assert("generation"@.len() == 10);
    assert("supervisor_epoch"@.len() == 16);
    assert("claim_revision"@.len() == 14);
    assert("simulated"@.len() == 9);
    assert("fenced_absent"@.len() == 13);
    assert("observed_unix_ms"@.len() == 16);
    assert("project_id"@[0] != "sandbox_id"@[0]);
    assert("project_id"@[0] != "generation"@[0]);
    assert("sandbox_id"@[0] != "generation"@[0]);
    assert("allocation_id"@[0] != "fenced_absent"@[0]);
    assert("supervisor_epoch"@[0] != "observed_unix_ms"@[0]);
}

/// The keys of each of a destroy's documents are apart.
proof fn lemma_destroy_words()
    ensures
        "correlation_id"@ != "supersedes_operation_id"@,
        "sandbox_id"@ != "noop"@,
        "sandbox_id"@ != "never_allocated"@,
        "sandbox_id"@ != "simulated"@,
        "noop"@ != "never_allocated"@,
        "noop"@ != "simulated"@,
        "never_allocated"@ != "simulated"@,
        "code"@ != "destroy_operation_id"@,
        "code"@ != "create_outcome_unknown"@,
        "destroy_operation_id"@ != "create_outcome_unknown"@,
{
    reveal_strlit("correlation_id");
    reveal_strlit("supersedes_operation_id");
    reveal_strlit("sandbox_id");
    reveal_strlit("noop");
    reveal_strlit("never_allocated");
    reveal_strlit("simulated");
    reveal_strlit("code");
    reveal_strlit("destroy_operation_id");
    reveal_strlit("create_outcome_unknown");
    assert("correlation_id"@.len() == 14);
    assert("supersedes_operation_id"@.len() == 23);
    assert("sandbox_id"@.len() == 10);
    assert("noop"@.len() == 4);
    assert("never_allocated"@.len() == 15);
    assert("simulated"@.len() == 9);
    assert("code"@.len() == 4);
    assert("destroy_operation_id"@.len() == 20);
    assert("create_outcome_unknown"@.len() == 22);
}

/// A key that was never used resolves to nothing; one that was used resolves to the
/// operation it was first used for, while that operation's response is kept, and to
/// a conflict where the request or its normalization is another.
pub proof fn destroy_keys_name_the_first_operation(
    row: Option<&RetryRow>,
    digest: &RequestDigest,
    r: Option<DestroyAdmission>,
)
    requires
        destroy_resolved(row, digest, r),
    ensures
        row is None <==> r is None,
        row matches Some(old) ==> {
            let same = old.request_digest@ == digest.bytes@ && old.digest_version == 1;
            &&& !same <==> r == Some(DestroyAdmission::DigestConflict)
            &&& same && old.response_expired ==> r == Some(DestroyAdmission::ResponseExpired(old.id))
            &&& same && !old.response_expired ==> (r matches Some(
                DestroyAdmission::Accepted { operation_id, status },
            ) && operation_id == old.id && status@ == old.status@)
        },
{
}

/// An allocated sandbox that nothing else is changing can be destroyed: the destroy
/// is queued, it owns the sandbox, and the sandbox is being destroyed.
pub proof fn allocated_sandboxes_can_be_destroyed(
    rows: &DestroyRows,
    request: &DestroySandbox,
    operation: OperationId,
    sandbox: SandboxRow,
    r: Result<DestroyDecision, DispatchError>,
)
    requires
        destroy_decided(rows, request, operation, r),
        rows.sandbox == Some(&sandbox),
        rows.discovered == Some(None::<OperationId>),
        sandbox.active_transition_operation_id is None,
        rows.previous is None,
        rows.authorized,
        sandbox.current_allocation_id is Some,
    ensures
        r matches Ok(DestroyDecision::Admit(p)) && {
            &&& p.status@ == "queued"@
            &&& p.phase@ == "admitted"@
            &&& p.observed_state@ == "destroying"@
            &&& p.active_transition == Some(operation)
            &&& !p.immediate
            &&& !p.no_op
            &&& p.result is None
            &&& p.superseded is None
        },
{
}

/// A destroy takes over from a creation whose outcome is unknown where the sandbox
/// is allocated: the creation stays unknown, and names the destroy that owns its
/// cleanup.
pub proof fn unknown_creations_are_taken_over(
    rows: &DestroyRows,
    request: &DestroySandbox,
    operation: OperationId,
    sandbox: SandboxRow,
    create: OperationRow,
    active: OperationId,
    r: Result<DestroyDecision, DispatchError>,
)
    requires
        destroy_decided(rows, request, operation, r),
        rows.sandbox == Some(&sandbox),
        rows.discovered == Some(Some(active)),
        sandbox.active_transition_operation_id == Some(active),
        rows.previous == Some(&create),
        create.kind@ == "create"@,
        create.status@ == "unknown"@,
        rows.authorized,
        sandbox.current_allocation_id is Some,
    ensures
        r matches Ok(DestroyDecision::Admit(p)) && {
            &&& p.status@ == "queued"@
            &&& p.phase@ == "admitted"@
            &&& p.observed_state@ == "destroying"@
            &&& p.active_transition == Some(operation)
            &&& !p.immediate
            &&& p.result is None
            &&& field(p.payload@, "supersedes_operation_id"@) == Some(Doc::Text(hyphenated(active.value)))
            &&& p.superseded matches Some(s) && {
                &&& s.id == active
                &&& s.status@ == "unknown"@
                &&& s.phase@ == "cleanup_owned_by_destroy"@
                &&& field(s.error@, "code"@) == Some(Doc::Text("cleanup_owned_by_destroy"@))
                &&& field(s.error@, "destroy_operation_id"@) == Some(Doc::Text(id_text("op"@, operation.value)))
                &&& field(s.error@, "create_outcome_unknown"@) == Some(Doc::Bool(true))
            }
        },
{
    broadcast use lemma_pushed_member;

    lemma_destroy_words();
}

/// A creation that was never dispatched and never allocated ends as its sandbox is
/// destroyed: the destroy succeeds at once, the creation fails, and the sandbox is
/// destroyed and owned by nothing.
pub proof fn undispatched_creations_end_at_once(
    rows: &DestroyRows,
    request: &DestroySandbox,
    operation: OperationId,
    sandbox: SandboxRow,
    create: OperationRow,
    active: OperationId,
    r: Result<DestroyDecision, DispatchError>,
)
    requires
        destroy_decided(rows, request, operation, r),
        rows.sandbox == Some(&sandbox),
        rows.discovered == Some(Some(active)),
        sandbox.active_transition_operation_id == Some(active),
        rows.previous == Some(&create),
        create.kind@ == "create"@,
        create.status@ == "unknown"@,
        create.attempt_count == 0,
        rows.authorized,
        sandbox.current_allocation_id is None,
        sandbox.generation == 0,
    ensures
        r matches Ok(DestroyDecision::Admit(p)) && {
            &&& p.immediate
            &&& p.status@ == "succeeded"@
            &&& p.phase@ == "destroyed"@
            &&& p.observed_state@ == "destroyed"@
            &&& p.active_transition is None
            &&& p.result matches Some(d) && {
                &&& field(d@, "sandbox_id"@) == Some(Doc::Text(id_text("sbx"@, request.sandbox_id.value)))
                &&& field(d@, "noop"@) == Some(Doc::Bool(sandbox.observed_state@ == "destroyed"@))
                &&& field(d@, "never_allocated"@) == Some(Doc::Bool(true))
            }
            &&& p.superseded matches Some(s) && {
                &&& s.id == active
                &&& s.status@ == "failed"@
                &&& s.phase@ == "destroyed_during_create"@
                &&& field(s.error@, "destroy_operation_id"@) == Some(Doc::Text(id_text("op"@, operation.value)))
            }
        },
{
    broadcast use lemma_pushed_member;

    lemma_destroy_words();
}

/// Destroying a destroyed sandbox again succeeds at once and changes nothing of it;
/// the result says so, and says whether what was destroyed was simulated.
pub proof fn destroyed_sandboxes_are_left_alone(
    rows: &DestroyRows,
    request: &DestroySandbox,
    operation: OperationId,
    sandbox: SandboxRow,
    r: Result<DestroyDecision, DispatchError>,
)
    requires
        destroy_decided(rows, request, operation, r),
        rows.sandbox == Some(&sandbox),
        rows.discovered == Some(None::<OperationId>),
        sandbox.active_transition_operation_id is None,
        rows.previous is None,
        rows.authorized,
        sandbox.current_allocation_id is None,
        sandbox.observed_state@ == "destroyed"@,
    ensures
        r matches Ok(DestroyDecision::Admit(p)) && {
            &&& p.immediate
            &&& p.no_op
            &&& p.status@ == "succeeded"@
            &&& p.phase@ == "destroyed"@
            &&& p.observed_state@ == "destroyed"@
            &&& p.active_transition is None
            &&& p.superseded is None
            &&& p.result matches Some(d) && {
                &&& field(d@, "sandbox_id"@) == Some(Doc::Text(id_text("sbx"@, request.sandbox_id.value)))
                &&& field(d@, "noop"@) == Some(Doc::Bool(true))
                &&& field(d@, "never_allocated"@) == Some(Doc::Bool(false))
                &&& field(d@, "simulated"@) == Some(
                    match sandbox.observation_simulated {
                        Some(b) => Doc::Bool(b),
                        None => Doc::Null,
                    },
                )
            }
        },
{
    broadcast use lemma_pushed_member;

    lemma_destroy_words();
}

/// Every admitted destroy keeps the caller's correlation, and names the operation it
/// takes over where it takes one over.
pub proof fn admitted_destroys_keep_their_correlation(
    rows: &DestroyRows,
    request: &DestroySandbox,
    operation: OperationId,
    p: DestroyPlan,
)
    requires
        destroy_decided(rows, request, operation, Ok::<DestroyDecision, DispatchError>(DestroyDecision::Admit(p))),
    ensures
        field(p.payload@, "correlation_id"@) == Some(
            match request.correlation_id {
                Some(t) => Doc::Text(t@),
                None => Doc::Null,
            },
        ),
        field(p.payload@, "supersedes_operation_id"@) == Some(
            match rows.discovered {
                Some(Some(id)) => Doc::Text(hyphenated(id.value)),
                _ => Doc::Null,
            },
        ),
{
    broadcast use lemma_pushed_member;

    lemma_destroy_words();
}

/// A destroy that is not admitted is told why, and the first reason counts: there is
/// no such sandbox, the sandbox has changed hands or is held by another operation,
/// there is no authority, or it has no allocation to stop while it is neither
/// destroyed nor freshly created.
pub proof fn destroy_requests_are_refused_for_their_reason(
    rows: &DestroyRows,
    request: &DestroySandbox,
    operation: OperationId,
    r: Result<DestroyDecision, DispatchError>,
)
    requires
        destroy_decided(rows, request, operation, r),
    ensures
        rows.discovered is None <==> r == Ok::<DestroyDecision, DispatchError>(
            DestroyDecision::Settled(DestroyAdmission::NotFound),
        ),
        rows.discovered is Some && rows.sandbox is None ==> r == Err::<DestroyDecision, DispatchError>(
            DispatchError::Conflict,
        ),
        rows.discovered matches Some(active) ==> rows.sandbox matches Some(sandbox) ==> {
            let current = sandbox.active_transition_operation_id;
            let free = rows.previous matches Some(op) ==> op.kind@ == "create"@ && op.status@ == "unknown"@;
            &&& current is Some && current != active ==> r == Ok::<DestroyDecision, DispatchError>(
                DestroyDecision::Settled(DestroyAdmission::Busy(current->0)),
            )
            &&& current is None && active is Some ==> r == Ok::<DestroyDecision, DispatchError>(
                DestroyDecision::Settled(DestroyAdmission::Busy(active->0)),
            )
            &&& current == active && !free && active is Some ==> r == Ok::<DestroyDecision, DispatchError>(
                DestroyDecision::Settled(DestroyAdmission::Busy(active->0)),
            )
            &&& current == active && free && !rows.authorized ==> r == Ok::<DestroyDecision, DispatchError>(
                DestroyDecision::Settled(DestroyAdmission::Unauthorized),
            )
            &&& current == active && free && rows.authorized ==> (r is Err <==> {
                &&& sandbox.current_allocation_id is None
                &&& sandbox.observed_state@ != "destroyed"@
                &&& sandbox.generation != 0 || rows.previous is None || rows.previous->0.attempt_count != 0
            })
            &&& current == active && free && rows.authorized && r is Ok ==> r->Ok_0 is Admit
        },
        r is Err ==> r == Err::<DestroyDecision, DispatchError>(DispatchError::Conflict),
{
}

/// A claimed destroy stops the allocation on its first attempt and where another
/// stop is asked for, inspects it otherwise, and sends no more than a hundred stops;
/// its intent names the owner whose allocation is stopped.
pub proof fn first_attempts_stop_the_allocation(
    sandbox: &SandboxRow,
    attempts: i32,
    retry_stop: bool,
    owner: &Ownership,
    r: Result<DestroyStep, DispatchError>,
)
    requires
        destroy_prepared(sandbox, attempts, retry_stop, owner, r),
    ensures
        sandbox.desired_state@ != "destroyed"@ ==> r == Err::<DestroyStep, DispatchError>(DispatchError::Conflict),
        retry_stop && attempts >= 100 ==> r == Err::<DestroyStep, DispatchError>(DispatchError::Conflict),
        sandbox.desired_state@ == "destroyed"@ && attempts == 0 ==> (r matches Ok(s) && s.stop && s.phase@
            == "stop_dispatched"@),
        sandbox.desired_state@ == "destroyed"@ && retry_stop && attempts < 100 ==> (r matches Ok(s) && s.stop
            && s.phase@ == "stop_dispatched"@),
        sandbox.desired_state@ == "destroyed"@ && !retry_stop && attempts != 0 ==> (r matches Ok(s) && !s.stop
            && s.phase@ == "reconciling"@),
        r matches Ok(s) ==> tells_owner(s.intent@, *owner) && field(s.intent@, "phase"@) == Some(
            Doc::Text("stop_dispatch_intent"@),
        ),
{
    evidence_tells_its_owner(*owner, None, "stop_dispatch_intent"@);
}

/// A report ends a destroy exactly where it is the owner's, comes after a stop was
/// sent, and says that the allocation was released or never existed; a simulated one
/// counts only where simulation is allowed.
pub proof fn releases_are_the_owners_own_word(
    o: &Observation,
    allow_simulated: bool,
    owner: &Ownership,
    op: &OperationRow,
    r: Result<DestroyOutcome, DispatchError>,
)
    requires
        release_recorded(o, allow_simulated, owner, op, r),
    ensures
        o.simulated && !allow_simulated <==> r == Err::<DestroyOutcome, DispatchError>(DispatchError::SimulationDenied),
        !(o.simulated && !allow_simulated) ==> {
            let gone = o.state.meaning == Some(AllocationState::Released) || o.state.meaning == Some(
                AllocationState::FencedAbsent,
            );
            let accepted = reports_for(o.ownership, *owner) && op.attempt_count >= 1 && gone;
            &&& !accepted <==> r == Err::<DestroyOutcome, DispatchError>(DispatchError::BadEvidence)
            &&& accepted && text_of(field(op.payload@, "supersedes_operation_id"@)) is None ==> r is Ok
        },
{
    owners_agree_in_every_field(o.ownership, *owner);
}

/// What is recorded of a release names the owner, when the host saw it, whether the
/// host had ever had the allocation, and whether it was simulated; the result names
/// the sandbox.
pub proof fn release_receipts_say_what_was_reported(
    o: &Observation,
    allow_simulated: bool,
    owner: &Ownership,
    op: &OperationRow,
    x: DestroyOutcome,
)
    requires
        release_recorded(o, allow_simulated, owner, op, Ok::<DestroyOutcome, DispatchError>(x)),
    ensures
        tells_owner(x.receipt@, *owner),
        field(x.receipt@, "phase"@) == Some(Doc::Text("allocation_released"@)),
        field(x.receipt@, "simulated"@) == Some(Doc::Bool(o.simulated)),
        field(x.receipt@, "fenced_absent"@) == Some(
            Doc::Bool(o.state.meaning == Some(AllocationState::FencedAbsent)),
        ),
        field(x.receipt@, "observed_unix_ms"@) == Some(number(o.observed_unix_ms as int)),
        field(x.result@, "sandbox_id"@) == Some(Doc::Text(owner.sandbox_id@)),
        field(x.result@, "simulated"@) == Some(Doc::Bool(o.simulated)),
{
    broadcast use lemma_pushed_member;

    evidence_tells_its_owner(*owner, Some(o.simulated), "allocation_released"@);
    lemma_release_words();
    lemma_destroy_words();
}

/// A creation that the destroy took over ends with it, named by the payload, and its
/// error names the destroy; where the payload names none, none ends.
pub proof fn releases_end_the_superseded_creation(
    o: &Observation,
    allow_simulated: bool,
    owner: &Ownership,
    op: &OperationRow,
    x: DestroyOutcome,
)
    requires
        release_recorded(o, allow_simulated, owner, op, Ok::<DestroyOutcome, DispatchError>(x)),
    ensures
        text_of(field(op.payload@, "supersedes_operation_id"@)) is None <==> x.superseded is None,
        text_of(field(op.payload@, "supersedes_operation_id"@)) matches Some(text) ==> (x.superseded matches Some(
            (id, error),
        ) && {
            &&& parsed_uuid(text) == Some(id.value)
            &&& field(error@, "code"@) == Some(Doc::Text("destroyed_during_create"@))
            &&& field(error@, "create_outcome_unknown"@) == Some(Doc::Bool(true))
            &&& field(error@, "destroy_operation_id"@) == Some(Doc::Text(id_text("op"@, op.id.value)))
        }),
{
    broadcast use lemma_pushed_member;

    lemma_destroy_words();
}

} // verus!
