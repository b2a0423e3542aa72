//! Recovering what an earlier epoch of a host held: what it is asked, and which
//! answer ends the operation.
use crate::canonical::Json;
use crate::document::{field, lemma_pushed_member, number, text_of, Doc};
use crate::ids::{id_text, parsed_uuid, HostId};
use crate::store::dispatch::DispatchError;
use crate::store::laws::evidence::{evidence_tells_its_owner, owners_agree_in_every_field, reports_for, tells_owner};
use crate::store::recovery::{
    previous_checked, previous_lost, previous_parted, previous_prepared, previous_released, PreviousAction,
    PreviousOutcome,
};
use crate::store::rows::{OperationRow, SandboxRow};
use crate::supervisor::{
    AllocationState, Observation, Ownership, PreviousAllocationObservation, PreviousAllocationRequest,
};
use vstd::prelude::*;

verus! {

/// The keys of each of a recovery's documents are apart.
proof fn lemma_recovery_words()
    ensures
        "phase"@ != "host_id"@,
        "phase"@ != "project_id"@,
        "phase"@ != "sandbox_id"@,
        "phase"@ != "operation_id"@,
        "phase"@ != "allocation_id"@,
        "phase"@ != "generation"@,
        "phase"@ != "supervisor_epoch"@,
        "phase"@ != "claim_revision"@,
        "phase"@ != "simulated"@,
        "phase"@ != "reporting_epoch"@,
        "phase"@ != "previous_epoch_recovery"@,
        "phase"@ != "fenced_absent"@,
        "phase"@ != "observed_unix_ms"@,
        "host_id"@ != "project_id"@,
        "host_id"@ != "sandbox_id"@,
        "host_id"@ != "operation_id"@,
        "host_id"@ != "allocation_id"@,
        "host_id"@ != "generation"@,
        "host_id"@ != "supervisor_epoch"@,
        "host_id"@ != "claim_revision"@,
        "host_id"@ != "simulated"@,
        "host_id"@ != "reporting_epoch"@,
        "host_id"@ != "previous_epoch_recovery"@,
        "host_id"@ != "fenced_absent"@,
        "host_id"@ != "observed_unix_ms"@,
        "project_id"@ != "sandbox_id"@,
        "project_id"@ != "operation_id"@,
        "project_id"@ != "allocation_id"@,
        "project_id"@ != "generation"@,
        "project_id"@ != "supervisor_epoch"@,
        "project_id"@ != "claim_revision"@,
        "project_id"@ != "simulated"@,
        "project_id"@ != "reporting_epoch"@,
        "project_id"@ != "previous_epoch_recovery"@,
        "project_id"@ != "fenced_absent"@,
        "project_id"@ != "observed_unix_ms"@,
        "sandbox_id"@ != "operation_id"@,
        "sandbox_id"@ != "allocation_id"@,
        "sandbox_id"@ != "generation"@,
        "sandbox_id"@ != "supervisor_epoch"@,
        "sandbox_id"@ != "claim_revision"@,
        "sandbox_id"@ != "simulated"@,
        "sandbox_id"@ != "reporting_epoch"@,
        "sandbox_id"@ != "previous_epoch_recovery"@,
        "sandbox_id"@ != "fenced_absent"@,
        "sandbox_id"@ != "observed_unix_ms"@,
        "operation_id"@ != "allocation_id"@,
        "operation_id"@ != "generation"@,
        "operation_id"@ != "supervisor_epoch"@,
        "operation_id"@ != "claim_revision"@,
        "operation_id"@ != "simulated"@,
        "operation_id"@ != "reporting_epoch"@,
        "operation_id"@ != "previous_epoch_recovery"@,
        "operation_id"@ != "fenced_absent"@,
        "operation_id"@ != "observed_unix_ms"@,
        "allocation_id"@ != "generation"@,
        "allocation_id"@ != "supervisor_epoch"@,
        "allocation_id"@ != "claim_revision"@,
        "allocation_id"@ != "simulated"@,
        "allocation_id"@ != "reporting_epoch"@,
        "allocation_id"@ != "previous_epoch_recovery"@,
        "allocation_id"@ != "fenced_absent"@,
        "allocation_id"@ != "observed_unix_ms"@,
        "generation"@ != "supervisor_epoch"@,
        "generation"@ != "claim_revision"@,
        "generation"@ != "simulated"@,
        "generation"@ != "reporting_epoch"@,
        "generation"@ != "previous_epoch_recovery"@,
        "generation"@ != "fenced_absent"@,
        "generation"@ != "observed_unix_ms"@,
        "supervisor_epoch"@ != "claim_revision"@,
        "supervisor_epoch"@ != "simulated"@,
        "supervisor_epoch"@ != "reporting_epoch"@,
        "supervisor_epoch"@ != "previous_epoch_recovery"@,
        "supervisor_epoch"@ != "fenced_absent"@,
        "supervisor_epoch"@ != "observed_unix_ms"@,
        "claim_revision"@ != "simulated"@,
        "claim_revision"@ != "reporting_epoch"@,
        "claim_revision"@ != "previous_epoch_recovery"@,
        "claim_revision"@ != "fenced_absent"@,
        "claim_revision"@ != "observed_unix_ms"@,
        "simulated"@ != "reporting_epoch"@,
        "simulated"@ != "previous_epoch_recovery"@,
        "simulated"@ != "fenced_absent"@,
        "simulated"@ != "observed_unix_ms"@,
        "reporting_epoch"@ != "previous_epoch_recovery"@,
        "reporting_epoch"@ != "fenced_absent"@,
        "reporting_epoch"@ != "observed_unix_ms"@,
        "previous_epoch_recovery"@ != "fenced_absent"@,
        "previous_epoch_recovery"@ != "observed_unix_ms"@,
        "fenced_absent"@ != "observed_unix_ms"@,
        "code"@ != "create_outcome_unknown"@,
        "code"@ != "simulated"@,
        "create_outcome_unknown"@ != "simulated"@,
        "code"@ != "destroy_operation_id"@,
        "create_outcome_unknown"@ != "destroy_operation_id"@,
{
    reveal_strlit("phase");
    reveal_strlit("host_id");
    reveal_strlit("project_id");
    reveal_strlit("sandbox_id");
    reveal_strlit("operation_id");
    reveal_strlit("allocation_id");
    reveal_strlit("generation");
    reveal_strlit("supervisor_epoch");
    reveal_strlit("claim_revision");
    reveal_strlit("simulated");
    reveal_strlit("reporting_epoch");
    reveal_strlit("previous_epoch_recovery");
    reveal_strlit("fenced_absent");
    reveal_strlit("observed_unix_ms");
    reveal_strlit("code");
    reveal_strlit("create_outcome_unknown");
    reveal_strlit("destroy_operation_id");
    assert("phase"@.len() == 5);
    assert("host_id"@.len() == 7);
    assert("project_id"@.len() == 10);
    assert("sandbox_id"@.len() == 10);
    assert("operation_id"@.len() == 12);
    assert("allocation_id"@.len() == 13);
    assert("generation"@.len() == 10);
    assert("supervisor_epoch"@.len() == 16);
    assert("claim_revision"@.len() == 14);
    assert("simulated"@.len() == 9);
    assert("reporting_epoch"@.len() == 15);
    assert("previous_epoch_recovery"@.len() == 23);
    assert("fenced_absent"@.len() == 13);
    assert("observed_unix_ms"@.len() == 16);
    assert("code"@.len() == 4);
    assert("create_outcome_unknown"@.len() == 22);
    assert("destroy_operation_id"@.len() == 20);
    assert("project_id"@[0] != "sandbox_id"@[0]);
    assert("project_id"@[0] != "generation"@[0]);
    assert("sandbox_id"@[0] != "generation"@[0]);
    assert("allocation_id"@[0] != "fenced_absent"@[0]);
    assert("supervisor_epoch"@[0] != "observed_unix_ms"@[0]);
}

/// The two lifecycle kinds are apart.
proof fn lemma_lifecycle_words()
    ensures
        "create"@ != "destroy"@,
{
    reveal_strlit("create");
    reveal_strlit("destroy");
    assert("create"@.len() == 6);
    assert("destroy"@.len() == 7);
}

/// An earlier epoch is asked about by a real epoch, of a create or a destroy.
pub proof fn only_lifecycles_are_recovered(reporting_epoch: i64, kind: Option<&str>, r: Result<(), DispatchError>)
    requires
        previous_checked(reporting_epoch, kind, r),
    ensures
        reporting_epoch <= 0 <==> r == Err::<(), DispatchError>(DispatchError::InvalidData),
        reporting_epoch > 0 && (kind matches Some(k) && k@ != "create"@ && k@ != "destroy"@) <==> r == Err::<
            (),
            DispatchError,
        >(DispatchError::Conflict),
        reporting_epoch > 0 && (kind matches Some(k) ==> k@ == "create"@ || k@ == "destroy"@) <==> r is Ok,
{
}

/// A create of an earlier epoch that was never dispatched is rejected; one that was
/// attempted once, and a destroy of a sandbox that is to be destroyed, is reconciled
/// with the host, which is asked about exactly this owner from this epoch.
pub proof fn earlier_epochs_are_reconciled(
    op: &OperationRow,
    sandbox: &SandboxRow,
    owner: Ownership,
    host: HostId,
    reporting_epoch: i64,
    r: Result<PreviousAction, DispatchError>,
)
    requires
        previous_prepared(op, sandbox, owner, host, reporting_epoch, r),
    ensures
        owner.host_id@ != id_text("hst"@, host.value) ==> r == Err::<PreviousAction, DispatchError>(
            DispatchError::Conflict,
        ),
        owner.host_id@ == id_text("hst"@, host.value) ==> {
            &&& op.kind@ == "create"@ && op.attempt_count == 0 <==> r == Ok::<PreviousAction, DispatchError>(
                PreviousAction::RejectUndispatched,
            )
            &&& op.kind@ == "create"@ && op.attempt_count == 1 ==> r is Ok
            &&& op.kind@ == "create"@ && op.attempt_count != 0 && op.attempt_count != 1 ==> r is Err
            &&& op.kind@ == "destroy"@ ==> (r is Ok <==> sandbox.desired_state@ == "destroyed"@)
        },
        r matches Ok(PreviousAction::Reconcile(q)) ==> q.ownership == Some(owner) && q.reporting_epoch
            == reporting_epoch,
        r is Err ==> r == Err::<PreviousAction, DispatchError>(DispatchError::Conflict),
{
    lemma_lifecycle_words();
}

/// An earlier epoch that nothing is heard of stays unconfirmed, where the operation
/// waits for it and the request was the owner's.
pub proof fn unheard_epochs_stay_unconfirmed(
    op: &OperationRow,
    request: &PreviousAllocationRequest,
    owner: &Ownership,
    r: Result<Json, DispatchError>,
)
    requires
        previous_lost(op, request, owner, r),
    ensures
        r is Ok <==> reports_for(request.ownership, *owner) && (op.phase matches Some(phase) && phase@
            == "reconciling_previous_epoch"@),
        r is Err ==> r == Err::<Json, DispatchError>(DispatchError::BadEvidence),
        r matches Ok(e) ==> field(e@, "code"@) == Some(Doc::Text("previous_release_unconfirmed"@)),
{
    broadcast use lemma_pushed_member;

    owners_agree_in_every_field(request.ownership, *owner);
}

/// A report of an earlier epoch holds the request it answers and the release it
/// found, and counts only with both; a simulated one only where simulation is
/// allowed.
pub proof fn earlier_reports_answer_a_request(
    o: &PreviousAllocationObservation,
    allow_simulated: bool,
    r: Result<(&PreviousAllocationRequest, &Observation), DispatchError>,
)
    requires
        previous_parted(o, allow_simulated, r),
    ensures
        r is Ok <==> o.request is Some && (o.release matches Some(x) && (x.simulated ==> allow_simulated)),
        r matches Ok((request, release)) ==> o.request == Some(*request) && o.release == Some(*release),
        o.request is None || o.release is None <==> r == Err::<
            (&PreviousAllocationRequest, &Observation),
            DispatchError,
        >(DispatchError::BadEvidence),
{
}

/// A release that an earlier epoch reports ends the operation exactly where the
/// operation waits for it, both the request and the release are the owner's, it is
/// dated, and it says that the allocation was released or never existed. Of a create
/// that was attempted once, a release names that create, and a host that never had it
/// names none and started nothing; a destroy's sandbox is to be destroyed.
pub proof fn earlier_releases_are_the_owners_own_word(
    op: &OperationRow,
    sandbox: &SandboxRow,
    request: &PreviousAllocationRequest,
    release: &Observation,
    owner: &Ownership,
    r: Result<PreviousOutcome, DispatchError>,
)
    requires
        previous_released(op, sandbox, request, release, owner, r),
        op.kind@ == "create"@ || op.kind@ == "destroy"@,
        op.kind@ == "destroy"@ ==> text_of(field(op.payload@, "supersedes_operation_id"@)) is None,
    ensures
        r is Ok <==> {
            let released = release.state.meaning == Some(AllocationState::Released);
            let absent = release.state.meaning == Some(AllocationState::FencedAbsent);
            &&& op.phase matches Some(phase) && phase@ == "reconciling_previous_epoch"@
            &&& reports_for(request.ownership, *owner)
            &&& reports_for(release.ownership, *owner)
            &&& release.observed_unix_ms > 0
            &&& released || absent
            &&& op.kind@ == "create"@ ==> op.attempt_count == 1 && (released ==> release.create_operation_id@
                == owner.operation_id@) && (absent ==> release.create_operation_id@.len() == 0 && release.start_count
                == 0)
            &&& op.kind@ == "destroy"@ ==> sandbox.desired_state@ == "destroyed"@
        },
        r is Err ==> r == Err::<PreviousOutcome, DispatchError>(DispatchError::BadEvidence),
{
    lemma_lifecycle_words();
    owners_agree_in_every_field(request.ownership, *owner);
    owners_agree_in_every_field(release.ownership, *owner);
}

/// What an earlier epoch's release comes to: a destroy succeeds and names its
/// sandbox; a create fails, its outcome unknown. The receipt names the owner, the
/// epoch that reported, when the host saw it, whether it had ever had the allocation,
/// and whether it was simulated.
pub proof fn earlier_releases_end_the_operation(
    op: &OperationRow,
    sandbox: &SandboxRow,
    request: &PreviousAllocationRequest,
    release: &Observation,
    owner: &Ownership,
    x: PreviousOutcome,
)
    requires
        previous_released(op, sandbox, request, release, owner, Ok::<PreviousOutcome, DispatchError>(x)),
    ensures
        tells_owner(x.receipt@, *owner),
        field(x.receipt@, "phase"@) == Some(Doc::Text("allocation_released"@)),
        field(x.receipt@, "simulated"@) == Some(Doc::Bool(release.simulated)),
        field(x.receipt@, "reporting_epoch"@) == Some(number(request.reporting_epoch as int)),
        field(x.receipt@, "previous_epoch_recovery"@) == Some(Doc::Bool(true)),
        field(x.receipt@, "fenced_absent"@) == Some(
            Doc::Bool(release.state.meaning == Some(AllocationState::FencedAbsent)),
        ),
        field(x.receipt@, "observed_unix_ms"@) == Some(number(release.observed_unix_ms as int)),
        op.kind@ == "destroy"@ ==> {
            &&& x.status@ == "succeeded"@
            &&& x.phase@ == "destroyed"@
            &&& x.error is None
            &&& x.result matches Some(d) && field(d@, "sandbox_id"@) == Some(Doc::Text(owner.sandbox_id@)) && field(
                d@,
                "simulated"@,
            ) == Some(Doc::Bool(release.simulated))
        },
        op.kind@ == "create"@ ==> {
            &&& x.status@ == "failed"@
            &&& x.phase@ == "released_before_completion"@
            &&& x.result is None
            &&& x.superseded is None
            &&& x.error matches Some(d) && field(d@, "code"@) == Some(Doc::Text("allocation_released_after_restart"@))
                && field(d@, "create_outcome_unknown"@) == Some(Doc::Bool(true)) && field(d@, "simulated"@) == Some(
                Doc::Bool(release.simulated),
            )
        },
{
    broadcast use lemma_pushed_member;

    lemma_lifecycle_words();
    lemma_recovery_words();
    evidence_tells_its_owner(*owner, Some(release.simulated), "allocation_released"@);
}

/// A creation that a destroy of an earlier epoch took over ends with it, and its
/// error names the destroy.
pub proof fn earlier_releases_end_the_superseded_creation(
    op: &OperationRow,
    sandbox: &SandboxRow,
    request: &PreviousAllocationRequest,
    release: &Observation,
    owner: &Ownership,
    x: PreviousOutcome,
)
    requires
        previous_released(op, sandbox, request, release, owner, Ok::<PreviousOutcome, DispatchError>(x)),
        op.kind@ == "destroy"@,
    ensures
        text_of(field(op.payload@, "supersedes_operation_id"@)) is None <==> x.superseded is None,
        text_of(field(op.payload@, "supersedes_operation_id"@)) matches Some(text) ==> (x.superseded matches Some(
            (id, error),
        ) && {
            &&& parsed_uuid(text) == Some(id.value)
            &&& field(error@, "code"@) == Some(Doc::Text("destroyed_during_create"@))
            &&& field(error@, "create_outcome_unknown"@) == Some(Doc::Bool(true))
            &&& field(error@, "destroy_operation_id"@) == Some(Doc::Text(id_text("op"@, op.id.value)))
        }),
{
    broadcast use lemma_pushed_member;

    lemma_recovery_words();
}

} // verus!
