//! Creating a sandbox on its host: which claim may dispatch, with what, and which
//! report decides.
use crate::canonical::Json;
use crate::document::{field, lemma_pushed_member, number, text_of, Doc};
use crate::ids::{hyphenated, id_text, OperationId};
use crate::json::decimal;
use crate::store::dispatch::{
    context_found, create_observed, create_prepared, create_rejected, create_requested, superseded_read, CreateOutcome,
    CreateRejection, CreateStep, DispatchError, LifecycleRows, RejectedCreate,
};
use crate::store::laws::evidence::{evidence_tells_its_owner, owners_agree_in_every_field, reports_for, tells_owner};
use crate::store::rows::{AllocationRow, OperationRow, SandboxRow};
use crate::supervisor::{AllocationState, CreateRequest, Observation, Ownership, Resources};
use vstd::prelude::*;

verus! {

/// The keys of each of a create's documents are apart.
proof fn lemma_create_words()
    ensures
        "phase"@ != "host_id"@,
        "phase"@ != "project_id"@,
        "phase"@ != "sandbox_id"@,
        "phase"@ != "operation_id"@,
        "phase"@ != "allocation_id"@,
        "phase"@ != "generation"@,
        "phase"@ != "supervisor_epoch"@,
        "phase"@ != "claim_revision"@,
        "phase"@ != "simulated"@,
        "phase"@ != "observed_unix_ms"@,
        "phase"@ != "start_count"@,
        "host_id"@ != "project_id"@,
        "host_id"@ != "sandbox_id"@,
        "host_id"@ != "operation_id"@,
        "host_id"@ != "allocation_id"@,
        "host_id"@ != "generation"@,
        "host_id"@ != "supervisor_epoch"@,
        "host_id"@ != "claim_revision"@,
        "host_id"@ != "simulated"@,
        "host_id"@ != "observed_unix_ms"@,
        "host_id"@ != "start_count"@,
        "project_id"@ != "sandbox_id"@,
        "project_id"@ != "operation_id"@,
        "project_id"@ != "allocation_id"@,
        "project_id"@ != "generation"@,
        "project_id"@ != "supervisor_epoch"@,
        "project_id"@ != "claim_revision"@,
        "project_id"@ != "simulated"@,
        "project_id"@ != "observed_unix_ms"@,
        "project_id"@ != "start_count"@,
        "sandbox_id"@ != "operation_id"@,
        "sandbox_id"@ != "allocation_id"@,
        "sandbox_id"@ != "generation"@,
        "sandbox_id"@ != "supervisor_epoch"@,
        "sandbox_id"@ != "claim_revision"@,
        "sandbox_id"@ != "simulated"@,
        "sandbox_id"@ != "observed_unix_ms"@,
        "sandbox_id"@ != "start_count"@,
        "operation_id"@ != "allocation_id"@,
        "operation_id"@ != "generation"@,
        "operation_id"@ != "supervisor_epoch"@,
        "operation_id"@ != "claim_revision"@,
        "operation_id"@ != "simulated"@,
        "operation_id"@ != "observed_unix_ms"@,
        "operation_id"@ != "start_count"@,
        "allocation_id"@ != "generation"@,
        "allocation_id"@ != "supervisor_epoch"@,
        "allocation_id"@ != "claim_revision"@,
        "allocation_id"@ != "simulated"@,
        "allocation_id"@ != "observed_unix_ms"@,
        "allocation_id"@ != "start_count"@,
        "generation"@ != "supervisor_epoch"@,
        "generation"@ != "claim_revision"@,
        "generation"@ != "simulated"@,
        "generation"@ != "observed_unix_ms"@,
        "generation"@ != "start_count"@,
        "supervisor_epoch"@ != "claim_revision"@,
        "supervisor_epoch"@ != "simulated"@,
        "supervisor_epoch"@ != "observed_unix_ms"@,
        "supervisor_epoch"@ != "start_count"@,
        "claim_revision"@ != "simulated"@,
        "claim_revision"@ != "observed_unix_ms"@,
        "claim_revision"@ != "start_count"@,
        "simulated"@ != "observed_unix_ms"@,
        "simulated"@ != "start_count"@,
        "observed_unix_ms"@ != "start_count"@,
        "sandbox_id"@ != "code"@,
        "simulated"@ != "code"@,
        "phase"@ != "dispatch_intent_absent"@,
        "phase"@ != "code"@,
        "operation_id"@ != "dispatch_intent_absent"@,
        "operation_id"@ != "code"@,
        "claim_revision"@ != "dispatch_intent_absent"@,
        "claim_revision"@ != "code"@,
        "dispatch_intent_absent"@ != "code"@,
{
    reveal_strlit("phase");
    reveal_strlit("host_id");
    reveal_strlit("project_id");
    reveal_strlit("sandbox_id");
    reveal_strlit("operation_id");
    reveal_strlit("allocation_id");
    reveal_strlit("generation");
    reveal_strlit("supervisor_epoch");
    reveal_strlit("claim_revision");
    reveal_strlit("simulated");
    reveal_strlit("observed_unix_ms");
    reveal_strlit("start_count");
    reveal_strlit("code");
    reveal_strlit("dispatch_intent_absent");
    assert("phase"@.len() == 5);
    assert("host_id"@.len() == 7);
    assert("project_id"@.len() == 10);
    assert("sandbox_id"@.len() == 10);
    assert("operation_id"@.len() == 12);
    assert("allocation_id"@.len() == 13);
    assert("generation"@.len() == 10);
    assert("supervisor_epoch"@.len() == 16);
    assert("claim_revision"@.len() == 14);
    assert("simulated"@.len() == 9);
    assert("observed_unix_ms"@.len() == 16);
    assert("start_count"@.len() == 11);
    assert("code"@.len() == 4);
    assert("dispatch_intent_absent"@.len() == 22);
    assert("project_id"@[0] != "sandbox_id"@[0]);
    assert("project_id"@[0] != "generation"@[0]);
    assert("sandbox_id"@[0] != "generation"@[0]);
    assert("supervisor_epoch"@[0] != "observed_unix_ms"@[0]);
}

/// The allocation is the sandbox's current one, at its generation, and the host's
/// epoch is the allocation's: or, where a later epoch reports, that later one.
pub open spec fn allocation_current(rows: &LifecycleRows, allocation: AllocationRow, reporting_epoch: Option<i64>) -> bool {
    &&& rows.sandbox.current_allocation_id == Some(allocation.id)
    &&& rows.sandbox.generation == allocation.generation
    &&& reporting_epoch is None ==> rows.host_epoch == allocation.supervisor_epoch
    &&& reporting_epoch matches Some(epoch) ==> rows.host_epoch == epoch && allocation.supervisor_epoch < epoch
}

/// A claimed create, or a destroy that takes over nothing, is found to act for the
/// sandbox's allocation exactly where it is the sandbox's transition and the
/// allocation is current; the owner that comes of it is made of the rows' own
/// identities, the claim's revision and the end of its lease.
pub proof fn claims_act_for_the_current_allocation(
    rows: &LifecycleRows,
    kind: &str,
    revision: i64,
    reporting_epoch: Option<i64>,
    op: OperationRow,
    allocation: AllocationRow,
    lease: i128,
    r: Result<Ownership, DispatchError>,
)
    requires
        context_found(rows, kind, revision, reporting_epoch, r),
        rows.op == Some(&op),
        rows.allocation == Some(&allocation),
        op.lease_expires_at == Some(lease),
        0 <= lease <= 9223372036854775807 * 1000000,
        kind@ == "destroy"@ ==> text_of(field(op.payload@, "supersedes_operation_id"@)) is None,
    ensures
        r is Ok <==> op.kind@ == kind@ && rows.sandbox.active_transition_operation_id == Some(op.id)
            && allocation_current(rows, allocation, reporting_epoch),
        r is Err ==> r == Err::<Ownership, DispatchError>(DispatchError::Conflict),
        r matches Ok(owner) ==> {
            &&& owner.host_id@ == id_text("hst"@, allocation.host_id.value)
            &&& owner.project_id@ == id_text("prj"@, op.project_id.value)
            &&& owner.sandbox_id@ == id_text("sbx"@, op.sandbox_id.value)
            &&& owner.allocation_id@ == id_text("alc"@, allocation.id.value)
            &&& owner.operation_id@ == id_text("op"@, op.id.value)
            &&& owner.generation == allocation.generation
            &&& owner.supervisor_epoch == allocation.supervisor_epoch
            &&& owner.claim_revision == revision
            &&& owner.claim_expires_unix_ms * 1000000 <= lease < owner.claim_expires_unix_ms * 1000000 + 1000000
        },
{
}

/// An operation that is no longer claimed acts for nothing; a destroy that took over
/// a creation acts only while that creation is found; and no operation acts without
/// an allocation or a lease.
pub proof fn lost_claims_act_for_nothing(
    rows: &LifecycleRows,
    kind: &str,
    revision: i64,
    reporting_epoch: Option<i64>,
    r: Result<Ownership, DispatchError>,
)
    requires
        context_found(rows, kind, revision, reporting_epoch, r),
    ensures
        rows.op is None <==> r == Err::<Ownership, DispatchError>(DispatchError::LostClaim),
        r is Ok ==> {
            &&& rows.op->0.kind@ == kind@
            &&& rows.sandbox.active_transition_operation_id == Some(rows.op->0.id)
            &&& rows.allocation is Some
            &&& allocation_current(rows, *rows.allocation->0, reporting_epoch)
            &&& rows.op->0.lease_expires_at is Some
        },
        r is Ok && kind@ == "destroy"@ && text_of(field(rows.op->0.payload@, "supersedes_operation_id"@)) is Some
            ==> rows.superseded_found,
{
}

/// A creation that may have been dispatched is only ever inspected: one whose
/// outcome is unknown, or that has been attempted.
pub proof fn attempted_creates_are_inspected(
    op: &OperationRow,
    sandbox: &SandboxRow,
    allocation: &AllocationRow,
    owner: &Ownership,
    authorized: bool,
    images: &Vec<String>,
    host_ready: bool,
    r: Result<CreateStep, DispatchError>,
)
    requires
        create_prepared(op, sandbox, allocation, owner, authorized, images, host_ready, r),
    ensures
        op.attempt_count > 0 || op.status@ == "unknown"@ <==> (r matches Ok(step) && step is Inspect),
{
}

/// A reserved create whose sandbox is wanted running, whose project is authorized,
/// whose image is allowed and whose host is ready is dispatched with exactly the
/// allocation's resources, and its intent names the owner.
pub proof fn reserved_creates_are_dispatched(
    op: &OperationRow,
    sandbox: &SandboxRow,
    allocation: &AllocationRow,
    owner: &Ownership,
    authorized: bool,
    images: &Vec<String>,
    host_ready: bool,
    i: int,
    r: Result<CreateStep, DispatchError>,
)
    requires
        create_prepared(op, sandbox, allocation, owner, authorized, images, host_ready, r),
        op.attempt_count <= 0,
        op.status@ != "unknown"@,
        op.phase matches Some(phase) && phase@ == "reserved"@,
        allocation.status@ == "reserved"@,
        sandbox.desired_state@ == "running"@,
        authorized,
        0 <= i < images.len(),
        images[i]@ == sandbox.image_digest@,
        host_ready,
        allocation.vcpu >= 0,
        allocation.memory_mib >= 0,
        allocation.disk_mib >= 0,
    ensures
        r matches Ok(CreateStep::Dispatch { resources, intent }) && {
            &&& resources.vcpu == allocation.vcpu
            &&& resources.memory_mib == allocation.memory_mib
            &&& resources.disk_mib == allocation.disk_mib
            &&& tells_owner(intent@, *owner)
            &&& field(intent@, "phase"@) == Some(Doc::Text("create_dispatch_intent"@))
        },
{
    evidence_tells_its_owner(*owner, None, "create_dispatch_intent"@);
}

/// A create that was never dispatched is held back for the first reason that
/// applies: it is not a wanted reservation, it has no authority, its image is not
/// allowed, its host is not ready, or its size is none.
pub proof fn creates_are_held_back_for_their_reason(
    op: &OperationRow,
    sandbox: &SandboxRow,
    allocation: &AllocationRow,
    owner: &Ownership,
    authorized: bool,
    images: &Vec<String>,
    host_ready: bool,
    r: Result<CreateStep, DispatchError>,
)
    requires
        create_prepared(op, sandbox, allocation, owner, authorized, images, host_ready, r),
        op.attempt_count <= 0,
        op.status@ != "unknown"@,
    ensures
        ({
            let reserved = (op.phase matches Some(phase) && phase@ == "reserved"@) && allocation.status@ == "reserved"@
                && sandbox.desired_state@ == "running"@;
            let allowed = exists|i: int| 0 <= i < images@.len() && (#[trigger] images@[i])@ == sandbox.image_digest@;
            let sized = allocation.vcpu >= 0 && allocation.memory_mib >= 0 && allocation.disk_mib >= 0;
            &&& !reserved <==> r == Err::<CreateStep, DispatchError>(DispatchError::Conflict)
            &&& reserved && !authorized <==> r == Err::<CreateStep, DispatchError>(DispatchError::Unauthorized)
            &&& reserved && authorized && !allowed <==> r == Err::<CreateStep, DispatchError>(
                DispatchError::ImageDenied,
            )
            &&& reserved && authorized && allowed && !host_ready <==> r == Err::<CreateStep, DispatchError>(
                DispatchError::HostUnavailable,
            )
            &&& reserved && authorized && allowed && host_ready && !sized <==> r == Err::<CreateStep, DispatchError>(
                DispatchError::InvalidData,
            )
        }),
{
}

/// What a host is asked to create is the owner's allocation with the sandbox's image
/// and the reserved resources, until the end of its lease in whole milliseconds.
pub proof fn requests_carry_the_reservation(
    owner: Ownership,
    image_digest: &str,
    resources: Resources,
    lease: i128,
    r: Result<CreateRequest, DispatchError>,
)
    requires
        create_requested(owner, image_digest, resources, lease, r),
        0 <= lease <= 9223372036854775807 * 1000000,
    ensures
        r matches Ok(q) && {
            &&& q.ownership == Some(owner)
            &&& q.image_digest@ == image_digest@
            &&& q.resources == Some(resources)
            &&& q.allocation_expires_unix_ms * 1000000 <= lease < q.allocation_expires_unix_ms * 1000000 + 1000000
        },
{
}

/// A report of a create counts exactly where it is the owner's, names the create,
/// is dated and fresh, answers the one attempt that was made, and says that the
/// guest is ready, while the lease lives, or that the allocation was released; a
/// simulated one counts only where simulation is allowed.
pub proof fn create_reports_are_the_owners_own_word(
    o: &Observation,
    allow_simulated: bool,
    owner: &Ownership,
    attempt_count: i32,
    fresh: bool,
    lease_live: bool,
    r: Result<CreateOutcome, DispatchError>,
)
    requires
        create_observed(o, allow_simulated, owner, attempt_count, fresh, lease_live, r),
    ensures
        o.simulated && !allow_simulated <==> r == Err::<CreateOutcome, DispatchError>(DispatchError::SimulationDenied),
        !(o.simulated && !allow_simulated) ==> {
            let ready = o.state.meaning == Some(AllocationState::Ready) && lease_live;
            let released = o.state.meaning == Some(AllocationState::Released);
            let accepted = reports_for(o.ownership, *owner) && o.create_operation_id@ == owner.operation_id@
                && o.observed_unix_ms > 0 && attempt_count == 1 && fresh && (ready || released);
            &&& accepted <==> r is Ok
            &&& !accepted <==> r == Err::<CreateOutcome, DispatchError>(DispatchError::BadEvidence)
        },
{
    owners_agree_in_every_field(o.ownership, *owner);
}

/// A create whose guest is ready succeeds and reports its sandbox; one whose
/// allocation was released fails and says so. Either way the receipt names the
/// owner, when the host saw it, how often it had started, and whether it was
/// simulated.
pub proof fn create_outcomes_say_what_was_reported(
    o: &Observation,
    allow_simulated: bool,
    owner: &Ownership,
    attempt_count: i32,
    fresh: bool,
    lease_live: bool,
    c: CreateOutcome,
)
    requires
        create_observed(
            o,
            allow_simulated,
            owner,
            attempt_count,
            fresh,
            lease_live,
            Ok::<CreateOutcome, DispatchError>(c),
        ),
    ensures
        tells_owner(c.receipt@, *owner),
        field(c.receipt@, "simulated"@) == Some(Doc::Bool(o.simulated)),
        field(c.receipt@, "observed_unix_ms"@) == Some(number(o.observed_unix_ms as int)),
        field(c.receipt@, "start_count"@) == Some(Doc::Number(decimal(o.start_count as nat))),
        o.state.meaning == Some(AllocationState::Ready) ==> {
            &&& c.ready
            &&& c.status@ == "succeeded"@
            &&& c.phase@ == "ready"@
            &&& c.error is None
            &&& field(c.receipt@, "phase"@) == Some(Doc::Text("guest_ready"@))
            &&& c.result matches Some(d) && field(d@, "sandbox_id"@) == Some(Doc::Text(owner.sandbox_id@)) && field(
                d@,
                "simulated"@,
            ) == Some(Doc::Bool(o.simulated))
        },
        o.state.meaning == Some(AllocationState::Released) ==> {
            &&& !c.ready
            &&& c.status@ == "failed"@
            &&& c.phase@ == "released_before_completion"@
            &&& c.result is None
            &&& field(c.receipt@, "phase"@) == Some(Doc::Text("allocation_released"@))
            &&& c.error matches Some(d) && field(d@, "code"@) == Some(Doc::Text("allocation_released"@)) && field(
                d@,
                "simulated"@,
            ) == Some(Doc::Bool(o.simulated))
        },
{
    broadcast use lemma_pushed_member;

    evidence_tells_its_owner(
        *owner,
        Some(o.simulated),
        if o.state.meaning == Some(AllocationState::Ready) {
            "guest_ready"@
        } else {
            "allocation_released"@
        },
    );
    lemma_create_words();
}

/// A create is rejected exactly while nothing of it was dispatched: it runs without
/// an attempt, waits or is reserved, is its sandbox's transition, and its
/// reservation, if it has one, is unused. The receipt and the error name the reason.
pub proof fn only_undispatched_creates_are_rejected(
    op: Option<&OperationRow>,
    sandbox: &SandboxRow,
    reservation_unused: bool,
    revision: i64,
    reason: CreateRejection,
    r: Result<RejectedCreate, DispatchError>,
)
    requires
        create_rejected(op, sandbox, reservation_unused, revision, reason, r),
    ensures
        r is Ok <==> (op matches Some(o) && {
            &&& o.kind@ == "create"@
            &&& o.status@ == "running"@
            &&& o.attempt_count == 0
            &&& o.phase matches Some(phase) ==> phase@ == "queued"@ || phase@ == "reserved"@
            &&& sandbox.active_transition_operation_id == Some(o.id)
            &&& sandbox.current_allocation_id is Some ==> reservation_unused
        }),
        r is Err ==> r == Err::<RejectedCreate, DispatchError>(DispatchError::Conflict),
        r matches Ok(x) ==> {
            let code = match reason {
                CreateRejection::Unauthorized => "authorization_revoked"@,
                CreateRejection::ImageDenied => "image_not_allowed"@,
                CreateRejection::InvalidResources => "invalid_resources"@,
            };
            &&& field(x.receipt@, "phase"@) == Some(Doc::Text("rejected_before_dispatch"@))
            &&& field(x.receipt@, "operation_id"@) == Some(Doc::Text(id_text("op"@, op->0.id.value)))
            &&& field(x.receipt@, "claim_revision"@) == Some(number(revision as int))
            &&& field(x.receipt@, "dispatch_intent_absent"@) == Some(Doc::Bool(true))
            &&& field(x.receipt@, "code"@) == Some(Doc::Text(code))
            &&& field(x.error@, "code"@) == Some(Doc::Text(code))
        },
{
    broadcast use lemma_pushed_member;

    lemma_create_words();
}

/// The operation that a payload says is taken over is the one whose UUID its member
/// spells; a payload that says nothing of it, or no text, takes over none.
pub proof fn payloads_name_the_superseded_operation(
    payload: &Json,
    r: Result<Option<OperationId>, DispatchError>,
    v: u128,
)
    requires
        superseded_read(payload, r),
    ensures
        text_of(field(payload@, "supersedes_operation_id"@)) is None ==> r == Ok::<Option<OperationId>, DispatchError>(
            None,
        ),
        field(payload@, "supersedes_operation_id"@) == Some(Doc::Text(hyphenated(v))) ==> r == Ok::<
            Option<OperationId>,
            DispatchError,
        >(Some(OperationId { value: v })),
{
}

} // verus!
