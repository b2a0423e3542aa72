//! Create dispatch and completion. Intent is committed before a request escapes.
//! A lost response preserves the allocation and becomes unknown, never a retry.
use crate::canonical::Json;
use crate::document::{
    field, json_flag, json_integer, json_text, lemma_value_of_push, number, optional_flag, text_of, value_of, Doc,
    Members,
};
use crate::ids::{hyphenated, id_text, parsed_uuid, uuid_try_parse, Id, OperationId};
use crate::store::clock::{millis, millis_of};
use crate::store::rows::{is_text, text_is, AllocationRow, OperationRow, SandboxRow};
use crate::supervisor::{
    is_owner, owned_by, same_ownership, AllocationState, CreateRequest, Observation, Ownership,
    Resources,
};
use crate::text::same_text;
use vstd::prelude::*;
use vstd::string::*;

verus! {

#[derive(Debug)]
pub enum CreateAction {
    Start(CreateRequest),
    Inspect(Ownership),
}

#[derive(Debug, Clone, Copy, PartialEq, Eq, Structural)]
pub enum DispatchError {
    /// Create claim expired or changed.
    LostClaim,
    /// Create ownership or allocation requires reconciliation.
    Conflict,
    /// Project authority or deadline no longer permits dispatch.
    Unauthorized,
    /// Image is not in the controller allowlist.
    ImageDenied,
    /// Configured host is absent, stale, or at another epoch.
    HostUnavailable,
    /// Supervisor observation does not match current ownership.
    BadEvidence,
    /// Simulated evidence requires explicit development opt-in.
    SimulationDenied,
    /// Persisted create data is invalid.
    InvalidData,
}

/// What comes of a check: its refusal, or nothing.
pub open spec fn outcome(refusal: Option<DispatchError>) -> Result<(), DispatchError> {
    match refusal {
        Some(e) => Err(e),
        None => Ok(()),
    }
}

/// What a claim may be found to be.
pub open spec fn claim_fenced(valid: bool, r: Result<(), DispatchError>) -> bool {
    r == outcome(if valid {
        None
    } else {
        Some(DispatchError::LostClaim)
    })
}

/// The final fence after any lock wait: `valid` is whether the claim is still
/// live at its revision.
pub fn fence(valid: bool) -> (r: Result<(), DispatchError>)
    ensures
        claim_fenced(valid, r),
{
    if !valid {
        return Err(DispatchError::LostClaim);
    }
    Ok(())
}

/// What a write of a claim's owner may be found to be.
pub open spec fn owned_written(changed: u64, r: Result<(), DispatchError>) -> bool {
    r == outcome(if changed == 1 {
        None
    } else {
        Some(DispatchError::LostClaim)
    })
}

/// A write under a claim must have changed exactly the claimed row.
pub fn owned_write(changed: u64) -> (r: Result<(), DispatchError>)
    ensures
        owned_written(changed, r),
{
    if changed != 1 {
        return Err(DispatchError::LostClaim);
    }
    Ok(())
}

/// What the write of an observation may be found to be.
pub open spec fn observed_written(changed: u64, claim_live: bool, r: Result<(), DispatchError>) -> bool {
    r == outcome(if changed == 1 {
        None
    } else if !claim_live {
        Some(DispatchError::LostClaim)
    } else {
        Some(DispatchError::BadEvidence)
    })
}

/// A final write that also tests an observation's age: where it changed nothing
/// though the claim is live, the observation was the reason.
pub fn observed_write(changed: u64, claim_live: bool) -> (r: Result<(), DispatchError>)
    ensures
        observed_written(changed, claim_live, r),
{
    if changed == 1 {
        return Ok(());
    }
    match fence(claim_live) {
        Ok(_) => Err(DispatchError::BadEvidence),
        Err(e) => Err(e),
    }
}

/// What observing the configured host may come to.
pub open spec fn host_observed(changed: u64, r: Result<(), DispatchError>) -> bool {
    r == outcome(if changed == 1 {
        None
    } else {
        Some(DispatchError::HostUnavailable)
    })
}

/// Refresh only an operator-provisioned host at its existing epoch.
pub fn observe_configured_host(changed: u64) -> (r: Result<(), DispatchError>)
    ensures
        host_observed(changed, r),
{
    if changed != 1 {
        return Err(DispatchError::HostUnavailable);
    }
    Ok(())
}

/// The evidence document of an owner: every identity, the claim that acted, and
/// whether the report was simulated.
pub open spec fn evidence_members(owner: Ownership, simulated: Option<bool>, phase: Seq<char>) -> Seq<(Seq<char>, Doc)> {
    Seq::<(Seq<char>, Doc)>::empty().push(("phase"@, Doc::Text(phase))).push(
        ("host_id"@, Doc::Text(owner.host_id@)),
    ).push(("project_id"@, Doc::Text(owner.project_id@))).push(("sandbox_id"@, Doc::Text(owner.sandbox_id@))).push(
        ("operation_id"@, Doc::Text(owner.operation_id@)),
    ).push(("allocation_id"@, Doc::Text(owner.allocation_id@))).push(
        ("generation"@, number(owner.generation as int)),
    ).push(("supervisor_epoch"@, number(owner.supervisor_epoch as int))).push(
        ("claim_revision"@, number(owner.claim_revision as int)),
    ).push(("simulated"@, optional_flag(simulated)))
}

/// The member of an evidence document with the key.
pub open spec fn evidence_field(owner: Ownership, simulated: Option<bool>, phase: Seq<char>, k: Seq<char>) -> Option<Doc> {
    if k == "simulated"@ {
        Some(optional_flag(simulated))
    } else if k == "claim_revision"@ {
        Some(number(owner.claim_revision as int))
    } else if k == "supervisor_epoch"@ {
        Some(number(owner.supervisor_epoch as int))
    } else if k == "generation"@ {
        Some(number(owner.generation as int))
    } else if k == "allocation_id"@ {
        Some(Doc::Text(owner.allocation_id@))
    } else if k == "operation_id"@ {
        Some(Doc::Text(owner.operation_id@))
    } else if k == "sandbox_id"@ {
        Some(Doc::Text(owner.sandbox_id@))
    } else if k == "project_id"@ {
        Some(Doc::Text(owner.project_id@))
    } else if k == "host_id"@ {
        Some(Doc::Text(owner.host_id@))
    } else if k == "phase"@ {
        Some(Doc::Text(phase))
    } else {
        None
    }
}

pub proof fn lemma_evidence_field(owner: Ownership, simulated: Option<bool>, phase: Seq<char>, k: Seq<char>)
    ensures
        value_of(evidence_members(owner, simulated, phase), k) == evidence_field(owner, simulated, phase, k),
{
    let m0 = Seq::<(Seq<char>, Doc)>::empty();
    let m1 = m0.push(("phase"@, Doc::Text(phase)));
    let m2 = m1.push(("host_id"@, Doc::Text(owner.host_id@)));
    let m3 = m2.push(("project_id"@, Doc::Text(owner.project_id@)));
    let m4 = m3.push(("sandbox_id"@, Doc::Text(owner.sandbox_id@)));
    let m5 = m4.push(("operation_id"@, Doc::Text(owner.operation_id@)));
    let m6 = m5.push(("allocation_id"@, Doc::Text(owner.allocation_id@)));
    let m7 = m6.push(("generation"@, number(owner.generation as int)));
    let m8 = m7.push(("supervisor_epoch"@, number(owner.supervisor_epoch as int)));
    let m9 = m8.push(("claim_revision"@, number(owner.claim_revision as int)));
    lemma_value_of_push(m0, "phase"@, Doc::Text(phase), k);
    lemma_value_of_push(m1, "host_id"@, Doc::Text(owner.host_id@), k);
    lemma_value_of_push(m2, "project_id"@, Doc::Text(owner.project_id@), k);
    lemma_value_of_push(m3, "sandbox_id"@, Doc::Text(owner.sandbox_id@), k);
    lemma_value_of_push(m4, "operation_id"@, Doc::Text(owner.operation_id@), k);
    lemma_value_of_push(m5, "allocation_id"@, Doc::Text(owner.allocation_id@), k);
    lemma_value_of_push(m6, "generation"@, number(owner.generation as int), k);
    lemma_value_of_push(m7, "supervisor_epoch"@, number(owner.supervisor_epoch as int), k);
    lemma_value_of_push(m8, "claim_revision"@, number(owner.claim_revision as int), k);
    lemma_value_of_push(m9, "simulated"@, optional_flag(simulated), k);
}

pub fn evidence(owner: &Ownership, simulated: Option<bool>, phase: &str) -> (r: Members)
    ensures
        r@ == evidence_members(*owner, simulated, phase@),
{
    let mut m: Members = Members::new();
    m.put("phase", json_text(phase));
    m.put("host_id", json_text(owner.host_id.as_str()));
    m.put("project_id", json_text(owner.project_id.as_str()));
    m.put("sandbox_id", json_text(owner.sandbox_id.as_str()));
    m.put("operation_id", json_text(owner.operation_id.as_str()));
    m.put("allocation_id", json_text(owner.allocation_id.as_str()));
    m.put("generation", json_integer(owner.generation));
    m.put("supervisor_epoch", json_integer(owner.supervisor_epoch));
    m.put("claim_revision", json_integer(owner.claim_revision));
    m.put("simulated", json_flag(simulated));
    m
}

/// The creation that a destroy took over, by its UUID: nothing where the payload
/// names none, an error where what it names is no UUID.
pub open spec fn superseded_by(payload: Doc) -> Result<Option<u128>, DispatchError> {
    match text_of(field(payload, "supersedes_operation_id"@)) {
        None => Ok(None),
        Some(text) => match parsed_uuid(text) {
            Some(id) => Ok(Some(id)),
            None => Err(DispatchError::InvalidData),
        },
    }
}

/// What a payload may say of the operation that a destroy takes over.
pub open spec fn superseded_read(payload: &Json, r: Result<Option<OperationId>, DispatchError>) -> bool {
    &&& match r {
        Ok(Some(id)) => superseded_by(payload@) == Ok::<Option<u128>, DispatchError>(Some(id.value)),
        Ok(None) => superseded_by(payload@) == Ok::<Option<u128>, DispatchError>(None),
        Err(e) => superseded_by(payload@) == Err::<Option<u128>, DispatchError>(e),
    }
    &&& forall|v: u128|
        text_of(field(payload@, "supersedes_operation_id"@)) == Some(#[trigger] hyphenated(v)) ==> r == Ok::<
            Option<OperationId>,
            DispatchError,
        >(Some(OperationId { value: v }))
}

pub fn superseded(payload: &Json) -> (r: Result<Option<OperationId>, DispatchError>)
    ensures
        superseded_read(payload, r),
{
    match payload.get("supersedes_operation_id") {
        Some(value) => match value.text() {
            Some(text) => match uuid_try_parse(text) {
                Some(id) => Ok(Some(OperationId::from_uuid(id))),
                None => Err(DispatchError::InvalidData),
            },
            None => Ok(None),
        },
        None => Ok(None),
    }
}

/// The sandbox is in the hands of this operation, which is of this kind.
pub open spec fn transition_owned(op: OperationRow, sandbox: SandboxRow, kind: Seq<char>) -> bool {
    op.kind@ == kind && sandbox.active_transition_operation_id == Some(op.id)
}

/// The host runs at the epoch the allocation was made under or, when a later
/// epoch reports on an allocation of an earlier one, at that later epoch.
pub open spec fn epochs_agree(allocation_epoch: i64, host_epoch: i64, reporting_epoch: Option<i64>) -> bool {
    match reporting_epoch {
        None => host_epoch == allocation_epoch,
        Some(epoch) => host_epoch == epoch && allocation_epoch < epoch,
    }
}

/// The rows of a claimed lifecycle operation. `op` is the operation where the
/// claim is live at its revision, `allocation` the sandbox's current allocation
/// where it has one that is not released, `superseded_found` whether the creation
/// that a destroy took over is still owned by cleanup.
pub struct LifecycleRows<'a> {
    pub op: Option<&'a OperationRow>,
    pub superseded_found: bool,
    pub sandbox: &'a SandboxRow,
    pub allocation: Option<&'a AllocationRow>,
    pub host_epoch: i64,
}

/// Why the rows do not amount to current ownership.
pub open spec fn context_refusal(rows: LifecycleRows, kind: Seq<char>, reporting_epoch: Option<i64>) -> Option<
    DispatchError,
> {
    match rows.op {
        None => Some(DispatchError::LostClaim),
        Some(op) => if kind == "destroy"@ && superseded_by(op.payload@) is Err {
            Some(DispatchError::InvalidData)
        } else if kind == "destroy"@ && superseded_by(op.payload@)->Ok_0 is Some && !rows.superseded_found {
            Some(DispatchError::Conflict)
        } else if !transition_owned(*op, *rows.sandbox, kind) {
            Some(DispatchError::Conflict)
        } else {
            match rows.allocation {
                None => Some(DispatchError::Conflict),
                Some(allocation) => if rows.sandbox.current_allocation_id != Some(allocation.id)
                    || rows.sandbox.generation != allocation.generation || !epochs_agree(
                    allocation.supervisor_epoch,
                    rows.host_epoch,
                    reporting_epoch,
                ) {
                    Some(DispatchError::Conflict)
                } else if op.lease_expires_at is None || millis_of(op.lease_expires_at->0) is None {
                    Some(DispatchError::InvalidData)
                } else {
                    None
                },
            }
        },
    }
}

/// The owner that a claimed operation and its allocation stand for.
pub open spec fn owner_of(owner: Ownership, op: OperationRow, allocation: AllocationRow, revision: i64, expires: i64) -> bool {
    &&& owner.host_id@ == id_text("hst"@, allocation.host_id.value)
    &&& owner.project_id@ == id_text("prj"@, op.project_id.value)
    &&& owner.sandbox_id@ == id_text("sbx"@, op.sandbox_id.value)
    &&& owner.allocation_id@ == id_text("alc"@, allocation.id.value)
    &&& owner.operation_id@ == id_text("op"@, op.id.value)
    &&& owner.generation == allocation.generation
    &&& owner.supervisor_epoch == allocation.supervisor_epoch
    &&& owner.claim_revision == revision
    &&& owner.claim_expires_unix_ms == expires
}

/// Who acts on an operation's allocation under a claim.
pub fn ownership(op: &OperationRow, allocation: &AllocationRow, revision: i64, expires: i64) -> (r: Ownership)
    ensures
        owner_of(r, *op, *allocation, revision, expires),
{
    Ownership {
        host_id: allocation.host_id.to_string(),
        supervisor_epoch: allocation.supervisor_epoch,
        operation_id: op.id.to_string(),
        project_id: op.project_id.to_string(),
        sandbox_id: op.sandbox_id.to_string(),
        allocation_id: allocation.id.to_string(),
        generation: allocation.generation,
        claim_revision: revision,
        claim_expires_unix_ms: expires,
    }
}

/// What a claimed operation may be found to act for.
pub open spec fn context_found(
    rows: &LifecycleRows,
    kind: &str,
    revision: i64,
    reporting_epoch: Option<i64>,
    r: Result<Ownership, DispatchError>,
) -> bool {
    match r {
        Ok(owner) => {
            &&& context_refusal(*rows, kind@, reporting_epoch) is None
            &&& owner_of(
                owner,
                *rows.op->0,
                *rows.allocation->0,
                revision,
                millis_of(rows.op->0.lease_expires_at->0)->0,
            )
        },
        Err(e) => context_refusal(*rows, kind@, reporting_epoch) == Some(e),
    }
}

/// Current ownership of a lifecycle operation's allocation.
pub fn context(rows: &LifecycleRows, kind: &str, revision: i64, reporting_epoch: Option<i64>) -> (r: Result<
    Ownership,
    DispatchError,
>)
    ensures
        context_found(rows, kind, revision, reporting_epoch, r),
{
    let op: &OperationRow = match rows.op {
        Some(op) => op,
        None => {
            return Err(DispatchError::LostClaim);
        },
    };
    if same_text(kind, "destroy") {
        match superseded(&op.payload) {
            Ok(Some(_)) => {
                if !rows.superseded_found {
                    return Err(DispatchError::Conflict);
                }
            },
            Ok(None) => {},
            Err(_) => {
                return Err(DispatchError::InvalidData);
            },
        }
    }
    let owned: bool = match rows.sandbox.active_transition_operation_id {
        Some(id) => id == op.id,
        None => false,
    };
    if !same_text(op.kind.as_str(), kind) || !owned {
        return Err(DispatchError::Conflict);
    }
    let allocation: &AllocationRow = match rows.allocation {
        Some(a) => a,
        None => {
            return Err(DispatchError::Conflict);
        },
    };
    let current: bool = match rows.sandbox.current_allocation_id {
        Some(id) => id == allocation.id,
        None => false,
    };
    let epochs: bool = match reporting_epoch {
        None => rows.host_epoch == allocation.supervisor_epoch,
        Some(epoch) => rows.host_epoch == epoch && allocation.supervisor_epoch < epoch,
    };
    if !current || rows.sandbox.generation != allocation.generation || !epochs {
        return Err(DispatchError::Conflict);
    }
    let expires: i64 = match op.lease_expires_at {
        Some(at) => match millis(at) {
            Some(m) => m,
            None => {
                return Err(DispatchError::InvalidData);
            },
        },
        None => {
            return Err(DispatchError::InvalidData);
        },
    };
    Ok(ownership(op, allocation, revision, expires))
}

/// What a create attempt does next.
#[derive(Debug)]
pub enum CreateStep {
    /// A prior durable intent is uncertainty even if its RPC was never sent.
    Inspect,
    /// Commit the intent, then start with these resources.
    Dispatch { resources: Resources, intent: Json },
}

/// A dispatch intent may already exist.
pub open spec fn maybe_dispatched(op: OperationRow) -> bool {
    op.attempt_count > 0 || op.status@ == "unknown"@
}

pub open spec fn listed(images: Seq<String>, digest: Seq<char>) -> bool {
    exists|i: int| 0 <= i < images.len() && (#[trigger] images[i])@ == digest
}

fn is_listed(images: &Vec<String>, digest: &str) -> (r: bool)
    ensures
        r == listed(images@, digest@),
{
    let mut i: usize = 0;
    while i < images.len()
        invariant
            i <= images@.len(),
            forall|j: int| 0 <= j < i ==> (#[trigger] images@[j])@ != digest@,
        decreases images@.len() - i,
    {
        if same_text(images[i].as_str(), digest) {
            return true;
        }
        i = i + 1;
    }
    false
}

/// Why a create that was never dispatched may not be dispatched now.
pub open spec fn create_refusal(
    op: OperationRow,
    sandbox: SandboxRow,
    allocation: AllocationRow,
    authorized: bool,
    images: Seq<String>,
    host_ready: bool,
) -> Option<DispatchError> {
    if !text_is(op.phase, "reserved"@) || allocation.status@ != "reserved"@ || sandbox.desired_state@ != "running"@ {
        Some(DispatchError::Conflict)
    } else if !authorized {
        Some(DispatchError::Unauthorized)
    } else if !listed(images, sandbox.image_digest@) {
        Some(DispatchError::ImageDenied)
    } else if !host_ready {
        Some(DispatchError::HostUnavailable)
    } else if allocation.vcpu < 0 || allocation.memory_mib < 0 || allocation.disk_mib < 0 {
        Some(DispatchError::InvalidData)
    } else {
        None
    }
}

/// What a claimed create may do next.
pub open spec fn create_prepared(
    op: &OperationRow,
    sandbox: &SandboxRow,
    allocation: &AllocationRow,
    owner: &Ownership,
    authorized: bool,
    images: &Vec<String>,
    host_ready: bool,
    r: Result<CreateStep, DispatchError>,
) -> bool {
    match r {
        Ok(CreateStep::Inspect) => maybe_dispatched(*op),
        Ok(CreateStep::Dispatch { resources, intent }) => {
            &&& !maybe_dispatched(*op)
            &&& create_refusal(*op, *sandbox, *allocation, authorized, images@, host_ready) is None
            &&& resources == (Resources {
                vcpu: allocation.vcpu as u32,
                memory_mib: allocation.memory_mib as u64,
                disk_mib: allocation.disk_mib as u64,
            })
            &&& intent@ == Doc::Object(evidence_members(*owner, None, "create_dispatch_intent"@))
        },
        Err(e) => !maybe_dispatched(*op) && create_refusal(
            *op,
            *sandbox,
            *allocation,
            authorized,
            images@,
            host_ready,
        ) == Some(e),
    }
}

/// Decide a create attempt. `authorized` is whether the initiating credential,
/// the project, the deadline and the sandbox's expiry permit it now; `host_ready`
/// whether the allocation's host is ready and was seen within thirty seconds.
pub fn prepare_create_dispatch(
    op: &OperationRow,
    sandbox: &SandboxRow,
    allocation: &AllocationRow,
    owner: &Ownership,
    authorized: bool,
    images: &Vec<String>,
    host_ready: bool,
) -> (r: Result<CreateStep, DispatchError>)
    ensures
        create_prepared(op, sandbox, allocation, owner, authorized, images, host_ready, r),
{
    if op.attempt_count > 0 || same_text(op.status.as_str(), "unknown") {
        return Ok(CreateStep::Inspect);
    }
    if !is_text(&op.phase, "reserved") || !same_text(allocation.status.as_str(), "reserved") || !same_text(
        sandbox.desired_state.as_str(),
        "running",
    ) {
        return Err(DispatchError::Conflict);
    }
    if !authorized {
        return Err(DispatchError::Unauthorized);
    }
    if !is_listed(images, sandbox.image_digest.as_str()) {
        return Err(DispatchError::ImageDenied);
    }
    if !host_ready {
        return Err(DispatchError::HostUnavailable);
    }
    if allocation.vcpu < 0 || allocation.memory_mib < 0 || allocation.disk_mib < 0 {
        return Err(DispatchError::InvalidData);
    }
    Ok(
        CreateStep::Dispatch {
            resources: Resources {
                vcpu: allocation.vcpu as u32,
                memory_mib: allocation.memory_mib as u64,
                disk_mib: allocation.disk_mib as u64,
            },
            intent: evidence(owner, None, "create_dispatch_intent").object(),
        },
    )
}

/// What a host may be asked to create.
pub open spec fn create_requested(
    owner: Ownership,
    image_digest: &str,
    resources: Resources,
    lease: i128,
    r: Result<CreateRequest, DispatchError>,
) -> bool {
    match r {
        Ok(q) => {
            &&& q.ownership == Some(owner)
            &&& q.image_digest@ == image_digest@
            &&& q.resources == Some(resources)
            &&& Some(q.allocation_expires_unix_ms) == millis_of(lease)
        },
        Err(e) => e == DispatchError::InvalidData && millis_of(lease) is None,
    }
}

/// The request that a committed intent permits, under the execution lease that
/// was granted with it.
pub fn create_request(owner: Ownership, image_digest: &str, resources: Resources, lease: i128) -> (r: Result<
    CreateRequest,
    DispatchError,
>)
    ensures
        create_requested(owner, image_digest, resources, lease, r),
{
    match millis(lease) {
        Some(expires) => Ok(
            CreateRequest {
                ownership: Some(owner),
                image_digest: image_digest.to_owned(),
                resources: Some(resources),
                allocation_expires_unix_ms: expires,
            },
        ),
        None => Err(DispatchError::InvalidData),
    }
}

/// What is recorded with an uncertain create.
pub fn outcome_unknown_error() -> (r: Json)
    ensures
        r@ == Doc::Object(
            Seq::<(Seq<char>, Doc)>::empty().push(("code"@, Doc::Text("outcome_unknown"@))).push(
                ("message"@, Doc::Text("Awaiting matching supervisor evidence; create will not be replayed."@)),
            ),
        ),
{
    let mut m: Members = Members::new();
    m.put("code", json_text("outcome_unknown"));
    m.put("message", json_text("Awaiting matching supervisor evidence; create will not be replayed."));
    m.object()
}

/// What a create's observation is recorded as.
#[derive(Debug)]
pub struct CreateOutcome {
    pub ready: bool,
    pub receipt: Json,
    pub status: &'static str,
    pub phase: &'static str,
    pub result: Option<Json>,
    pub error: Option<Json>,
}

/// Why an observation is no evidence of the create. `fresh` is whether database
/// time is within ten seconds of the observation, `lease_live` whether the
/// execution lease has not expired.
pub open spec fn create_observation_refusal(
    o: Observation,
    allow_simulated: bool,
    owner: Ownership,
    attempt_count: i32,
    fresh: bool,
    lease_live: bool,
) -> Option<DispatchError> {
    if o.simulated && !allow_simulated {
        Some(DispatchError::SimulationDenied)
    } else if !is_owner(o.ownership, owner) || o.create_operation_id@ != owner.operation_id@ || o.observed_unix_ms <= 0
        || attempt_count != 1 || !fresh {
        Some(DispatchError::BadEvidence)
    } else if o.state.meaning != Some(AllocationState::Ready) && o.state.meaning != Some(AllocationState::Released) {
        Some(DispatchError::BadEvidence)
    } else if o.state.meaning == Some(AllocationState::Ready) && !lease_live {
        Some(DispatchError::BadEvidence)
    } else {
        None
    }
}

/// The receipt of a create observation: the owner's evidence with what was seen.
pub open spec fn create_receipt(o: Observation, owner: Ownership) -> Doc {
    Doc::Object(
        evidence_members(
            owner,
            Some(o.simulated),
            if o.state.meaning == Some(AllocationState::Ready) {
                "guest_ready"@
            } else {
                "allocation_released"@
            },
        ).push(("observed_unix_ms"@, number(o.observed_unix_ms as int))).push(
            ("start_count"@, Doc::Number(crate::json::decimal(o.start_count as nat))),
        ),
    )
}

pub open spec fn simulated_result(sandbox_id: Seq<char>, simulated: bool) -> Doc {
    Doc::Object(
        Seq::<(Seq<char>, Doc)>::empty().push(("sandbox_id"@, Doc::Text(sandbox_id))).push(
            ("simulated"@, Doc::Bool(simulated)),
        ),
    )
}

pub fn simulated_result_document(sandbox_id: &str, simulated: bool) -> (r: Json)
    ensures
        r@ == simulated_result(sandbox_id@, simulated),
{
    let mut m: Members = Members::new();
    m.put("sandbox_id", json_text(sandbox_id));
    m.put("simulated", Json::Bool(simulated));
    m.object()
}

pub open spec fn coded_error(code: Seq<char>, simulated: bool) -> Doc {
    Doc::Object(
        Seq::<(Seq<char>, Doc)>::empty().push(("code"@, Doc::Text(code))).push(("simulated"@, Doc::Bool(simulated))),
    )
}

pub open spec fn create_recorded(c: CreateOutcome, o: Observation, owner: Ownership) -> bool {
    &&& c.ready == (o.state.meaning == Some(AllocationState::Ready))
    &&& c.receipt@ == create_receipt(o, owner)
    &&& if c.ready {
        &&& c.status@ == "succeeded"@
        &&& c.phase@ == "ready"@
        &&& (c.result matches Some(d) && d@ == simulated_result(owner.sandbox_id@, o.simulated))
        &&& c.error is None
    } else {
        &&& c.status@ == "failed"@
        &&& c.phase@ == "released_before_completion"@
        &&& c.result is None
        &&& (c.error matches Some(d) && d@ == coded_error("allocation_released"@, o.simulated))
    }
}

/// What a report of a create may come to.
pub open spec fn create_observed(
    o: &Observation,
    allow_simulated: bool,
    owner: &Ownership,
    attempt_count: i32,
    fresh: bool,
    lease_live: bool,
    r: Result<CreateOutcome, DispatchError>,
) -> bool {
    match r {
        Ok(c) => {
            &&& create_observation_refusal(*o, allow_simulated, *owner, attempt_count, fresh, lease_live) is None
            &&& create_recorded(c, *o, *owner)
        },
        Err(e) => create_observation_refusal(*o, allow_simulated, *owner, attempt_count, fresh, lease_live)
            == Some(e),
    }
}

/// Only authenticated, tuple-matching observations may complete a create. A
/// readiness report must still be inside the execution lease; expiry never
/// becomes release evidence on its own.
pub fn record_create_observation(
    o: &Observation,
    allow_simulated: bool,
    owner: &Ownership,
    attempt_count: i32,
    fresh: bool,
    lease_live: bool,
) -> (r: Result<CreateOutcome, DispatchError>)
    ensures
        create_observed(o, allow_simulated, owner, attempt_count, fresh, lease_live, r),
{
    if o.simulated && !allow_simulated {
        return Err(DispatchError::SimulationDenied);
    }
    if !owned_by(&o.ownership, owner) || !same_text(o.create_operation_id.as_str(), owner.operation_id.as_str())
        || o.observed_unix_ms <= 0 || attempt_count != 1 || !fresh {
        return Err(DispatchError::BadEvidence);
    }
    let ready: bool = match o.state.meaning {
        Some(AllocationState::Ready) => true,
        Some(AllocationState::Released) => false,
        _ => {
            return Err(DispatchError::BadEvidence);
        },
    };
    if ready && !lease_live {
        return Err(DispatchError::BadEvidence);
    }
    let phase: &str = if ready {
        "guest_ready"
    } else {
        "allocation_released"
    };
    let mut receipt: Members = evidence(owner, Some(o.simulated), phase);
    receipt.put("observed_unix_ms", json_integer(o.observed_unix_ms));
    receipt.put("start_count", Json::Number(crate::json::decimal_text(o.start_count)));
    if ready {
        Ok(
            CreateOutcome {
                ready,
                receipt: receipt.object(),
                status: "succeeded",
                phase: "ready",
                result: Some(simulated_result_document(owner.sandbox_id.as_str(), o.simulated)),
                error: None,
            },
        )
    } else {
        let mut error: Members = Members::new();
        error.put("code", json_text("allocation_released"));
        error.put("simulated", Json::Bool(o.simulated));
        Ok(
            CreateOutcome {
                ready,
                receipt: receipt.object(),
                status: "failed",
                phase: "released_before_completion",
                result: None,
                error: Some(error.object()),
            },
        )
    }
}

#[derive(Debug, Clone, Copy, PartialEq, Eq, Structural)]
pub enum CreateRejection {
    Unauthorized,
    ImageDenied,
    InvalidResources,
}

pub open spec fn rejection_code(reason: CreateRejection) -> Seq<char> {
    match reason {
        CreateRejection::Unauthorized => "authorization_revoked"@,
        CreateRejection::ImageDenied => "image_not_allowed"@,
        CreateRejection::InvalidResources => "invalid_resources"@,
    }
}

impl CreateRejection {
    pub fn code(self) -> (r: &'static str)
        ensures
            r@ == rejection_code(self),
    {
        match self {
            CreateRejection::Unauthorized => "authorization_revoked",
            CreateRejection::ImageDenied => "image_not_allowed",
            CreateRejection::InvalidResources => "invalid_resources",
        }
    }
}

/// What is recorded of a create that was rejected before any dispatch.
#[derive(Debug)]
pub struct RejectedCreate {
    pub receipt: Json,
    pub error: Json,
}

/// Whether durable evidence proves that no create request can have been sent: a
/// running create without attempts, read under a live claim.
pub open spec fn never_dispatched(op: Option<OperationRow>, sandbox: SandboxRow, reservation_unused: bool) -> bool {
    &&& op is Some
    &&& op->0.kind@ == "create"@
    &&& op->0.status@ == "running"@
    &&& op->0.attempt_count == 0
    &&& (op->0.phase is None || text_is(op->0.phase, "queued"@) || text_is(op->0.phase, "reserved"@))
    &&& sandbox.active_transition_operation_id == Some(op->0.id)
    &&& (sandbox.current_allocation_id is Some ==> reservation_unused)
}

pub open spec fn rejection_receipt(op: OperationId, revision: i64, reason: CreateRejection) -> Doc {
    Doc::Object(
        Seq::<(Seq<char>, Doc)>::empty().push(("phase"@, Doc::Text("rejected_before_dispatch"@))).push(
            ("operation_id"@, Doc::Text(id_text("op"@, op.value))),
        ).push(("claim_revision"@, number(revision as int))).push(("dispatch_intent_absent"@, Doc::Bool(true))).push(
            ("code"@, Doc::Text(rejection_code(reason))),
        ),
    )
}

/// What rejecting a create before its dispatch may come to.
pub open spec fn create_rejected(
    op: Option<&OperationRow>,
    sandbox: &SandboxRow,
    reservation_unused: bool,
    revision: i64,
    reason: CreateRejection,
    r: Result<RejectedCreate, DispatchError>,
) -> bool {
    match r {
        Ok(x) => {
            &&& op matches Some(o) && never_dispatched(Some(*o), *sandbox, reservation_unused)
            &&& x.receipt@ == rejection_receipt(op->0.id, revision, reason)
            &&& x.error@ == Doc::Object(
                Seq::<(Seq<char>, Doc)>::empty().push(("code"@, Doc::Text(rejection_code(reason)))),
            )
        },
        Err(e) => {
            &&& e == DispatchError::Conflict
            &&& (op matches Some(o) ==> !never_dispatched(Some(*o), *sandbox, reservation_unused))
        },
    }
}

/// Service-owned cleanup is safe only when durable evidence proves that no create
/// request could have been sent. `reservation_unused` is whether the sandbox's
/// allocation is reserved, not released and without an execution lease.
pub fn reject_undispatched_create(
    op: Option<&OperationRow>,
    sandbox: &SandboxRow,
    reservation_unused: bool,
    revision: i64,
    reason: CreateRejection,
) -> (r: Result<RejectedCreate, DispatchError>)
    ensures
        create_rejected(op, sandbox, reservation_unused, revision, reason, r),
{
    let op: &OperationRow = match op {
        Some(op) => op,
        None => {
            return Err(DispatchError::Conflict);
        },
    };
    let fresh: bool = same_text(op.kind.as_str(), "create") && same_text(op.status.as_str(), "running") && op.attempt_count == 0;
    let early: bool = op.phase.is_none() || is_text(&op.phase, "queued") || is_text(&op.phase, "reserved");
    let owned: bool = match sandbox.active_transition_operation_id {
        Some(id) => id == op.id,
        None => false,
    };
    if !fresh || !early || !owned || (sandbox.current_allocation_id.is_some() && !reservation_unused) {
        return Err(DispatchError::Conflict);
    }
    let mut receipt: Members = Members::new();
    receipt.put("phase", json_text("rejected_before_dispatch"));
    receipt.put("operation_id", json_text(op.id.to_string().as_str()));
    receipt.put("claim_revision", json_integer(revision));
    receipt.put("dispatch_intent_absent", Json::Bool(true));
    receipt.put("code", json_text(reason.code()));
    let mut error: Members = Members::new();
    error.put("code", json_text(reason.code()));
    Ok(RejectedCreate { receipt: receipt.object(), error: error.object() })
}

/// Once an intent may exist, every later attempt inspects: no second request is
/// ever started for the create.
pub proof fn one_create_intent(op: OperationRow, later: OperationRow)
    requires
        !maybe_dispatched(op),
        later.attempt_count == op.attempt_count + 1,
        op.attempt_count >= 0,
    ensures
        maybe_dispatched(later),
{
}

/// A create is never both dispatched and rejected: what may be rejected as
/// undispatched has no intent that a host could have acted on.
pub proof fn rejected_creates_were_never_dispatched(op: OperationRow, sandbox: SandboxRow, reservation_unused: bool)
    requires
        never_dispatched(Some(op), sandbox, reservation_unused),
    ensures
        !maybe_dispatched(op),
{
    reveal_strlit("running");
    reveal_strlit("unknown");
    assert("running"@[0] == 'r');
    assert("unknown"@[0] == 'u');
}

/// An allocation is either current or of an earlier epoch: what is owned under its
/// own epoch is never reconciled as an earlier one's.
pub proof fn epochs_are_exclusive(rows: LifecycleRows, kind: Seq<char>, reporting_epoch: i64)
    requires
        context_refusal(rows, kind, None) is None,
    ensures
        context_refusal(rows, kind, Some(reporting_epoch)) == Some(DispatchError::Conflict),
{
}

/// Simulated evidence completes nothing without the opt-in, and a host of
/// another owner completes nothing at all.
pub proof fn foreign_evidence_is_refused(
    o: Observation,
    allow_simulated: bool,
    owner: Ownership,
    attempt_count: i32,
    fresh: bool,
    lease_live: bool,
)
    ensures
        o.simulated && !allow_simulated ==> create_observation_refusal(
            o,
            allow_simulated,
            owner,
            attempt_count,
            fresh,
            lease_live,
        ) is Some,
        (o.ownership matches Some(x) ==> !same_ownership(x, owner)) ==> create_observation_refusal(
            o,
            allow_simulated,
            owner,
            attempt_count,
            fresh,
            lease_live,
        ) is Some,
{
}

} // verus!
