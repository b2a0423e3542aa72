//! Reconcile prior-epoch allocation release without granting old mutation authority.
use crate::canonical::Json;
use crate::document::{json_integer, json_text, number, Doc, Members};
use crate::ids::{HostId, Id, OperationId};
use crate::store::destroy::{end_superseded, gone, is_gone, superseded_ends};
use crate::store::dispatch::{
    evidence, evidence_members, outcome, simulated_result, simulated_result_document, superseded_by, DispatchError,
};
use crate::store::rows::{is_text, text_is, OperationRow, SandboxRow};
use crate::supervisor::{
    is_owner, owned_by, AllocationState, Observation, Ownership, PreviousAllocationObservation,
    PreviousAllocationRequest,
};
use crate::text::same_text;
use vstd::prelude::*;
use vstd::string::*;

verus! {

#[derive(Debug)]
pub enum PreviousAction {
    RejectUndispatched,
    Reconcile(PreviousAllocationRequest),
}

/// Only lifecycle operations are reconciled across epochs.
pub open spec fn lifecycle(kind: Seq<char>) -> bool {
    kind == "create"@ || kind == "destroy"@
}

pub fn is_lifecycle(kind: &str) -> (r: bool)
    ensures
        r == lifecycle(kind@),
{
    same_text(kind, "create") || same_text(kind, "destroy")
}

/// What asking for an earlier epoch may be found to be.
pub open spec fn previous_checked(
    reporting_epoch: i64,
    kind: Option<&str>,
    r: Result<(), DispatchError>,
) -> bool {
    r == outcome(
        if reporting_epoch <= 0 {
            Some(DispatchError::InvalidData)
        } else if kind matches Some(k) && !lifecycle(k@) {
            Some(DispatchError::Conflict)
        } else {
            None
        },
    )
}

/// A reporting epoch must be positive, and only lifecycle operations qualify.
pub fn check_previous(reporting_epoch: i64, kind: Option<&str>) -> (r: Result<(), DispatchError>)
    ensures
        previous_checked(reporting_epoch, kind, r),
{
    if reporting_epoch <= 0 {
        return Err(DispatchError::InvalidData);
    }
    match kind {
        Some(k) => {
            if !is_lifecycle(k) {
                return Err(DispatchError::Conflict);
            }
        },
        None => {},
    }
    Ok(())
}

/// Whether the operation's state does not permit asking the host about the prior
/// epoch: a create must have exactly one intent, a destroy must be wanted.
pub open spec fn previous_conflict(op: OperationRow, sandbox: SandboxRow) -> bool {
    ||| op.kind@ == "create"@ && op.attempt_count != 1
    ||| op.kind@ == "destroy"@ && sandbox.desired_state@ != "destroyed"@
}

pub open spec fn previous_undispatched(op: OperationRow) -> bool {
    op.kind@ == "create"@ && op.attempt_count == 0
}

/// What a claimed operation of an earlier epoch may do next.
pub open spec fn previous_prepared(
    op: &OperationRow,
    sandbox: &SandboxRow,
    owner: Ownership,
    host: HostId,
    reporting_epoch: i64,
    r: Result<PreviousAction, DispatchError>,
) -> bool {
    match r {
        Ok(PreviousAction::RejectUndispatched) => owner.host_id@ == crate::ids::id_text("hst"@, host.value)
            && previous_undispatched(*op),
        Ok(PreviousAction::Reconcile(q)) => {
            &&& owner.host_id@ == crate::ids::id_text("hst"@, host.value)
            &&& !previous_undispatched(*op)
            &&& !previous_conflict(*op, *sandbox)
            &&& q.ownership == Some(owner)
            &&& q.reporting_epoch == reporting_epoch
        },
        Err(e) => {
            &&& e == DispatchError::Conflict
            &&& (owner.host_id@ != crate::ids::id_text("hst"@, host.value) || (!previous_undispatched(*op)
                && previous_conflict(*op, *sandbox)))
        },
    }
}

/// Decide what to do about an allocation of an earlier epoch. `owner` is current
/// ownership as the reporting epoch sees it. Where a create has no intent, the
/// ordinary rejection must still prove so on its own.
pub fn prepare_previous_allocation(
    op: &OperationRow,
    sandbox: &SandboxRow,
    owner: Ownership,
    host: HostId,
    reporting_epoch: i64,
) -> (r: Result<PreviousAction, DispatchError>)
    ensures
        previous_prepared(op, sandbox, owner, host, reporting_epoch, r),
{
    if !same_text(owner.host_id.as_str(), host.to_string().as_str()) {
        return Err(DispatchError::Conflict);
    }
    let create: bool = same_text(op.kind.as_str(), "create");
    if create && op.attempt_count == 0 {
        return Ok(PreviousAction::RejectUndispatched);
    }
    if (create && op.attempt_count != 1) || (same_text(op.kind.as_str(), "destroy") && !same_text(
        sandbox.desired_state.as_str(),
        "destroyed",
    )) {
        return Err(DispatchError::Conflict);
    }
    Ok(PreviousAction::Reconcile(PreviousAllocationRequest { ownership: Some(owner), reporting_epoch }))
}

/// The operation is being reconciled across epochs under this very request.
pub open spec fn reconciling(op: OperationRow, request: PreviousAllocationRequest, owner: Ownership) -> bool {
    is_owner(request.ownership, owner) && text_is(op.phase, "reconciling_previous_epoch"@)
}

/// What losing sight of an earlier epoch may come to.
pub open spec fn previous_lost(
    op: &OperationRow,
    request: &PreviousAllocationRequest,
    owner: &Ownership,
    r: Result<Json, DispatchError>,
) -> bool {
    match r {
        Ok(error) => reconciling(*op, *request, *owner) && error@ == Doc::Object(
            Seq::<(Seq<char>, Doc)>::empty().push(("code"@, Doc::Text("previous_release_unconfirmed"@))),
        ),
        Err(e) => e == DispatchError::BadEvidence && !reconciling(*op, *request, *owner),
    }
}

/// An unanswered request leaves the release unconfirmed, if it was ours.
pub fn record_previous_unknown(op: &OperationRow, request: &PreviousAllocationRequest, owner: &Ownership) -> (r: Result<
    Json,
    DispatchError,
>)
    ensures
        previous_lost(op, request, owner, r),
{
    if !owned_by(&request.ownership, owner) || !is_text(&op.phase, "reconciling_previous_epoch") {
        return Err(DispatchError::BadEvidence);
    }
    let mut m: Members = Members::new();
    m.put("code", json_text("previous_release_unconfirmed"));
    Ok(m.object())
}

/// What an earlier epoch's report may consist of.
pub open spec fn previous_parted<'a>(
    o: &'a PreviousAllocationObservation,
    allow_simulated: bool,
    r: Result<(&'a PreviousAllocationRequest, &'a Observation), DispatchError>,
) -> bool {
    match r {
        Ok((request, release)) => {
            &&& o.request == Some(*request)
            &&& o.release == Some(*release)
            &&& (release.simulated ==> allow_simulated)
        },
        Err(DispatchError::BadEvidence) => o.request is None || o.release is None,
        Err(DispatchError::SimulationDenied) => (o.release matches Some(release) && release.simulated
            && !allow_simulated) && o.request is Some,
        Err(_) => false,
    }
}

/// The request and the release of an observation, where both are there and a
/// simulated release is allowed.
pub fn previous_release_parts<'a>(o: &'a PreviousAllocationObservation, allow_simulated: bool) -> (r: Result<
    (&'a PreviousAllocationRequest, &'a Observation),
    DispatchError,
>)
    ensures
        previous_parted(o, allow_simulated, r),
{
    match (&o.request, &o.release) {
        (Some(request), Some(release)) => {
            if release.simulated && !allow_simulated {
                return Err(DispatchError::SimulationDenied);
            }
            Ok((request, release))
        },
        _ => Err(DispatchError::BadEvidence),
    }
}

/// A create's release names the create, or nothing where the host never had it.
pub open spec fn create_release_consistent(op: OperationRow, release: Observation, owner: Ownership) -> bool {
    &&& op.attempt_count == 1
    &&& release.state.meaning == Some(AllocationState::Released) ==> release.create_operation_id@ == owner.operation_id@
    &&& release.state.meaning == Some(AllocationState::FencedAbsent) ==> release.create_operation_id@.len() == 0
        && release.start_count == 0
}

/// Whether the release is evidence for the operation under reconciliation.
pub open spec fn previous_release_fits(
    op: OperationRow,
    sandbox: SandboxRow,
    request: PreviousAllocationRequest,
    release: Observation,
    owner: Ownership,
) -> bool {
    &&& reconciling(op, request, owner)
    &&& is_owner(release.ownership, owner)
    &&& release.observed_unix_ms > 0
    &&& gone(release.state.meaning)
    &&& op.kind@ == "create"@ ==> create_release_consistent(op, release, owner)
    &&& op.kind@ == "destroy"@ ==> sandbox.desired_state@ == "destroyed"@
}

pub open spec fn previous_release_refusal(
    op: OperationRow,
    sandbox: SandboxRow,
    request: PreviousAllocationRequest,
    release: Observation,
    owner: Ownership,
) -> Option<DispatchError> {
    if !previous_release_fits(op, sandbox, request, release, owner) {
        Some(DispatchError::BadEvidence)
    } else if op.kind@ == "destroy"@ && superseded_by(op.payload@) is Err {
        Some(DispatchError::InvalidData)
    } else {
        None
    }
}

pub open spec fn previous_receipt(request: PreviousAllocationRequest, release: Observation, owner: Ownership) -> Doc {
    Doc::Object(
        evidence_members(owner, Some(release.simulated), "allocation_released"@).push(
            ("reporting_epoch"@, number(request.reporting_epoch as int)),
        ).push(("previous_epoch_recovery"@, Doc::Bool(true))).push(
            ("fenced_absent"@, Doc::Bool(release.state.meaning == Some(AllocationState::FencedAbsent))),
        ).push(("observed_unix_ms"@, number(release.observed_unix_ms as int))),
    )
}

/// What is recorded of an allocation that was gone after a restart.
#[derive(Debug)]
pub struct PreviousOutcome {
    pub receipt: Json,
    pub status: &'static str,
    pub phase: &'static str,
    pub result: Option<Json>,
    pub error: Option<Json>,
    pub superseded: Option<(OperationId, Json)>,
}

pub open spec fn restart_error(simulated: bool) -> Doc {
    Doc::Object(
        Seq::<(Seq<char>, Doc)>::empty().push(("code"@, Doc::Text("allocation_released_after_restart"@))).push(
            ("create_outcome_unknown"@, Doc::Bool(true)),
        ).push(("simulated"@, Doc::Bool(simulated))),
    )
}

pub open spec fn previous_recorded(
    x: PreviousOutcome,
    op: OperationRow,
    request: PreviousAllocationRequest,
    release: Observation,
    owner: Ownership,
) -> bool {
    &&& x.receipt@ == previous_receipt(request, release, owner)
    &&& if op.kind@ == "destroy"@ {
        &&& x.status@ == "succeeded"@
        &&& x.phase@ == "destroyed"@
        &&& (x.result matches Some(d) && d@ == simulated_result(owner.sandbox_id@, release.simulated))
        &&& x.error is None
        &&& superseded_ends(x.superseded, op.payload@, op.id)
    } else {
        &&& x.status@ == "failed"@
        &&& x.phase@ == "released_before_completion"@
        &&& x.result is None
        &&& (x.error matches Some(d) && d@ == restart_error(release.simulated))
        &&& x.superseded is None
    }
}

/// What an earlier epoch's release may come to.
pub open spec fn previous_released(
    op: &OperationRow,
    sandbox: &SandboxRow,
    request: &PreviousAllocationRequest,
    release: &Observation,
    owner: &Ownership,
    r: Result<PreviousOutcome, DispatchError>,
) -> bool {
    match r {
        Ok(x) => {
            &&& previous_release_refusal(*op, *sandbox, *request, *release, *owner) is None
            &&& previous_recorded(x, *op, *request, *release, *owner)
        },
        Err(e) => previous_release_refusal(*op, *sandbox, *request, *release, *owner) == Some(e),
    }
}

/// Accept a later epoch's report that an earlier epoch's allocation is gone.
pub fn record_previous_release(
    op: &OperationRow,
    sandbox: &SandboxRow,
    request: &PreviousAllocationRequest,
    release: &Observation,
    owner: &Ownership,
) -> (r: Result<PreviousOutcome, DispatchError>)
    ensures
        previous_released(op, sandbox, request, release, owner, r),
{
    let create: bool = same_text(op.kind.as_str(), "create");
    let destroy: bool = same_text(op.kind.as_str(), "destroy");
    let released: bool = match release.state.meaning {
        Some(AllocationState::Released) => true,
        _ => false,
    };
    let absent: bool = match release.state.meaning {
        Some(AllocationState::FencedAbsent) => true,
        _ => false,
    };
    let create_fits: bool = op.attempt_count == 1 && (!released || same_text(
        release.create_operation_id.as_str(),
        owner.operation_id.as_str(),
    )) && (!absent || (release.create_operation_id.as_str().is_empty() && release.start_count == 0));
    if !is_text(&op.phase, "reconciling_previous_epoch") || !owned_by(&request.ownership, owner) || !owned_by(
        &release.ownership,
        owner,
    ) || release.observed_unix_ms <= 0 || !is_gone(release.state.meaning) || (create && !create_fits) || (destroy
        && !same_text(sandbox.desired_state.as_str(), "destroyed")) {
        return Err(DispatchError::BadEvidence);
    }
    let mut receipt: Members = evidence(owner, Some(release.simulated), "allocation_released");
    receipt.put("reporting_epoch", json_integer(request.reporting_epoch));
    receipt.put("previous_epoch_recovery", Json::Bool(true));
    receipt.put("fenced_absent", Json::Bool(absent));
    receipt.put("observed_unix_ms", json_integer(release.observed_unix_ms));
    if destroy {
        let ended: Option<(OperationId, Json)> = match end_superseded(&op.payload, op.id) {
            Ok(s) => s,
            Err(_) => {
                return Err(DispatchError::InvalidData);
            },
        };
        Ok(
            PreviousOutcome {
                receipt: receipt.object(),
                status: "succeeded",
                phase: "destroyed",
                result: Some(simulated_result_document(owner.sandbox_id.as_str(), release.simulated)),
                error: None,
                superseded: ended,
            },
        )
    } else {
        let mut error: Members = Members::new();
        error.put("code", json_text("allocation_released_after_restart"));
        error.put("create_outcome_unknown", Json::Bool(true));
        error.put("simulated", Json::Bool(release.simulated));
        Ok(
            PreviousOutcome {
                receipt: receipt.object(),
                status: "failed",
                phase: "released_before_completion",
                result: None,
                error: Some(error.object()),
                superseded: None,
            },
        )
    }
}

/// Only what was asked about is settled: a release that is accepted echoes the owner
/// of the request under reconciliation and says that the host no longer holds the
/// allocation; a create that was never dispatched is not settled this way.
pub proof fn prior_releases_answer_their_request(
    op: OperationRow,
    sandbox: SandboxRow,
    request: PreviousAllocationRequest,
    release: Observation,
    owner: Ownership,
)
    requires
        previous_release_refusal(op, sandbox, request, release, owner) is None,
    ensures
        is_owner(request.ownership, owner) && is_owner(release.ownership, owner),
        gone(release.state.meaning),
        !previous_undispatched(op),
        !previous_conflict(op, sandbox),
{
}

} // verus!
