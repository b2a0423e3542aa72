//! What the store decides on commands, their output, their history and the
//! retirement of the allocations that they ran on.
use hudson_sandbox::allocation_authority::Permit;
use hudson_sandbox::allocation_retirement::{DomainClosure, Intent, Request};
use hudson_sandbox::api::CommandInput;
use hudson_sandbox::canonical::{canonical_text, Json};
use hudson_sandbox::file_downloads::ReadScope;
use hudson_sandbox::file_sources::{SourceOwner, SourcePlan};
use hudson_sandbox::files::Upload;
use hudson_sandbox::guest as w;
use hudson_sandbox::guest_model::{Context, Output, Receipt, State};
use hudson_sandbox::history::{Barrier, Domain};
use hudson_sandbox::output::{OutputName, OutputPlan, OutputPlans, OutputRef, OutputRefs, OutputTicket};
use hudson_sandbox::store::allocation_retirement::completion::{
    accept_completion, allocation_retirement_completion, check_completion, check_physical,
    complete_allocation_retirement, repeated_completion, retained, CompletionRows, CompletionStep, MetadataEvidence,
};
use hudson_sandbox::store::allocation_retirement::evidence::{
    close_batch, consumers, domain, release, releasing_operation, PrefixProof,
};
use hudson_sandbox::store::allocation_retirement::forgetting::{
    accept_forgetting, allocation_forgetting_completion, check_forgetting, complete_allocation_forgetting,
    forget_request, prepare_allocation_forgetting, repeated_forgetting, state as forget_state, ForgetDecision,
    ForgetRows, ForgetStep,
};
use hudson_sandbox::store::allocation_retirement::scheduling::{check_epoch, next_allocation_retirement};
use hudson_sandbox::store::allocation_retirement::{
    check_policy, claimed_request, confirm_scope, digest_release, frozen_scope, permit,
    prepare_allocation_retirement, Error as RetirementError, RetirementRow, RetirementStep, ScopeEvidence,
};
use hudson_sandbox::store::compaction::{
    command_summary, compact_expired_response, CommandColumns, CommandSummary, CompactionStep, RequestColumns,
};
use hudson_sandbox::store::dispatch::DispatchError;
use hudson_sandbox::store::execute::{
    admit_execute, context as execute_context, execute_digest, prepare_execute, record_execute_observation,
    record_execute_unknown, DispatchRows, ExecuteAdmission, ExecuteContext, ExecuteDecision, ExecuteRows,
    ExecuteStep,
};
use hudson_sandbox::store::history::coordinator::{
    after_candidate, bind_history, claimed_candidate, complete_history, fresh, prepare_candidate, scan,
    CandidateNext, CandidateStep, HistoryRow, Preparation, PrefixRow,
};
use hudson_sandbox::store::history::evidence::{command_eligible, file_eligible, CommandRows, FileRows};
use hudson_sandbox::store::history::released::{
    candidate as released_candidate, claimed_candidate as released_claim, complete_released_history, floor,
    ReleasedClaim, ReleasedRow, VerifiedFloors,
};
use hudson_sandbox::store::history::{
    admission_floor, check_policy as check_history, limit as history_limit, name, Claim, Error as HistoryError,
};
use hudson_sandbox::store::output::{
    check_retention, claimed, delay, evidence, execution_evidence, lease, output_absent, output_for_project,
    prepare_output, publish_output, published_pair, retained_write, save_output_plans, saved, Column, ExecutionRows, OutputError,
    OutputWork,
};
use hudson_sandbox::store::output_cleanup::{
    check_batch, complete_output_cleanup, eligible_at, manifest, prepare_output_cleanup, CleanupCompletion,
    CleanupInventory, CleanupStep, OutputRetirement,
};
use hudson_sandbox::store::rows::{terminal, AllocationRow, OperationRow, PermitRow, RetryRow, SandboxRow};
use hudson_sandbox::store::stream::{archived, stream_for_project, StreamSource, StreamStep};
use hudson_sandbox::supervisor::{
    AllocationForgetObservation, AllocationForgetState, AllocationMetadataObservation, AllocationState,
    CommandObservation, EncodedRequest, HistoryBindingObservation, HistoryObservation, LeaseInspection,
    ObservedState, ReleasedHistoryObservation,
};
use hudson_sandbox::supervisor_files::FileRecord;
use hudson_sandbox::{AllocationId, HostId, Id, OperationId, ProjectId, SandboxId};
use sha2::Digest;

const SECOND: i128 = 1_000_000_000;

fn parse(text: &str) -> Json {
    fn json(value: &serde_json::Value) -> Json {
        match value {
            serde_json::Value::Null => Json::Null,
            serde_json::Value::Bool(b) => Json::Bool(*b),
            serde_json::Value::Number(n) => Json::Number(n.to_string()),
            serde_json::Value::String(s) => Json::Text(s.clone()),
            serde_json::Value::Array(items) => Json::List(items.iter().map(json).collect()),
            serde_json::Value::Object(m) => Json::Object(m.iter().map(|(k, v)| (k.clone(), json(v))).collect()),
        }
    }
    json(&serde_json::from_str(text).unwrap())
}
fn value(document: &Json) -> serde_json::Value {
    serde_json::from_str(&canonical_text(document)).unwrap()
}
fn copy(document: &Json) -> Json {
    parse(&canonical_text(document))
}
fn operation(kind: &str, status: &str, phase: Option<&str>) -> OperationRow {
    OperationRow {
        id: OperationId::generate(),
        project_id: ProjectId::generate(),
        sandbox_id: SandboxId::generate(),
        kind: kind.into(),
        status: status.into(),
        phase: phase.map(str::to_owned),
        attempt_count: 0,
        attempt_receipts: Json::List(vec![]),
        payload: Json::Object(vec![]),
        claim_revision: 4,
        execution_allocation_id: None,
        lease_expires_at: Some(50 * SECOND),
        next_retry_at: None,
        completed_at: None,
        payload_compacted_at: None,
        response_expires_at: None,
        output_status: "none".into(),
        output_expires_at: None,
        result: None,
        error: None,
    }
}
fn allocation(op: &OperationRow) -> AllocationRow {
    AllocationRow {
        id: AllocationId::generate(),
        project_id: op.project_id,
        sandbox_id: op.sandbox_id,
        host_id: HostId::generate(),
        generation: 1,
        supervisor_epoch: 2,
        status: "running".into(),
        vcpu: 1,
        memory_mib: 128,
        disk_mib: 64,
        released_at: None,
        release_evidence: Json::Null,
        lease_expires_at: Some(100 * SECOND),
        lease_requested_until: None,
        renewal_pending: false,
        maintenance_lease_until: None,
    }
}
fn sandbox(op: &OperationRow, a: &AllocationRow) -> SandboxRow {
    SandboxRow {
        id: op.sandbox_id,
        desired_state: "running".into(),
        observed_state: "running".into(),
        observation_simulated: None,
        generation: 1,
        active_transition_operation_id: None,
        current_allocation_id: Some(a.id),
        expires_at: None,
        image_digest: "sha256:x".into(),
        resources: Json::Null,
    }
}
fn input() -> CommandInput {
    CommandInput {
        argv: vec!["true".into()],
        env: vec![],
        cwd: "/".into(),
        deadline_unix_ms: 90_000,
        output_limit: 1000,
    }
}
const DIGEST: [u8; 32] = [7; 32];

struct Ran {
    op: OperationRow,
    pinned: AllocationRow,
    sandbox: SandboxRow,
    command: CommandInput,
}
fn queued() -> Ran {
    let mut op = operation("execute", "queued", Some("admitted"));
    let pinned = allocation(&op);
    op.execution_allocation_id = Some(pinned.id);
    let sandbox = sandbox(&op, &pinned);
    Ran { op, pinned, sandbox, command: input() }
}
impl Ran {
    fn context(&self) -> ExecuteContext {
        execute_context(Some(&self.op), &self.pinned, Some(&self.command), true, Some(DIGEST), 4).unwrap()
    }
    fn rows(&self) -> DispatchRows<'_> {
        DispatchRows {
            op: &self.op,
            sandbox: &self.sandbox,
            pinned: &self.pinned,
            host_epoch: 2,
            authorized: true,
            host_ready: true,
        }
    }
    fn receipt(&self, state: State, exit_code: Option<i32>) -> Receipt {
        Receipt {
            version: 1,
            context: Context { allocation_id: self.pinned.id, generation: 1, boot_id: "boot".into() },
            operation_id: self.op.id,
            digest: DIGEST,
            state,
            deadline_unix_ms: self.command.deadline_unix_ms,
            output_limit: self.command.output_limit,
            cancel_requested: false,
            cleanup_confirmed: true,
            exit_code,
            signal: None,
            stdout: Output { seen: 4, stored: 4, truncated: false },
            stderr: Output { seen: 0, stored: 0, truncated: false },
            reason: None,
        }
    }
    fn observation(&self, receipt: Option<&Receipt>, not_started: bool) -> CommandObservation {
        CommandObservation {
            ownership: Some(self.context().owner),
            simulated: false,
            observed_unix_ms: 60_000,
            command_digest: DIGEST.to_vec(),
            receipt: receipt.map(w::Receipt::from_model),
            not_started,
        }
    }
    // Commit the intent, as the transaction does.
    fn dispatch(mut self) -> Ran {
        match prepare_execute(&self.rows(), &self.context(), self.pinned.host_id, 2).unwrap() {
            ExecuteStep::Dispatch { intent } => {
                self.op.attempt_receipts = Json::List(vec![intent]);
                self.op.attempt_count = 1;
                self.op.status = "running".into();
                self
            }
            _ => panic!("not dispatched"),
        }
    }
    // Record a successful exit.
    fn finish(mut self) -> (Ran, Receipt) {
        let receipt = self.receipt(State::Exited, Some(0));
        let document = receipt_document("boot");
        let o = self.observation(Some(&receipt), false);
        let done = record_execute_observation(
            &self.op,
            &self.context(),
            &self.pinned,
            o,
            true,
            false,
            true,
            Some(document),
        )
        .unwrap();
        assert!(done.terminal && done.archive);
        self.op.status = done.status.into();
        self.op.phase = Some(done.phase.into());
        self.op.attempt_receipts = done.history;
        self.op.completed_at = Some(70 * SECOND);
        self.op.lease_expires_at = None;
        self.op.output_status = "pending".into();
        (self, receipt)
    }
    fn execution<'a>(&'a self, receipt: &'a Receipt) -> ExecutionRows<'a> {
        ExecutionRows {
            op: &self.op,
            pinned: Some(&self.pinned),
            command: Some(&self.command),
            guest_accepts: true,
            digest: Some(DIGEST),
            receipt: Some(receipt),
            receipt_valid: true,
        }
    }
}
fn receipt_document(boot: &str) -> Json {
    parse(&format!("{{\"context\":{{\"boot_id\":\"{boot}\"}}}}"))
}

#[test]
fn commands_are_admitted_once_their_sandbox_can_take_them() {
    let ran = queued();
    let digest = execute_digest(ran.op.sandbox_id, &ran.command);
    assert!(digest != execute_digest(SandboxId::generate(), &ran.command));
    let rows = || ExecuteRows {
        authorized: Some(true),
        old: None,
        sandbox: Some(&ran.sandbox),
        active: None,
        now: 60 * SECOND,
        ready: Some(true),
    };
    assert!(matches!(
        admit_execute(&rows(), &digest, 90_000),
        Ok(ExecuteDecision::Admit { allocation, deadline })
            if allocation == ran.pinned.id && deadline == 90 * SECOND
    ));
    let settled = |rows: ExecuteRows, deadline| match admit_execute(&rows, &digest, deadline).unwrap() {
        ExecuteDecision::Settled(a) => a,
        ExecuteDecision::Admit { .. } => panic!("admitted"),
    };
    assert!(matches!(settled(ExecuteRows { authorized: None, ..rows() }, 90_000), ExecuteAdmission::Unauthorized));
    assert!(matches!(settled(ExecuteRows { sandbox: None, ..rows() }, 90_000), ExecuteAdmission::NotFound));
    assert!(matches!(settled(ExecuteRows { ready: None, ..rows() }, 90_000), ExecuteAdmission::NotRunning));
    assert!(matches!(settled(rows(), 60_000), ExecuteAdmission::InvalidDeadline));
    assert!(matches!(settled(rows(), 60_001 + 6 * 3600 * 1000), ExecuteAdmission::InvalidDeadline));
    let busy = OperationId::generate();
    assert!(matches!(
        settled(ExecuteRows { active: Some(busy), ..rows() }, 90_000),
        ExecuteAdmission::Busy(id) if id == busy
    ));
    let old = RetryRow {
        id: OperationId::generate(),
        sandbox_id: ran.op.sandbox_id,
        request_digest: digest.as_bytes().to_vec(),
        digest_version: 1,
        status: "succeeded".into(),
        response_expired: false,
    };
    // A retry keeps its handle even after the command's deadline.
    assert!(matches!(
        settled(ExecuteRows { old: Some(&old), ..rows() }, 1),
        ExecuteAdmission::Accepted { operation_id, .. } if operation_id == old.id
    ));
}

#[test]
fn a_committed_intent_is_recognized_and_never_sent_again() {
    let ran = queued().dispatch();
    assert_eq!(
        value(&ran.op.attempt_receipts)[0]["command_digest"],
        hex::encode(DIGEST)
    );
    assert!(matches!(
        prepare_execute(&ran.rows(), &ran.context(), ran.pinned.host_id, 2),
        Ok(ExecuteStep::Inspect)
    ));
    let unknown = record_execute_unknown(&ran.op, &ran.context()).unwrap();
    assert_eq!((unknown.status, unknown.phase, unknown.terminal), ("unknown", "reconciling", false));
    // Another owner's intent is no evidence for this one.
    let mut other = ran.context();
    other.owner.generation = 9;
    assert_eq!(record_execute_unknown(&ran.op, &other).err(), Some(DispatchError::InvalidData));
    let fresh = queued();
    assert!(matches!(
        prepare_execute(&DispatchRows { authorized: false, ..fresh.rows() }, &fresh.context(), fresh.pinned.host_id, 2),
        Ok(ExecuteStep::Reject { error }) if value(&error)["code"] == "execution_authority_expired"
    ));
    assert_eq!(
        prepare_execute(&fresh.rows(), &fresh.context(), HostId::generate(), 2).err(),
        Some(DispatchError::HostUnavailable)
    );
    assert_eq!(
        prepare_execute(&DispatchRows { host_ready: false, ..fresh.rows() }, &fresh.context(), fresh.pinned.host_id, 2)
            .err(),
        Some(DispatchError::HostUnavailable)
    );
}

#[test]
fn observations_settle_commands_by_their_receipt() {
    let ran = queued().dispatch();
    let record = |receipt: Option<&Receipt>, not_started, fresh, valid| {
        record_execute_observation(
            &ran.op,
            &ran.context(),
            &ran.pinned,
            ran.observation(receipt, not_started),
            fresh,
            false,
            valid,
            receipt.map(|_| receipt_document("boot")),
        )
    };
    for (state, exit, status, phase, ended) in [
        (State::Exited, Some(0), "succeeded", "exited", true),
        (State::Exited, Some(3), "failed", "exited", true),
        (State::TimedOut, None, "failed", "timed_out", true),
        (State::Cancelled, None, "cancelled", "cancelled", true),
        (State::LaunchIntent, None, "running", "executing", false),
        (State::Unknown, None, "unknown", "reconciling", false),
    ] {
        let receipt = ran.receipt(state, exit);
        let x = record(Some(&receipt), false, true, true).unwrap();
        assert_eq!((x.status, x.phase, x.terminal), (status, phase, ended));
        // The intent stays first, however many reports follow it.
        assert_eq!(value(&x.history)[0]["phase"], "execute_dispatch_intent");
        assert_eq!(value(&x.history).as_array().unwrap().len(), 2);
    }
    let absent = record(None, true, true, true).unwrap();
    assert_eq!((absent.status, absent.phase), ("failed", "not_started"));
    assert!(!absent.archive);
    let good = ran.receipt(State::Exited, Some(0));
    assert_eq!(record(Some(&good), true, true, true).err(), Some(DispatchError::BadEvidence));
    assert_eq!(record(Some(&good), false, false, true).err(), Some(DispatchError::BadEvidence));
    assert_eq!(record(Some(&good), false, true, false).err(), Some(DispatchError::BadEvidence));
    let mut foreign = ran.receipt(State::Exited, Some(0));
    foreign.digest = [8; 32];
    assert_eq!(record(Some(&foreign), false, true, true).err(), Some(DispatchError::BadEvidence));
}

#[test]
fn a_finished_command_is_proven_by_its_rows_alone() {
    let (ran, receipt) = queued().dispatch().finish();
    let e = evidence(&ran.execution(&receipt)).unwrap();
    assert_eq!((e.owner.host_epoch, e.owner.boot_id.as_str(), e.simulated), (2, "boot", false));
    assert_eq!(e.owner.operation_id, ran.op.id);
    let mut rows = ran.execution(&receipt);
    rows.receipt_valid = false;
    assert_eq!(execution_evidence(&rows).err(), Some(OutputError::Corrupt));
    let mut changed = ran.receipt(State::Exited, Some(0));
    changed.output_limit = 5;
    assert_eq!(evidence(&ran.execution(&changed)).err(), Some(OutputError::Corrupt));
    let failed = ran.receipt(State::Exited, Some(1));
    assert!(execution_evidence(&ran.execution(&failed)).is_ok());
    assert_eq!(evidence(&ran.execution(&failed)).err(), Some(OutputError::Corrupt));
}

fn plan(t: &OutputTicket, name: OutputName, o: &Output) -> OutputPlan {
    OutputPlan {
        version: 1,
        owner: t.owner.clone(),
        upload_attempt: t.upload_attempt,
        name,
        size: o.stored,
        sha256: "a".repeat(64),
        seen: o.seen,
        truncated: o.truncated,
        created_unix_ms: t.created_unix_ms,
        expires_unix_ms: t.expires_unix_ms,
        delete_after_unix_ms: t.delete_after_unix_ms,
    }
}
fn plans(t: &OutputTicket, r: &Receipt) -> OutputPlans {
    OutputPlans { stdout: plan(t, OutputName::Stdout, &r.stdout), stderr: plan(t, OutputName::Stderr, &r.stderr) }
}
fn refs(t: &OutputTicket, r: &Receipt) -> OutputRefs {
    let p = plans(t, r);
    OutputRefs {
        stdout: OutputRef { plan: p.stdout, etag: "1".into(), object_version: None },
        stderr: OutputRef { plan: p.stderr, etag: "2".into(), object_version: None },
    }
}

#[test]
fn output_is_retained_published_and_hidden_at_its_expiry() {
    let (mut ran, receipt) = queued().dispatch().finish();
    let e = || evidence(&ran.execution(&receipt)).unwrap();
    let attempt = OperationId::generate();
    let (work, until) = prepare_output(&ran.op, e(), None, attempt, 100, 10, false).unwrap();
    assert_eq!(until, 170 * SECOND);
    for (retention, grace) in [(0, 10), (2_592_001, 10), (100, 604_801)] {
        assert_eq!(
            prepare_output(&ran.op, e(), None, attempt, retention, grace, false).err(),
            Some(OutputError::InvalidPolicy)
        );
    }
    assert!(prepare_output(&ran.op, e(), None, attempt, 2_592_000, 604_800, false).is_ok());
    let t = &work.ticket;
    assert_eq!(
        (t.created_unix_ms, t.expires_unix_ms, t.delete_after_unix_ms),
        (70_000, 170_000, 180_000)
    );
    assert_eq!((t.upload_attempt, t.output_limit), (attempt, 1000));
    let good = plans(t, &receipt);
    let kept = |p: Option<OutputPlans>| {
        Some(OutputWork { ticket: work.ticket.clone(), plans: p, receipt: receipt.clone(), simulated: false })
    };
    assert_eq!(save_output_plans(&kept(None), &good, &e(), false), Ok(()));
    let mut larger = plans(t, &receipt);
    larger.stdout.size = 5;
    larger.stdout.seen = 5;
    assert_eq!(save_output_plans(&kept(None), &larger, &e(), false), Err(OutputError::BadEvidence));
    let published = refs(t, &receipt);
    assert_eq!(publish_output(&kept(Some(good)), &published, &e(), false), Ok(()));
    assert_eq!(publish_output(&kept(None), &published, &e(), false), Err(OutputError::BadEvidence));
    let read = saved(
        Column::Value(work.ticket.clone()),
        Column::Value(plans(t, &receipt)),
        Some(170 * SECOND),
        &e(),
    );
    assert!(matches!(read, Ok(Some(w)) if w.ticket == work.ticket));
    assert!(matches!(
        saved(Column::Value(work.ticket.clone()), Column::Absent, Some(171 * SECOND), &e()),
        Err(OutputError::Corrupt)
    ));
    let seen = e();
    ran.op.output_status = "published".into();
    ran.op.output_expires_at = Some(170 * SECOND);
    let view = output_for_project(
        &ran.op,
        seen,
        &kept(Some(plans(t, &receipt))),
        Column::Value(refs(t, &receipt)),
        100 * SECOND,
    )
    .unwrap();
    assert!(view.references.is_some() && view.status == "published");
    let seen = evidence(&ran.execution(&receipt)).unwrap();
    let view = output_for_project(
        &ran.op,
        seen,
        &kept(Some(plans(t, &receipt))),
        Column::Value(refs(t, &receipt)),
        170 * SECOND,
    )
    .unwrap();
    assert!(view.references.is_none() && view.status == "expired");
    assert_eq!(output_absent(&ran.op, 100 * SECOND).references, None);
    assert!(matches!(archived(output_absent(&ran.op, 100 * SECOND)).source, StreamSource::Archived(_)));
    assert!(matches!(archived(view).source, StreamSource::Expired));
}

#[test]
fn output_policies_are_bounded() {
    assert_eq!(check_retention(1, 0), Ok(()));
    assert_eq!(check_retention(0, 0), Err(OutputError::InvalidPolicy));
    assert_eq!(check_retention(2_592_001, 0), Err(OutputError::InvalidPolicy));
    assert_eq!(check_retention(1, 604_801), Err(OutputError::InvalidPolicy));
    assert_eq!(lease(300), Ok(300));
    assert_eq!(lease(301), Err(OutputError::InvalidPolicy));
    assert_eq!(delay(3601), Err(OutputError::InvalidPolicy));
    assert_eq!(claimed(false, "active"), Err(OutputError::LostClaim));
    assert_eq!(claimed(true, "deleting"), Err(OutputError::ProjectDeleting));
    assert_eq!(retained_write(0, true), Err(OutputError::Expired));
    assert_eq!(retained_write(1, false), Ok(()));
    assert!(check_batch(0).is_err());
    let (ran, receipt) = queued().dispatch().finish();
    let mut e = evidence(&ran.execution(&receipt)).unwrap();
    e.simulated = true;
    assert_eq!(
        prepare_output(&ran.op, e, None, OperationId::generate(), 100, 10, false).err(),
        Some(OutputError::SimulationDenied)
    );
}

#[test]
fn cleanup_is_recorded_once_and_of_the_frozen_manifest() {
    let (ran, receipt) = queued().dispatch().finish();
    let e = evidence(&ran.execution(&receipt)).unwrap();
    let (work, _) =
        prepare_output(&ran.op, evidence(&ran.execution(&receipt)).unwrap(), None, OperationId::generate(), 100, 10, false)
            .unwrap();
    let frozen = || {
        let w = OutputWork { ticket: work.ticket.clone(), plans: None, receipt: receipt.clone(), simulated: false };
        manifest("expired", &e, Some(w), &Json::List(vec![]), Column::Absent).unwrap()
    };
    assert_eq!(eligible_at(&frozen()).unwrap(), 180 * SECOND);
    assert_eq!(prepare_output_cleanup(&Column::Absent, None, &frozen()).unwrap(), 180 * SECOND);
    assert!(prepare_output_cleanup(&Column::Value(frozen()), Some(1), &frozen()).is_err());
    let document = parse(r#"{"kind":"no_uploads_authorized"}"#);
    let inventory = |completed, receipt: Option<&Json>| CleanupInventory {
        manifest: Column::Value(frozen()),
        eligible_at: Some(180 * SECOND),
        completed,
        receipt: receipt.map(copy),
    };
    let none = CleanupCompletion::NoUploadsAuthorized;
    assert!(none.validate(&frozen(), true).is_ok());
    assert!(matches!(
        complete_output_cleanup(&inventory(false, None), "expired", &frozen(), &none, &document, true, false),
        Ok(CleanupStep::Record)
    ));
    assert!(matches!(
        complete_output_cleanup(&inventory(true, Some(&document)), "expired", &frozen(), &none, &document, true, false),
        Ok(CleanupStep::AlreadyRecorded)
    ));
    let other = parse(r#"{"kind":"other"}"#);
    assert!(
        complete_output_cleanup(&inventory(true, Some(&other)), "expired", &frozen(), &none, &document, true, false)
            .is_err()
    );
    let retired = CleanupCompletion::Retired {
        stdout: Box::new(OutputRetirement { previous: None }),
        stderr: Box::new(OutputRetirement { previous: None }),
    };
    // Nothing was planned, so nothing can have been retired.
    assert!(retired.validate(&frozen(), true).is_err());
    let foreign = {
        let mut t = work.ticket.clone();
        t.upload_attempt = OperationId::generate();
        let w = OutputWork { ticket: t, plans: None, receipt: receipt.clone(), simulated: false };
        manifest("expired", &e, Some(w), &Json::List(vec![]), Column::Absent).unwrap()
    };
    assert!(!foreign.same(&frozen()));
    assert!(
        complete_output_cleanup(&inventory(false, None), "expired", &foreign, &none, &document, true, false).is_err()
    );
}

#[test]
fn compaction_keeps_what_the_command_is_known_by() {
    let ran = queued();
    let payload = ran.command.document();
    let full = CommandColumns {
        compacted: false,
        summary: Column::Absent,
        payload: &payload,
        command: Some(&ran.command),
        guest_accepts: true,
        digest: Some(DIGEST),
    };
    let kept = command_summary(&full).unwrap();
    assert_eq!((kept.version, kept.digest, kept.output_limit), (1, DIGEST, 1000));
    let direct = CommandSummary::from_input(&ran.command, true, Some(DIGEST)).unwrap();
    assert_eq!(direct.deadline_unix_ms, kept.deadline_unix_ms);
    assert!(CommandSummary::from_input(&ran.command, false, Some(DIGEST)).is_err());
    let digest = execute_digest(ran.op.sandbox_id, &ran.command).as_bytes().to_vec();
    let request = RequestColumns {
        kind: "execute",
        initiator: "project",
        sandbox_id: ran.op.sandbox_id,
        target_operation_id: None,
        payload: &payload,
        request_digest: &digest,
        digest_version: 1,
    };
    assert!(matches!(
        compact_expired_response(&request, &full, "expired", Ok(()), Ok(())),
        Ok(CompactionStep::Compact(Some(x))) if x.digest == DIGEST
    ));
    let wrong = vec![0; 32];
    let forged = RequestColumns { request_digest: &wrong, ..request };
    assert!(matches!(
        compact_expired_response(&forged, &full, "expired", Ok(()), Ok(())),
        Ok(CompactionStep::Defer)
    ));
    // After compaction the summary stands for the payload.
    let empty = Json::Object(vec![]);
    let compacted = CommandColumns {
        compacted: true,
        summary: Column::Value(kept),
        payload: &empty,
        command: None,
        guest_accepts: false,
        digest: None,
    };
    assert_eq!(command_summary(&compacted).unwrap().digest, DIGEST);
}

#[test]
fn streams_follow_a_command_while_it_runs_and_its_archive_after() {
    let ran = queued();
    let receipt = ran.receipt(State::LaunchIntent, None);
    let step = stream_for_project(&ran.execution(&receipt), 60 * SECOND, true).unwrap();
    assert!(matches!(step, StreamStep::Found(v) if matches!(v.source, StreamSource::Pending)));
    let (mut done, receipt) = queued().dispatch().finish();
    done.op.output_status = "published".into();
    done.op.output_expires_at = Some(170 * SECOND);
    assert!(matches!(
        stream_for_project(&done.execution(&receipt), 100 * SECOND, true),
        Ok(StreamStep::Published)
    ));
    assert!(matches!(
        stream_for_project(&done.execution(&receipt), 170 * SECOND, true),
        Ok(StreamStep::Found(v)) if matches!(v.source, StreamSource::Expired)
    ));
}

fn row(id: OperationId, context: Option<Context>) -> PrefixRow {
    PrefixRow { id, eligible: Ok(Some(context)) }
}
fn ids(n: u128) -> Vec<OperationId> {
    (0..n).map(|i| OperationId::from_uuid(0x01996110_7c00_7000_8000_000000000000 + i)).collect()
}

#[test]
fn history_prefixes_stop_at_the_first_operation_that_must_stay() {
    let at = ids(4);
    let c = || Context { allocation_id: AllocationId::from_uuid(1), generation: 1, boot_id: "boot".into() };
    let rows = vec![row(at[0], Some(c())), row(at[1], None), PrefixRow { id: at[2], eligible: Ok(None) }, row(at[3], None)];
    let (through, context) = scan(&rows, None).unwrap();
    assert_eq!((through, context), (Some(at[1]), Some(c())));
    assert_eq!(scan(&vec![], None).unwrap(), (None, None));
    let broken = vec![row(at[0], None), PrefixRow { id: at[1], eligible: Err(HistoryError::Evidence) }];
    assert_eq!(scan(&broken, None), Err(HistoryError::Evidence));
    match prepare_candidate(None, None, &rows).unwrap() {
        CandidateStep::Reserve { through, .. } => assert_eq!(through, at[1]),
        _ => panic!("not reserved"),
    }
    assert!(matches!(prepare_candidate(None, None, &vec![]), Ok(CandidateStep::Idle)));
    // A pending reservation is claimed again as it is, whatever has become eligible since.
    let pending = HistoryRow {
        completed_through: None,
        reserved_through: at[0],
        context: Column::Value(c()),
        request: Column::Absent,
    };
    assert!(matches!(prepare_candidate(Some(&pending), None, &rows), Ok(CandidateStep::Reclaim)));
    assert_eq!((name(Domain::Commands), name(Domain::Files)), ("commands", "files"));
    assert_eq!((history_limit(Domain::Commands), history_limit(Domain::Files)), (33, 17));
    assert_eq!(check_history(0, 30), Err(HistoryError::Policy));
    assert_eq!(admission_floor(false, Some(at[1]), &vec![at[2], at[0]]), Ok(Some(at[2])));
    assert_eq!(admission_floor(true, None, &vec![]).is_err(), true);
}

#[test]
fn history_is_bound_retired_and_confirmed_under_one_claim() {
    let op = operation("execute", "succeeded", None);
    let a = allocation(&op);
    let at = ids(1);
    let c = Context { allocation_id: a.id, generation: 1, boot_id: "boot".into() };
    let claim = || Claim { allocation_id: a.id, domain: Domain::Commands, revision: 3, expires_at: 90 * SECOND };
    let rows = vec![row(at[0], Some(c.clone()))];
    let h = HistoryRow {
        completed_through: None,
        reserved_through: at[0],
        context: Column::Value(c.clone()),
        request: Column::Absent,
    };
    let request = match claimed_candidate(&a, claim(), &h, &rows).unwrap() {
        Preparation::Retire { request, .. } => request,
        Preparation::Binding { .. } => panic!("unbound"),
    };
    let barrier = request.barrier.as_ref().unwrap();
    assert_eq!((barrier.through, barrier.version), (at[0], 1));
    assert!(barrier.context.same(&c));
    let h = HistoryRow { request: Column::Value(request), ..h };
    let sent = || match claimed_candidate(&a, claim(), &h, &rows).unwrap() {
        Preparation::Retire { request, .. } => request,
        Preparation::Binding { .. } => panic!("unbound"),
    };
    let o = |observed, simulated| HistoryObservation {
        request: Some(sent()),
        completed: Some(Barrier { version: 1, context: c.clone(), domain: Domain::Commands, through: at[0] }),
        simulated,
        observed_unix_ms: observed,
    };
    assert_eq!(complete_history(&a, &claim(), &h, &rows, &o(60_000, false), 60 * SECOND, false), Ok(()));
    assert!(complete_history(&a, &claim(), &h, &rows, &o(60_000, true), 60 * SECOND, false).is_err());
    assert!(complete_history(&a, &claim(), &h, &rows, &o(10_000, false), 60 * SECOND, false).is_err());
    assert_eq!(fresh(60_000, &claim(), 60 * SECOND), Ok(()));
    assert!(fresh(91_000, &claim(), 89 * SECOND).is_err());
    let unbound = HistoryRow {
        completed_through: None,
        reserved_through: at[0],
        context: Column::Absent,
        request: Column::Absent,
    };
    let plain = vec![row(at[0], None)];
    let inspection = match claimed_candidate(&a, claim(), &unbound, &plain).unwrap() {
        Preparation::Binding { request, .. } => request,
        Preparation::Retire { .. } => panic!("bound"),
    };
    let seen = HistoryBindingObservation {
        request: Some(LeaseInspection { ownership: inspection.ownership }),
        context: Some(w::Context { allocation_id: a.id.to_string(), generation: 1, boot_id: "boot".into() }),
        simulated: false,
        observed_unix_ms: 60_000,
    };
    let (bound, context) = bind_history(&a, &claim(), &unbound, &plain, seen, 60 * SECOND, false).unwrap();
    assert!(context.same(&c) && bound.barrier.unwrap().through == at[0]);
}

#[test]
fn released_history_is_confirmed_without_a_guest() {
    let op = operation("destroy", "succeeded", None);
    let a = allocation(&op);
    let at = ids(3);
    let rows = vec![row(at[0], None)];
    let none = VerifiedFloors { released: None, recorded: None, live: None };
    assert_eq!(floor(None, &none), Ok(None));
    assert!(matches!(
        released_candidate(None, &none, &rows),
        Ok(CandidateStep::Reserve { through, .. }) if through == at[0]
    ));
    let h = ReleasedRow {
        completed_through: None,
        start_after: None,
        reserved_through: at[0],
        context: Column::Absent,
        request: Column::Absent,
    };
    let claim = || ReleasedClaim {
        claim: Claim { allocation_id: a.id, domain: Domain::Files, revision: 3, expires_at: 90 * SECOND },
        reporting_epoch: 5,
    };
    let p = released_claim(&a, &h, claim(), &rows).unwrap();
    assert_eq!((p.request.reporting_epoch, p.request.through.as_str()), (5, at[0].to_string().as_str()));
    let h = ReleasedRow { request: Column::Value(p.request), ..h };
    let o = |through: &str, meaning| ReleasedHistoryObservation {
        request: Some(released_claim(&a, &h, claim(), &rows).unwrap().request),
        completed_through: through.into(),
        release_state: ObservedState { number: 4, meaning: Some(meaning) },
        simulated: false,
        observed_unix_ms: 60_000,
    };
    let done = |o| complete_released_history(&a, &h, &claim(), &rows, &o, 60 * SECOND, false);
    assert_eq!(done(o(&at[0].to_string(), AllocationState::Released)), Ok(()));
    assert!(done(o(&at[0].to_string(), AllocationState::Ready)).is_err());
    assert!(done(o(&at[1].to_string(), AllocationState::Released)).is_err());
}

#[test]
fn only_settled_commands_are_eligible_for_retirement() {
    assert!(terminal("succeeded") && terminal("failed") && terminal("cancelled") && !terminal("unknown"));
    let (mut ran, receipt) = queued().dispatch().finish();
    let payload = ran.command.document();
    let eligible = |ran: &Ran, cleanup| {
        command_eligible(
            &CommandRows {
                columns: CommandColumns {
                    compacted: false,
                    summary: Column::Absent,
                    payload: &payload,
                    command: Some(&ran.command),
                    guest_accepts: true,
                    digest: Some(DIGEST),
                },
                execution: ran.execution(&receipt),
                has_ticket: true,
                cleanup,
            },
            &ran.pinned,
            false,
        )
    };
    // Output that is still pending keeps the command.
    assert!(matches!(eligible(&ran, Ok(())), Ok(None)));
    ran.op.output_status = "expired".into();
    assert!(matches!(eligible(&ran, Ok(())), Ok(Some(Some(c))) if c.same(&receipt.context)));
    assert!(matches!(eligible(&ran, Err(OutputError::Corrupt)), Err(HistoryError::Evidence)));
    ran.op.status = "failed".into();
    assert!(matches!(eligible(&ran, Ok(())), Err(HistoryError::Evidence)));
}

// A retired allocation: its create, its destroy with the release evidence, the
// permit and the rows.
struct Retired {
    destroy: OperationRow,
    allocation: AllocationRow,
    permit: PermitRow,
}
fn retired() -> Retired {
    let mut destroy = operation("destroy", "succeeded", Some("destroyed"));
    destroy.attempt_count = 1;
    destroy.completed_at = Some(SECOND);
    destroy.lease_expires_at = None;
    let mut a = allocation(&destroy);
    let evidence = parse(&format!(
        "{{\"phase\":\"allocation_released\",\"operation_id\":\"{}\",\"host_id\":\"{}\",\"project_id\":\"{}\",\"sandbox_id\":\"{}\",\"allocation_id\":\"{}\",\"claim_revision\":4,\"generation\":1,\"supervisor_epoch\":2,\"observed_unix_ms\":5,\"simulated\":false}}",
        destroy.id.to_string(),
        a.host_id.to_string(),
        a.project_id.to_string(),
        a.sandbox_id.to_string(),
        a.id.to_string()
    ));
    destroy.attempt_receipts = Json::List(vec![Json::Null, copy(&evidence)]);
    a.status = "released".into();
    a.released_at = Some(SECOND);
    a.release_evidence = evidence;
    let permit = PermitRow {
        host: a.host_id,
        project: a.project_id,
        sandbox: a.sandbox_id,
        allocation: a.id,
        create_operation: OperationId::generate(),
        generation: 1,
        original_epoch: 2,
        serial: 6,
    };
    Retired { destroy, allocation: a, permit }
}
const CLOSED: ScopeEvidence = ScopeEvidence {
    release_simulated: false,
    commands: DomainClosure::Empty,
    commands_simulated: false,
    files: DomainClosure::Empty,
    files_simulated: false,
};
impl Retired {
    fn permit(&self) -> Permit {
        permit(&self.permit).unwrap()
    }
    fn scope(&self, retirement: OperationId) -> Intent {
        frozen_scope(self.permit(), retirement, &self.allocation.release_evidence, &CLOSED, false).unwrap()
    }
    fn row(&self, intent: &Intent) -> RetirementRow {
        RetirementRow {
            allocation_id: self.allocation.id,
            retirement_id: intent.retirement,
            intent: Column::Value(intent.clone()),
            reporting_epoch: 3,
            claim_revision: 1,
            lease_expires_at: Some(90 * SECOND),
            busy: false,
            metadata_completion: Column::Absent,
            metadata_completed_at: None,
            metadata_claim_expires_at: None,
            forget_completion: Column::Absent,
            forgotten_at: None,
            forget_claim_expires_at: None,
            forget_revision: 0,
            forget_epoch: None,
            forget_lease_expires_at: None,
        }
    }
    fn release(&self, allow_simulated: bool, create_settled: bool) -> Result<bool, RetirementError> {
        release(&self.allocation, &self.permit(), Some(&self.destroy), create_settled, allow_simulated, 3)
    }
}

#[test]
fn release_evidence_must_be_retained_complete_and_physical() {
    let mut r = retired();
    assert_eq!(releasing_operation(&r.allocation), Ok(r.destroy.id));
    assert_eq!(r.release(false, true), Ok(false));
    assert_eq!(r.release(false, false), Err(RetirementError::Evidence));
    assert_eq!(
        release(&r.allocation, &r.permit(), None, true, false, 3),
        Err(RetirementError::Evidence)
    );
    // The operation is named by a version 7 identity, in its public text.
    let released = copy(&r.allocation.release_evidence);
    for name in ["op_00000000-0000-4000-8000-000000000001", "alc_00000000-0000-7000-8000-000000000001", "op"] {
        let mut named = value(&released);
        named["operation_id"] = name.into();
        r.allocation.release_evidence = parse(&named.to_string());
        assert_eq!(releasing_operation(&r.allocation), Err(RetirementError::Evidence));
        assert_eq!(r.release(true, true), Err(RetirementError::Evidence));
    }
    r.allocation.release_evidence = released;
    let mut simulated = value(&r.allocation.release_evidence);
    simulated["simulated"] = true.into();
    r.allocation.release_evidence = parse(&simulated.to_string());
    // Evidence that the operation never retained proves nothing.
    assert_eq!(r.release(true, true), Err(RetirementError::Evidence));
    r.destroy.attempt_receipts = Json::List(vec![copy(&r.allocation.release_evidence)]);
    assert_eq!(r.release(true, true), Ok(true));
    assert_eq!(r.release(false, true), Err(RetirementError::Evidence));
    r.allocation.status = "running".into();
    assert_eq!(r.release(true, true), Err(RetirementError::Ineligible));
    assert_eq!(consumers(true), Err(RetirementError::Ineligible));
    assert_eq!(consumers(false), Ok(()));
}

#[test]
fn domains_close_only_at_their_furthest_proven_prefix() {
    let at = ids(3);
    let proof = |i: usize, simulated: &str| PrefixProof {
        through: at[i],
        completion: parse(&format!("{{\"simulated\":{simulated}}}")),
    };
    let rows = vec![row(at[0], None), row(at[1], None)];
    assert_eq!(close_batch(&rows, None), Ok(Some(at[1])));
    assert_eq!(close_batch(&vec![], Some(at[2])), Ok(Some(at[2])));
    let open = vec![row(at[0], None), PrefixRow { id: at[1], eligible: Ok(None) }];
    assert_eq!(close_batch(&open, None), Err(RetirementError::Ineligible));
    assert_eq!(domain(None, &vec![], &vec![], false), Ok((DomainClosure::Empty, false)));
    assert_eq!(
        domain(Some(at[1]), &vec![proof(1, "false"), proof(0, "false")], &vec![at[1]], false),
        Ok((DomainClosure::Retired { through: at[1] }, false))
    );
    assert_eq!(domain(Some(at[1]), &vec![proof(0, "false")], &vec![], false), Err(RetirementError::Ineligible));
    assert_eq!(
        domain(Some(at[1]), &vec![proof(1, "false")], &vec![at[2]], false),
        Err(RetirementError::Ineligible)
    );
    assert_eq!(domain(None, &vec![], &vec![at[0]], false), Err(RetirementError::Ineligible));
    assert_eq!(domain(Some(at[1]), &vec![proof(1, "true")], &vec![], false), Err(RetirementError::Evidence));
    assert_eq!(
        domain(Some(at[1]), &vec![proof(1, "true")], &vec![], true),
        Ok((DomainClosure::Retired { through: at[1] }, true))
    );
    assert_eq!(domain(Some(at[1]), &vec![proof(1, "null")], &vec![], true), Err(RetirementError::Evidence));
}

#[test]
fn a_retirement_freezes_its_scope_and_retries_keep_it() {
    let r = retired();
    let retirement = OperationId::generate();
    let i = r.scope(retirement);
    let text = canonical_text(&r.allocation.release_evidence);
    assert_eq!(i.release_evidence_sha256, hex::encode(sha2::Sha256::digest(text.as_bytes())));
    assert_eq!(digest_release(&r.allocation.release_evidence), i.release_evidence_sha256);
    assert!(!i.simulated && i.permit == r.permit());
    let allowed = frozen_scope(r.permit(), retirement, &r.allocation.release_evidence, &CLOSED, true).unwrap();
    assert!(allowed.simulated);
    let prepare = |old: Option<&RetirementRow>, epoch| {
        prepare_allocation_retirement(Some(&r.allocation), Some(&r.permit), old, epoch)
    };
    assert!(matches!(prepare(None, 3), Ok(RetirementStep::Proceed { retirement: None, .. })));
    let row = r.row(&i);
    assert!(matches!(
        prepare(Some(&row), 3),
        Ok(RetirementStep::Proceed { retirement: Some(id), .. }) if id == retirement
    ));
    let busy = RetirementRow { busy: true, ..r.row(&i) };
    assert!(matches!(prepare(Some(&busy), 3), Ok(RetirementStep::Held)));
    assert!(matches!(prepare(None, 1), Err(RetirementError::Evidence)));
    assert!(matches!(
        prepare_allocation_retirement(None, Some(&r.permit), None, 3),
        Err(RetirementError::Ineligible)
    ));
    assert_eq!(confirm_scope(None, &i), Ok(()));
    assert_eq!(confirm_scope(Some(&row), &i), Ok(()));
    assert_eq!(confirm_scope(Some(&row), &allowed), Err(RetirementError::Evidence));
    let q = claimed_request(i, 3, 1, 90 * SECOND).unwrap();
    assert_eq!((q.reporting_epoch, q.revision, q.expires_unix_ms), (3, 1, 90_000));
    assert_eq!(check_policy(1, 301), Err(RetirementError::Policy));
    assert_eq!(check_policy(1, 300), Ok(()));
    assert_eq!(check_epoch(0), Err(RetirementError::Policy));
    let mut negative = retired().permit;
    negative.serial = -1;
    assert_eq!(permit(&negative), Err(RetirementError::Evidence));
}

#[test]
fn completions_are_recorded_once_and_replayed_exactly() {
    let r = retired();
    let i = r.scope(OperationId::generate());
    let row = r.row(&i);
    let q = claimed_request(i.clone(), 3, 1, 90 * SECOND).unwrap();
    let o = AllocationMetadataObservation {
        request: Some(EncodedRequest { request_json: q.encode().unwrap() }),
        observed_unix_ms: 60_000,
    };
    assert_eq!(check_completion(&q, &o), Ok(()));
    assert_eq!(
        check_completion(&q, &AllocationMetadataObservation { request: None, observed_unix_ms: 60_000 }),
        Err(RetirementError::Evidence)
    );
    assert_eq!(check_physical(&i), Ok(()));
    let rows = |row| CompletionRows {
        host_current: true,
        allocation: Some(&r.allocation),
        issued: Some(&r.permit),
        retirement: Some(row),
    };
    assert!(matches!(
        complete_allocation_retirement(&rows(&row), &q, 60_000),
        Ok(CompletionStep::Prove { expires_at }) if expires_at == 90 * SECOND
    ));
    let stale = claimed_request(i.clone(), 3, 2, 90 * SECOND).unwrap();
    assert!(matches!(
        complete_allocation_retirement(&rows(&row), &stale, 60_000),
        Err(RetirementError::LostClaim)
    ));
    let e: MetadataEvidence = accept_completion(&q, &r.scope(i.retirement), 60_000, 61 * SECOND).unwrap();
    assert_eq!(accept_completion(&q, &i, 60_000, 90 * SECOND).err(), Some(RetirementError::LostClaim));
    assert_eq!(accept_completion(&q, &i, 60_000, 80 * SECOND).err(), Some(RetirementError::Evidence));
    let mut other = i.clone();
    other.simulated = true;
    assert_eq!(accept_completion(&q, &other, 60_000, 61 * SECOND).err(), Some(RetirementError::Evidence));
    let after = RetirementRow {
        lease_expires_at: None,
        metadata_completion: Column::Value(e),
        metadata_completed_at: Some(61 * SECOND),
        metadata_claim_expires_at: Some(90 * SECOND),
        ..r.row(&i)
    };
    let kept = retained(&after, &r.permit(), &r.allocation).unwrap().unwrap();
    assert_eq!((kept.observed_unix_ms, kept.completed_at), (60_000, 61 * SECOND));
    assert!(matches!(
        complete_allocation_retirement(&rows(&after), &q, 60_000),
        Ok(CompletionStep::Saved(c)) if c.request == q
    ));
    assert!(matches!(
        complete_allocation_retirement(&rows(&after), &q, 60_001),
        Err(RetirementError::Evidence)
    ));
    assert!(matches!(
        allocation_retirement_completion(&i, Some(&after), Some(&r.allocation), Some(&r.permit)),
        Ok(Some(c)) if c == kept
    ));
    assert!(matches!(allocation_retirement_completion(&i, None, None, None), Ok(None)));
    // A completion whose allocation is no longer the released one is not whole.
    let mut moved = retired();
    moved.allocation.id = r.allocation.id;
    assert!(retained(&after, &r.permit(), &moved.allocation).is_err());
}

#[test]
fn a_whole_request_is_repeated_after_its_claim_and_its_epoch() {
    let r = retired();
    let i = r.scope(OperationId::generate());
    let q = claimed_request(i.clone(), 3, 1, 90 * SECOND).unwrap();
    let observe = |q: &Request, observed_unix_ms| AllocationMetadataObservation {
        request: Some(EncodedRequest { request_json: q.encode().unwrap() }),
        observed_unix_ms,
    };
    let open = r.row(&i);
    let after = RetirementRow {
        lease_expires_at: None,
        metadata_completion: Column::Value(accept_completion(&q, &i, 60_000, 61 * SECOND).unwrap()),
        metadata_completed_at: Some(61 * SECOND),
        metadata_claim_expires_at: Some(90 * SECOND),
        ..r.row(&i)
    };
    let ask = |q: &Request, o: &AllocationMetadataObservation, row| {
        repeated_completion(q, o, row, Some(&r.allocation), Some(&r.permit))
    };
    // Nothing is retained yet, so the claim decides.
    assert!(matches!(ask(&q, &observe(&q, 60_000), Some(&open)), Ok(None)));
    assert!(matches!(ask(&q, &observe(&q, 60_000), None), Ok(None)));
    for _ in 0..2 {
        let answer = ask(&q, &observe(&q, 60_000), Some(&after)).unwrap().unwrap();
        assert_eq!((answer.observed_unix_ms, answer.completed_at), (60_000, 61 * SECOND));
        assert_eq!(answer.request, q);
        assert_eq!(answer.clone(), answer);
    }
    // The locked decision on the same rows fails once the host has moved on.
    let moved = CompletionRows {
        host_current: false,
        allocation: Some(&r.allocation),
        issued: Some(&r.permit),
        retirement: Some(&after),
    };
    assert!(matches!(complete_allocation_retirement(&moved, &q, 60_000), Err(RetirementError::LostClaim)));
    let refused = |q: &Request, o: AllocationMetadataObservation| {
        assert!(matches!(ask(q, &o, Some(&after)), Err(RetirementError::Evidence)));
    };
    refused(&q, observe(&q, 60_001));
    refused(&q, observe(&q, 0));
    refused(&q, AllocationMetadataObservation { request: None, observed_unix_ms: 60_000 });
    let later = claimed_request(i.clone(), 3, 2, 90 * SECOND).unwrap();
    refused(&later, observe(&later, 60_000));
    refused(&q, observe(&later, 60_000));
    let mut simulated = q.clone();
    simulated.intent.simulated = true;
    refused(&simulated, observe(&q, 60_000));
    let mut unclaimed = q.clone();
    unclaimed.revision = 0;
    refused(&unclaimed, observe(&q, 60_000));
}

#[test]
fn scans_commit_skip_retry_or_fail_behind_a_candidate() {
    assert_eq!(after_candidate(&Ok(true)), CandidateNext::Commit);
    assert_eq!(after_candidate(&Ok(false)), CandidateNext::Skip);
    assert_eq!(after_candidate(&Err(HistoryError::Evidence)), CandidateNext::Retry);
    assert_eq!(after_candidate(&Err(HistoryError::LostClaim)), CandidateNext::Fail);
    assert_eq!(after_candidate(&Err(HistoryError::Policy)), CandidateNext::Fail);
}

#[test]
fn simulated_transfers_are_retired_only_with_the_opt_in() {
    let mut op = operation("file_write", "failed", Some("file_not_started"));
    let upload = Upload { operation_id: op.id, path: "dir/file".into(), size: 10, sha256: [4; 32], mode: 0o644 };
    let plan = SourcePlan {
        version: 1,
        owner: SourceOwner {
            scope: ReadScope {
                version: 1,
                host_id: HostId::generate(),
                host_epoch: 1,
                project_id: op.project_id,
                sandbox_id: op.sandbox_id,
                allocation_id: AllocationId::generate(),
                generation: 1,
            },
            operation_id: op.id,
        },
        upload,
        source_attempt: OperationId::generate(),
        created_unix_ms: 1,
        write_expires_unix_ms: 2,
        expires_unix_ms: 3,
        delete_after_unix_ms: 4,
    };
    let record = Column::Value(FileRecord::fenced(plan.upload.digest().unwrap()));
    let rows = FileRows { retired: true, plan: Some(&plan), begun: true, record: &record };
    op.error = Some(parse(r#"{"simulated":true}"#));
    assert_eq!(file_eligible(&op, &rows, true), Ok(Some(None)));
    assert_eq!(file_eligible(&op, &rows, false), Err(HistoryError::Evidence));
    op.error = Some(parse(r#"{"simulated":false}"#));
    assert_eq!(file_eligible(&op, &rows, false), Ok(Some(None)));
    let unretired = FileRows { retired: false, plan: None, begun: true, record: &record };
    assert_eq!(file_eligible(&op, &unretired, true), Ok(None));
}

#[test]
fn published_references_are_exactly_two() {
    let unreadable = |items| matches!(published_pair(items), Column::Unreadable);
    let (ran, receipt) = queued().dispatch().finish();
    let e = evidence(&ran.execution(&receipt)).unwrap();
    let (work, _) = prepare_output(&ran.op, e, None, OperationId::generate(), 100, 10, false).unwrap();
    let r = refs(&work.ticket, &receipt);
    let both = vec![Some(r.stdout), Some(r.stderr)];
    match published_pair(Some(both.clone())) {
        Column::Value(refs) => {
            assert_eq!(Some(refs.stdout), both[0]);
            assert_eq!(Some(refs.stderr), both[1]);
        }
        _ => panic!("two references were not read"),
    }
    assert!(unreadable(None) && unreadable(Some(vec![])));
    assert!(unreadable(Some(vec![both[0].clone()])));
    assert!(unreadable(Some(vec![both[0].clone(), None])));
    assert!(unreadable(Some(vec![both[0].clone(), both[1].clone(), both[0].clone()])));
}

#[test]
fn hosts_forget_only_what_is_completed() {
    let r = retired();
    let i = r.scope(OperationId::generate());
    let q = claimed_request(i.clone(), 3, 1, 90 * SECOND).unwrap();
    let e = accept_completion(&q, &i, 60_000, 61 * SECOND).unwrap();
    let completed = || RetirementRow {
        lease_expires_at: None,
        metadata_completion: Column::Value(MetadataEvidence {
            version: e.version,
            request: e.request.clone(),
            observed_unix_ms: e.observed_unix_ms,
        }),
        metadata_completed_at: Some(61 * SECOND),
        metadata_claim_expires_at: Some(90 * SECOND),
        ..r.row(&i)
    };
    let rows = |row| ForgetRows { allocation: Some(&r.allocation), issued: Some(&r.permit), retirement: Some(row) };
    let open = r.row(&i);
    assert!(matches!(
        prepare_allocation_forgetting(Some(6), &rows(&open), r.permit.host, 3, 100 * SECOND),
        Err(RetirementError::Ineligible)
    ));
    let done = completed();
    let metadata = match prepare_allocation_forgetting(Some(6), &rows(&done), r.permit.host, 3, 100 * SECOND) {
        Ok(ForgetStep::Prove { metadata, .. }) => metadata,
        _ => panic!("not provable"),
    };
    assert!(matches!(
        prepare_allocation_forgetting(Some(5), &rows(&done), r.permit.host, 3, 100 * SECOND),
        Err(RetirementError::Evidence)
    ));
    let f = forget_request(&i, metadata, 3, 1, 190 * SECOND).unwrap();
    assert_eq!((f.claim.expires_unix_ms, f.version), (190_000, 1));
    let claimed = RetirementRow {
        forget_revision: 1,
        forget_epoch: Some(3),
        forget_lease_expires_at: Some(190 * SECOND),
        ..completed()
    };
    assert!(matches!(
        prepare_allocation_forgetting(Some(6), &rows(&claimed), r.permit.host, 3, 100 * SECOND),
        Ok(ForgetStep::Held)
    ));
    let o = |state| AllocationForgetObservation {
        request: Some(EncodedRequest { request_json: f.encode().unwrap() }),
        state: Some(state),
        observed_unix_ms: 120_000,
    };
    assert_eq!(check_forgetting(&f, &o(AllocationForgetState::Forgotten)), Ok(()));
    assert_eq!(check_forgetting(&f, &o(AllocationForgetState::Other)), Err(RetirementError::Evidence));
    assert_eq!(forget_state(None), Err(RetirementError::Evidence));
    assert!(matches!(
        complete_allocation_forgetting(true, &rows(&claimed), &f, &o(AllocationForgetState::Retired)),
        Ok(ForgetDecision::Prove { expires_at }) if expires_at == 190 * SECOND
    ));
    assert!(matches!(
        complete_allocation_forgetting(false, &rows(&claimed), &f, &o(AllocationForgetState::Retired)),
        Err(RetirementError::LostClaim)
    ));
    let evidence = accept_forgetting(&i, &f, &o(AllocationForgetState::Forgotten)).unwrap();
    let after = RetirementRow {
        forget_completion: Column::Value(evidence),
        forgotten_at: Some(121 * SECOND),
        forget_claim_expires_at: Some(190 * SECOND),
        forget_lease_expires_at: None,
        forget_revision: 1,
        forget_epoch: Some(3),
        ..completed()
    };
    assert!(matches!(
        complete_allocation_forgetting(true, &rows(&after), &f, &o(AllocationForgetState::Forgotten)),
        Ok(ForgetDecision::Saved(x)) if x.state == AllocationForgetState::Forgotten && x.request == f
    ));
    assert!(matches!(
        complete_allocation_forgetting(true, &rows(&after), &f, &o(AllocationForgetState::Retired)),
        Err(RetirementError::Evidence)
    ));
    assert!(matches!(allocation_forgetting_completion(&i, &rows(&after)), Ok(Some(_))));
    let repeat = |row, state| repeated_forgetting(&f, &o(state), &rows(row));
    assert!(matches!(repeat(&claimed, AllocationForgetState::Forgotten), Ok(None)));
    assert!(matches!(
        repeat(&after, AllocationForgetState::Forgotten),
        Ok(Some(x)) if x.request == f && x.completed_at == 121 * SECOND
    ));
    assert!(matches!(repeat(&after, AllocationForgetState::Retired), Err(RetirementError::Evidence)));
    assert!(matches!(repeat(&after, AllocationForgetState::Other), Err(RetirementError::Evidence)));
    let missing = ForgetRows { allocation: None, issued: None, retirement: None };
    assert!(matches!(allocation_forgetting_completion(&i, &missing), Ok(None)));
}

#[test]
fn scheduling_hints_are_of_their_own_allocation() {
    let r = retired();
    let i = r.scope(OperationId::generate());
    let hint = next_allocation_retirement(r.allocation.id, r.permit.host, Column::Value(i.clone())).unwrap();
    assert_eq!(hint.intent, Some(i.clone()));
    assert!(next_allocation_retirement(r.allocation.id, r.permit.host, Column::Absent).unwrap().intent.is_none());
    assert!(next_allocation_retirement(AllocationId::generate(), r.permit.host, Column::Value(i)).is_err());
    assert!(next_allocation_retirement(r.allocation.id, r.permit.host, Column::Unreadable).is_err());
}
