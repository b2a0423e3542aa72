//! Durable command admission and dispatch intent, independent of lifecycle ownership.
//! Nothing here executes a command; only the dispatch action permits a first request.
use crate::allocation_authority::same_digest;
use crate::api::{command_document, same_command, CommandInput};
use crate::canonical::Json;
use crate::command::{command_for, MAX_DURATION_MS, MAX_OUTPUT};
use crate::digest::{hex_encode, hex_text};
use crate::document::{
    copy_json, field, has_integer, has_text, is_integer, is_text, item, json_flag, json_integer, json_list1, json_list2,
    json_optional_integer, json_text, lemma_value_of_push, number, optional_flag, optional_integer, text_of, Doc, Members,
};
use crate::guest_model::{same_bytes, Execute, Output, Receipt, State};
use crate::guest_wire::{receipt_refusal, receipt_written};
use crate::idempotency::{IdempotencyKey, RequestDigest};
use crate::ids::{id_text, AllocationId, HostId, Id, OperationId, ProjectId, SandboxId};
use crate::json::{decimal, decimal_text};
use crate::store::clock::{has_passed, millis, millis_of, passed, stamp, stamp_of, whole, whole_millis};
use crate::store::dispatch::{
    evidence, evidence_field, evidence_members, lemma_evidence_field, maybe_dispatched, outcome, owner_of, ownership, DispatchError,
};
use crate::store::retries::{digest_request, is_same_content, request_digest, same_content};
use crate::store::rows::{AllocationRow, OperationRow, RetryRow, SandboxRow};
use crate::supervisor::{is_owner, owned_by, CommandObservation, Ownership};
use crate::text::same_text;
use crate::token::TokenKeyId;
use vstd::prelude::*;
use vstd::string::*;

verus! {

pub struct ExecuteCommand {
    pub project_id: ProjectId,
    pub sandbox_id: SandboxId,
    pub key_id: TokenKeyId,
    pub idempotency_key: IdempotencyKey,
    pub command: CommandInput,
}

impl Clone for ExecuteCommand {
    fn clone(&self) -> (r: Self)
        ensures
            r == (ExecuteCommand { command: r.command, ..*self }),
            same_command(r.command, self.command),
    {
        ExecuteCommand {
            project_id: self.project_id,
            sandbox_id: self.sandbox_id,
            key_id: self.key_id.clone(),
            idempotency_key: self.idempotency_key.clone(),
            command: self.command.clone(),
        }
    }
}

#[derive(Debug, PartialEq, Eq)]
pub enum ExecuteAdmission {
    Accepted { operation_id: OperationId, status: String },
    NotFound,
    Gone,
    Unauthorized,
    DigestConflict,
    InvalidCommand,
    InvalidDeadline,
    NotRunning,
    Busy(OperationId),
}

pub enum ExecuteAction {
    Dispatch { owner: Ownership, command: Execute },
    Inspect { owner: Ownership, digest: [u8; 32] },
    /// Proven never dispatched. No VM reservation or lifecycle state changes.
    Rejected,
}

pub open spec fn execute_path(sandbox: SandboxId) -> Seq<char> {
    "/v1/sandboxes/"@ + id_text("sbx"@, sandbox.value) + "/execute"@
}

/// What the digest of an execute request may be.
pub open spec fn execute_digested(sandbox: SandboxId, command: &CommandInput, r: RequestDigest) -> bool {
    exists|body: Json|
        #[trigger] command_document(*command, body) && r.bytes == request_digest(
            "POST"@,
            execute_path(sandbox),
            body@,
        )
}

/// The digest of an execute request: its sandbox's path and the whole command.
pub fn execute_digest(sandbox: SandboxId, command: &CommandInput) -> (r: RequestDigest)
    ensures
        execute_digested(sandbox, command, r),
{
    let mut path: String = "/v1/sandboxes/".to_owned();
    path.append(sandbox.to_string().as_str());
    path.append("/execute");
    let body: Json = command.document();
    assert(command_document(*command, body));
    digest_request("POST", path.as_str(), &body)
}

/// How an earlier use of the key answers the request.
pub open spec fn execute_retry(row: RetryRow, digest: RequestDigest, a: ExecuteAdmission) -> bool {
    if same_content(row, digest) {
        a matches ExecuteAdmission::Accepted { operation_id, status } && operation_id == row.id && status@ == row.status@
    } else {
        a is DigestConflict
    }
}

/// What a key that may already exist may resolve to.
pub open spec fn execute_resolved(
    row: Option<&RetryRow>,
    digest: &RequestDigest,
    r: Option<ExecuteAdmission>,
) -> bool {
    match row {
        None => r is None,
        Some(row) => r matches Some(a) && execute_retry(*row, *digest, a),
    }
}

pub fn existing(row: Option<&RetryRow>, digest: &RequestDigest) -> (r: Option<ExecuteAdmission>)
    ensures
        execute_resolved(row, digest, r),
{
    match row {
        None => None,
        Some(row) => Some(
            if is_same_content(row, digest) {
                ExecuteAdmission::Accepted { operation_id: row.id, status: row.status.clone() }
            } else {
                ExecuteAdmission::DigestConflict
            },
        ),
    }
}

/// What an execute request is decided on. `authorized` is whether the project is
/// active and the credential live, where there is such a project; `old` an
/// earlier use of the key; `sandbox` the project's sandbox; `active` a command of
/// the sandbox that has not finished; `now` database time; `ready` whether the
/// allocation is running under a live lease on a ready, recently seen host at the
/// sandbox's generation, where the sandbox has the allocation.
pub struct ExecuteRows<'a> {
    pub authorized: Option<bool>,
    pub old: Option<&'a RetryRow>,
    pub sandbox: Option<&'a SandboxRow>,
    pub active: Option<OperationId>,
    pub now: i128,
    pub ready: Option<bool>,
}

pub enum ExecuteDecision {
    Settled(ExecuteAdmission),
    /// Queue the command against this allocation, until this stamp.
    Admit { allocation: AllocationId, deadline: i128 },
}

/// The time left to a deadline is positive and within six hours, and the sandbox
/// has not expired.
pub open spec fn deadline_in_range(deadline_ms: i64, expires_at: Option<i128>, now: i128) -> bool {
    1 <= deadline_ms - whole_millis(now as int) <= MAX_DURATION_MS && !passed(expires_at, now)
}

/// The answer for a sandbox that cannot take a command now.
pub open spec fn sandbox_unready(rows: ExecuteRows, sandbox: SandboxRow, deadline_ms: i64) -> Option<
    Result<ExecuteAdmission, DispatchError>,
> {
    if sandbox.desired_state@ == "destroyed"@ {
        Some(Ok(ExecuteAdmission::Gone))
    } else if sandbox.active_transition_operation_id is Some {
        Some(Ok(ExecuteAdmission::Busy(sandbox.active_transition_operation_id->0)))
    } else if sandbox.observed_state@ != "running"@ || sandbox.current_allocation_id is None {
        Some(Ok(ExecuteAdmission::NotRunning))
    } else if rows.active is Some {
        Some(Ok(ExecuteAdmission::Busy(rows.active->0)))
    } else if !deadline_in_range(deadline_ms, sandbox.expires_at, rows.now) {
        Some(Ok(ExecuteAdmission::InvalidDeadline))
    } else if stamp_of(deadline_ms) is None {
        Some(Err(DispatchError::InvalidData))
    } else if sandbox.expires_at matches Some(t) && stamp_of(deadline_ms)->0 > t {
        Some(Ok(ExecuteAdmission::InvalidDeadline))
    } else if rows.ready != Some(true) {
        Some(Ok(ExecuteAdmission::NotRunning))
    } else {
        None
    }
}

/// The answer to an execute request that admits nothing.
pub open spec fn execute_settled(
    rows: ExecuteRows,
    digest: RequestDigest,
    deadline_ms: i64,
    a: Result<ExecuteAdmission, DispatchError>,
) -> bool {
    if rows.authorized != Some(true) {
        a == Ok::<ExecuteAdmission, DispatchError>(ExecuteAdmission::Unauthorized)
    } else if rows.old is Some {
        a matches Ok(x) && execute_retry(*rows.old->0, digest, x)
    } else if rows.sandbox is None {
        a == Ok::<ExecuteAdmission, DispatchError>(ExecuteAdmission::NotFound)
    } else {
        Some(a) == sandbox_unready(rows, *rows.sandbox->0, deadline_ms)
    }
}

/// A new command is admitted.
pub open spec fn execute_admitted(rows: ExecuteRows, deadline_ms: i64) -> bool {
    &&& rows.authorized == Some(true)
    &&& rows.old is None
    &&& (rows.sandbox matches Some(s) && sandbox_unready(rows, *s, deadline_ms) is None)
}

/// What an execute request may be answered.
pub open spec fn execute_decided(
    rows: &ExecuteRows,
    digest: &RequestDigest,
    deadline_ms: i64,
    r: Result<ExecuteDecision, DispatchError>,
) -> bool {
    match r {
        Ok(ExecuteDecision::Settled(a)) => !execute_admitted(*rows, deadline_ms) && execute_settled(
            *rows,
            *digest,
            deadline_ms,
            Ok(a),
        ),
        Ok(ExecuteDecision::Admit { allocation, deadline }) => {
            &&& execute_admitted(*rows, deadline_ms)
            &&& rows.sandbox->0.current_allocation_id == Some(allocation)
            &&& stamp_of(deadline_ms) == Some(deadline)
        },
        Err(e) => !execute_admitted(*rows, deadline_ms) && execute_settled(*rows, *digest, deadline_ms, Err(e)),
    }
}

/// Decide an execute request whose command is well formed.
pub fn admit_execute(rows: &ExecuteRows, digest: &RequestDigest, deadline_ms: i64) -> (r: Result<
    ExecuteDecision,
    DispatchError,
>)
    ensures
        execute_decided(rows, digest, deadline_ms, r),
{
    let authorized: bool = match rows.authorized {
        Some(a) => a,
        None => false,
    };
    if !authorized {
        return Ok(ExecuteDecision::Settled(ExecuteAdmission::Unauthorized));
    }
    if let Some(a) = existing(rows.old, digest) {
        return Ok(ExecuteDecision::Settled(a));
    }
    let sandbox: &SandboxRow = match rows.sandbox {
        Some(s) => s,
        None => {
            return Ok(ExecuteDecision::Settled(ExecuteAdmission::NotFound));
        },
    };
    if same_text(sandbox.desired_state.as_str(), "destroyed") {
        return Ok(ExecuteDecision::Settled(ExecuteAdmission::Gone));
    }
    if let Some(id) = sandbox.active_transition_operation_id {
        return Ok(ExecuteDecision::Settled(ExecuteAdmission::Busy(id)));
    }
    if !same_text(sandbox.observed_state.as_str(), "running") {
        return Ok(ExecuteDecision::Settled(ExecuteAdmission::NotRunning));
    }
    let allocation: AllocationId = match sandbox.current_allocation_id {
        Some(a) => a,
        None => {
            return Ok(ExecuteDecision::Settled(ExecuteAdmission::NotRunning));
        },
    };
    if let Some(id) = rows.active {
        return Ok(ExecuteDecision::Settled(ExecuteAdmission::Busy(id)));
    }
    let now_ms: i128 = whole(rows.now);
    assert(-200000000000000000000000000000000000 < now_ms < 200000000000000000000000000000000000) by {
        assert(i128::MIN <= rows.now <= i128::MAX);
    }
    let remaining: i128 = deadline_ms as i128 - now_ms;
    if remaining < 1 || remaining > MAX_DURATION_MS as i128 || has_passed(sandbox.expires_at, rows.now) {
        return Ok(ExecuteDecision::Settled(ExecuteAdmission::InvalidDeadline));
    }
    let deadline: i128 = match stamp(deadline_ms) {
        Some(t) => t,
        None => {
            return Err(DispatchError::InvalidData);
        },
    };
    let beyond: bool = match sandbox.expires_at {
        Some(t) => deadline > t,
        None => false,
    };
    if beyond {
        return Ok(ExecuteDecision::Settled(ExecuteAdmission::InvalidDeadline));
    }
    let ready: bool = match rows.ready {
        Some(b) => b,
        None => false,
    };
    if !ready {
        return Ok(ExecuteDecision::Settled(ExecuteAdmission::NotRunning));
    }
    Ok(ExecuteDecision::Admit { allocation, deadline })
}

/// Current ownership of a claimed command: who, what, and its guest digest.
pub struct ExecuteContext {
    pub owner: Ownership,
    pub command: Execute,
    pub digest: [u8; 32],
}

/// The guest takes the stored command: it reads as one, keeps the public output
/// cap, and passes the guest's own check.
pub open spec fn command_usable(parsed: Option<CommandInput>, guest_accepts: bool) -> bool {
    parsed matches Some(c) && c.output_limit <= MAX_OUTPUT && guest_accepts
}

/// Why a claimed command cannot be acted on.
pub open spec fn execute_context_refusal(
    op: Option<OperationRow>,
    parsed: Option<CommandInput>,
    guest_accepts: bool,
    digest: Option<[u8; 32]>,
) -> Option<DispatchError> {
    match op {
        None => Some(DispatchError::LostClaim),
        Some(op) => if op.kind@ != "execute"@ {
            Some(DispatchError::Conflict)
        } else if op.execution_allocation_id is None || !command_usable(parsed, guest_accepts) || digest is None
            || op.lease_expires_at is None || millis_of(op.lease_expires_at->0) is None {
            Some(DispatchError::InvalidData)
        } else {
            None
        },
    }
}

pub open spec fn op_view(op: Option<&OperationRow>) -> Option<OperationRow> {
    match op {
        Some(o) => Some(*o),
        None => None,
    }
}

/// What a claimed command may be found to run, and for whom.
pub open spec fn command_found(
    op: Option<&OperationRow>,
    pinned: &AllocationRow,
    parsed: Option<&CommandInput>,
    guest_accepts: bool,
    digest: Option<[u8; 32]>,
    revision: i64,
    r: Result<ExecuteContext, DispatchError>,
) -> bool {
    let input = match parsed {
        Some(c) => Some(*c),
        None => None,
    };
    match r {
        Ok(c) => {
            &&& execute_context_refusal(op_view(op), input, guest_accepts, digest) is None
            &&& owner_of(c.owner, *op->0, *pinned, revision, millis_of(op->0.lease_expires_at->0)->0)
            &&& command_for(*parsed->0, op->0.id, c.command)
            &&& Some(c.digest) == digest
        },
        Err(e) => execute_context_refusal(op_view(op), input, guest_accepts, digest) == Some(e),
    }
}

/// Establish ownership of a claimed command. `op` is the operation where its
/// claim is live at its revision; `pinned` the allocation that the command was
/// admitted for, which is read even after a destroy released it: an old command
/// is never redirected. `parsed` is the stored command, `guest_accepts` the
/// guest's own check of it, `digest` the guest's digest of it under the operation.
pub fn context(
    op: Option<&OperationRow>,
    pinned: &AllocationRow,
    parsed: Option<&CommandInput>,
    guest_accepts: bool,
    digest: Option<[u8; 32]>,
    revision: i64,
) -> (r: Result<ExecuteContext, DispatchError>)
    ensures
        command_found(op, pinned, parsed, guest_accepts, digest, revision, r),
{
    let op: &OperationRow = match op {
        Some(op) => op,
        None => {
            return Err(DispatchError::LostClaim);
        },
    };
    if !same_text(op.kind.as_str(), "execute") {
        return Err(DispatchError::Conflict);
    }
    if op.execution_allocation_id.is_none() {
        return Err(DispatchError::InvalidData);
    }
    let input: &CommandInput = match parsed {
        Some(c) => c,
        None => {
            return Err(DispatchError::InvalidData);
        },
    };
    if input.validate(guest_accepts).is_err() {
        return Err(DispatchError::InvalidData);
    }
    let digest: [u8; 32] = match digest {
        Some(d) => d,
        None => {
            return Err(DispatchError::InvalidData);
        },
    };
    let expires: i64 = match op.lease_expires_at {
        Some(at) => match millis(at) {
            Some(m) => m,
            None => {
                return Err(DispatchError::InvalidData);
            },
        },
        None => {
            return Err(DispatchError::InvalidData);
        },
    };
    Ok(
        ExecuteContext {
            owner: ownership(op, pinned, revision, expires),
            command: input.for_operation(op.id),
            digest,
        },
    )
}

/// A document names the owner: every identity, the generation and the epoch.
pub open spec fn names_owner(d: Doc, owner: Ownership) -> bool {
    &&& is_text(field(d, "host_id"@), owner.host_id@)
    &&& is_text(field(d, "project_id"@), owner.project_id@)
    &&& is_text(field(d, "sandbox_id"@), owner.sandbox_id@)
    &&& is_text(field(d, "operation_id"@), owner.operation_id@)
    &&& is_text(field(d, "allocation_id"@), owner.allocation_id@)
    &&& is_integer(field(d, "generation"@), owner.generation as int)
    &&& is_integer(field(d, "supervisor_epoch"@), owner.supervisor_epoch as int)
}

/// The recorded intent is of this very command under this very owner. A changed
/// persisted payload is corruption, never permission to inspect another command
/// under the same public operation identity.
pub open spec fn intent_recorded(receipts: Doc, attempts: i32, owner: Ownership, digest: Seq<u8>) -> bool {
    match item(receipts, 0) {
        None => false,
        Some(intent) => {
            &&& attempts == 1
            &&& is_text(field(intent, "command_digest"@), hex_text(digest))
            &&& is_text(field(intent, "phase"@), "execute_dispatch_intent"@)
            &&& names_owner(intent, owner)
        },
    }
}

/// What checking a recorded intent may come to.
pub open spec fn intent_validated(
    op: &OperationRow,
    owner: &Ownership,
    digest: &[u8; 32],
    r: Result<(), DispatchError>,
) -> bool {
    r == outcome(
        if intent_recorded(op.attempt_receipts@, op.attempt_count, *owner, digest@) {
            None
        } else {
            Some(DispatchError::InvalidData)
        },
    )
}

pub fn validate_intent(op: &OperationRow, owner: &Ownership, digest: &[u8; 32]) -> (r: Result<(), DispatchError>)
    ensures
        intent_validated(op, owner, digest, r),
{
    let recorded: &Json = match op.attempt_receipts.at(0) {
        Some(v) => v,
        None => {
            return Err(DispatchError::InvalidData);
        },
    };
    let hex: String = hex_encode(digest.as_slice());
    if op.attempt_count != 1 || !has_text(recorded, "command_digest", hex.as_str()) || !has_text(
        recorded,
        "phase",
        "execute_dispatch_intent",
    ) || !has_text(recorded, "host_id", owner.host_id.as_str()) || !has_text(
        recorded,
        "project_id",
        owner.project_id.as_str(),
    ) || !has_text(recorded, "sandbox_id", owner.sandbox_id.as_str()) || !has_text(
        recorded,
        "operation_id",
        owner.operation_id.as_str(),
    ) || !has_text(recorded, "allocation_id", owner.allocation_id.as_str()) || !has_integer(
        recorded,
        "generation",
        owner.generation,
    ) || !has_integer(recorded, "supervisor_epoch", owner.supervisor_epoch) {
        return Err(DispatchError::InvalidData);
    }
    Ok(())
}

/// What a claimed command does next.
#[derive(Debug)]
pub enum ExecuteStep {
    Inspect,
    /// Fail the command with this error: nothing was dispatched.
    Reject { error: Json },
    /// Commit this intent, then dispatch.
    Dispatch { intent: Json },
}

/// What a claimed command is decided on. `authorized` is whether the initiating
/// credential, the deadline and the sandbox's expiry permit it now; `host_ready`
/// whether the host is ready and recently seen and the lease live.
pub struct DispatchRows<'a> {
    pub op: &'a OperationRow,
    pub sandbox: &'a SandboxRow,
    pub pinned: &'a AllocationRow,
    pub host_epoch: i64,
    pub authorized: bool,
    pub host_ready: bool,
}

/// The sandbox still runs on the pinned allocation, undisturbed.
pub open spec fn target_current(rows: DispatchRows) -> bool {
    &&& rows.sandbox.desired_state@ == "running"@
    &&& rows.sandbox.observed_state@ == "running"@
    &&& rows.sandbox.active_transition_operation_id is None
    &&& rows.sandbox.current_allocation_id == Some(rows.pinned.id)
    &&& rows.sandbox.generation == rows.pinned.generation
    &&& rows.pinned.status@ == "running"@
    &&& rows.host_epoch == rows.pinned.supervisor_epoch
}

pub open spec fn rejected_error(code: Seq<char>) -> Doc {
    Doc::Object(
        Seq::<(Seq<char>, Doc)>::empty().push(("code"@, Doc::Text(code))).push(
            ("dispatch_intent_absent"@, Doc::Bool(true)),
        ),
    )
}

pub open spec fn execute_intent(owner: Ownership, digest: Seq<u8>) -> Doc {
    Doc::Object(
        evidence_members(owner, None, "execute_dispatch_intent"@).push(
            ("command_digest"@, Doc::Text(hex_text(digest))),
        ),
    )
}

/// What a claimed command may do next.
pub open spec fn execute_prepared(
    rows: &DispatchRows,
    c: &ExecuteContext,
    host: HostId,
    epoch: i64,
    r: Result<ExecuteStep, DispatchError>,
) -> bool {
    let recorded = intent_recorded(
        rows.op.attempt_receipts@,
        rows.op.attempt_count,
        c.owner,
        c.digest@,
    );
    let here = rows.pinned.host_id == host && c.owner.supervisor_epoch == epoch;
    match r {
        Ok(ExecuteStep::Inspect) => maybe_dispatched(*rows.op) && recorded,
        Ok(ExecuteStep::Reject { error }) => {
            &&& !maybe_dispatched(*rows.op)
            &&& here
            &&& (!rows.authorized || !target_current(*rows))
            &&& error@ == rejected_error(
                if rows.authorized {
                    "execution_target_changed"@
                } else {
                    "execution_authority_expired"@
                },
            )
        },
        Ok(ExecuteStep::Dispatch { intent }) => {
            &&& !maybe_dispatched(*rows.op)
            &&& here
            &&& rows.authorized
            &&& target_current(*rows)
            &&& rows.host_ready
            &&& intent@ == execute_intent(c.owner, c.digest@)
        },
        Err(e) => if maybe_dispatched(*rows.op) {
            !recorded && e == DispatchError::InvalidData
        } else {
            e == DispatchError::HostUnavailable && (!here || (rows.authorized && target_current(*rows)
                && !rows.host_ready))
        },
    }
}

/// Commit exactly one dispatch intent. All later calls inspect, whatever was
/// revoked, expired, destroyed or lost meanwhile.
pub fn prepare_execute(rows: &DispatchRows, c: &ExecuteContext, host: HostId, epoch: i64) -> (r: Result<
    ExecuteStep,
    DispatchError,
>)
    ensures
        execute_prepared(rows, c, host, epoch, r),
{
    if rows.op.attempt_count > 0 || same_text(rows.op.status.as_str(), "unknown") {
        return match validate_intent(rows.op, &c.owner, &c.digest) {
            Ok(_) => Ok(ExecuteStep::Inspect),
            Err(_) => Err(DispatchError::InvalidData),
        };
    }
    if rows.pinned.host_id != host || c.owner.supervisor_epoch != epoch {
        return Err(DispatchError::HostUnavailable);
    }
    let sandbox: &SandboxRow = rows.sandbox;
    let held: bool = match sandbox.current_allocation_id {
        Some(id) => id == rows.pinned.id,
        None => false,
    };
    let current: bool = same_text(sandbox.desired_state.as_str(), "running") && same_text(
        sandbox.observed_state.as_str(),
        "running",
    ) && sandbox.active_transition_operation_id.is_none() && held && sandbox.generation == rows.pinned.generation
        && same_text(rows.pinned.status.as_str(), "running") && rows.host_epoch == rows.pinned.supervisor_epoch;
    if !rows.authorized || !current {
        let code: &str = if rows.authorized {
            "execution_target_changed"
        } else {
            "execution_authority_expired"
        };
        let mut error: Members = Members::new();
        error.put("code", json_text(code));
        error.put("dispatch_intent_absent", Json::Bool(true));
        return Ok(ExecuteStep::Reject { error: error.object() });
    }
    if !rows.host_ready {
        return Err(DispatchError::HostUnavailable);
    }
    let mut intent: Members = evidence(&c.owner, None, "execute_dispatch_intent");
    intent.put("command_digest", json_text(hex_encode(c.digest.as_slice()).as_str()));
    Ok(ExecuteStep::Dispatch { intent: intent.object() })
}

/// What an observation of a command, or its absence, is recorded as.
pub struct ExecuteOutcome {
    pub status: &'static str,
    pub phase: &'static str,
    pub terminal: bool,
    /// The output is to be archived: the command ended and the guest says how.
    pub archive: bool,
    pub result: Option<Json>,
    pub error: Option<Json>,
    pub history: Json,
}

/// How a command stands: its status and phase, and the code of its error.
pub open spec fn command_status(receipt: Option<Receipt>, not_started: bool) -> (Seq<char>, Seq<char>, Option<Seq<char>>) {
    match receipt {
        Some(r) if r.state == State::Exited && r.exit_code == Some(0i32) => ("succeeded"@, "exited"@, None),
        Some(r) if r.state == State::Exited => ("failed"@, "exited"@, Some("command_failed"@)),
        Some(r) if r.state == State::TimedOut => ("failed"@, "timed_out"@, Some("deadline_exceeded"@)),
        Some(r) if r.state == State::Cancelled => ("cancelled"@, "cancelled"@, None),
        Some(r) if r.state == State::LaunchIntent => ("running"@, "executing"@, None),
        _ => if not_started {
            ("failed"@, "not_started"@, Some("command_not_started"@))
        } else {
            ("unknown"@, "reconciling"@, Some("outcome_unknown"@))
        },
    }
}

/// Whether nothing more can come of the command.
pub open spec fn command_ended(receipt: Option<Receipt>, not_started: bool) -> bool {
    match receipt {
        Some(r) => r.state == State::Exited || r.state == State::TimedOut || r.state == State::Cancelled || (r.state
            == State::Unknown && not_started),
        None => not_started,
    }
}

fn standing(receipt: &Option<Receipt>, not_started: bool) -> (r: (&'static str, &'static str, Option<&'static str>, bool))
    ensures
        r.0@ == command_status(*receipt, not_started).0,
        r.1@ == command_status(*receipt, not_started).1,
        match r.2 {
            Some(code) => command_status(*receipt, not_started).2 == Some(code@),
            None => command_status(*receipt, not_started).2 is None,
        },
        r.3 == command_ended(*receipt, not_started),
{
    if let Some(x) = receipt {
        match x.state {
            State::Exited => {
                return match x.exit_code {
                    Some(code) => if code == 0 {
                        ("succeeded", "exited", None, true)
                    } else {
                        ("failed", "exited", Some("command_failed"), true)
                    },
                    None => ("failed", "exited", Some("command_failed"), true),
                };
            },
            State::TimedOut => {
                return ("failed", "timed_out", Some("deadline_exceeded"), true);
            },
            State::Cancelled => {
                return ("cancelled", "cancelled", None, true);
            },
            State::LaunchIntent => {
                return ("running", "executing", None, false);
            },
            State::Unknown => {},
        }
    }
    if not_started {
        ("failed", "not_started", Some("command_not_started"), true)
    } else {
        ("unknown", "reconciling", Some("outcome_unknown"), false)
    }
}

pub open spec fn stats_doc(o: Output) -> Doc {
    Doc::Object(
        Seq::<(Seq<char>, Doc)>::empty().push(("seen"@, Doc::Number(decimal(o.seen as nat)))).push(
            ("stored"@, Doc::Number(decimal(o.stored as nat))),
        ).push(("truncated"@, Doc::Bool(o.truncated))),
    )
}

fn stats_document(o: &Output) -> (r: Json)
    ensures
        r@ == stats_doc(*o),
{
    let mut m: Members = Members::new();
    m.put("seen", Json::Number(decimal_text(o.seen)));
    m.put("stored", Json::Number(decimal_text(o.stored)));
    m.put("truncated", Json::Bool(o.truncated));
    m.object()
}

pub open spec fn widened(n: Option<i32>) -> Option<i64> {
    match n {
        Some(n) => Some(n as i64),
        None => None,
    }
}

/// Only bounded statistics and results cross the controller, never output bytes
/// or guest-controlled reason text.
pub open spec fn command_result(r: Receipt, simulated: Option<bool>) -> Doc {
    Doc::Object(
        Seq::<(Seq<char>, Doc)>::empty().push(("simulated"@, optional_flag(simulated))).push(
            ("exit_code"@, optional_integer(widened(r.exit_code))),
        ).push(("signal"@, optional_integer(widened(r.signal)))).push(("stdout"@, stats_doc(r.stdout))).push(
            ("stderr"@, stats_doc(r.stderr)),
        ).push(("guest_reported"@, Doc::Bool(true))),
    )
}

fn result_document(r: &Receipt, simulated: Option<bool>) -> (d: Json)
    ensures
        d@ == command_result(*r, simulated),
{
    let exit_code: Option<i64> = match r.exit_code {
        Some(n) => Some(n as i64),
        None => None,
    };
    let signal: Option<i64> = match r.signal {
        Some(n) => Some(n as i64),
        None => None,
    };
    let mut m: Members = Members::new();
    m.put("simulated", json_flag(simulated));
    m.put("exit_code", json_optional_integer(exit_code));
    m.put("signal", json_optional_integer(signal));
    m.put("stdout", stats_document(&r.stdout));
    m.put("stderr", stats_document(&r.stderr));
    m.put("guest_reported", Json::Bool(true));
    m.object()
}

pub open spec fn status_error(code: Seq<char>, simulated: Option<bool>) -> Doc {
    Doc::Object(
        Seq::<(Seq<char>, Doc)>::empty().push(("code"@, Doc::Text(code))).push(
            ("simulated"@, optional_flag(simulated)),
        ),
    )
}

/// The boot that an earlier observation was of.
pub open spec fn recorded_boot(previous: Option<Doc>) -> Option<Seq<char>> {
    match previous {
        Some(d) => match field(d, "guest_receipt"@) {
            Some(receipt) => match field(receipt, "context"@) {
                Some(context) => text_of(field(context, "boot_id"@)),
                None => None,
            },
            None => None,
        },
        None => None,
    }
}

/// The receipt is of the claimed command, on the pinned allocation, and of the
/// boot that was seen before.
pub open spec fn receipt_of_command(r: Receipt, op: OperationRow, c: ExecuteContext, pinned: AllocationRow) -> bool {
    &&& r.operation_id == op.id
    &&& r.context.allocation_id == pinned.id
    &&& r.context.generation == c.owner.generation
    &&& r.digest@ == c.digest@
    &&& r.deadline_unix_ms == c.command.deadline_unix_ms
    &&& r.output_limit == c.command.output_limit
    &&& (recorded_boot(item(op.attempt_receipts@, 1)) matches Some(boot) ==> boot == r.context.boot_id@)
}

/// The observation is of this owner's command, timely, and says either that it
/// never started or what became of it, not both; what was once seen to run is
/// never reported as not started.
pub open spec fn observation_plausible(o: CommandObservation, op: OperationRow, c: ExecuteContext, fresh: bool) -> bool {
    &&& is_owner(o.ownership, c.owner)
    &&& o.command_digest@ == c.digest@
    &&& !(o.not_started && o.receipt is Some)
    &&& fresh
    &&& !(o.not_started && (item(op.attempt_receipts@, 1) matches Some(d) && field(d, "guest_receipt"@) is Some))
}

/// Why an observation is refused, its receipt aside.
pub open spec fn observation_refusal(
    o: CommandObservation,
    op: OperationRow,
    c: ExecuteContext,
    fresh: bool,
    allow_simulated: bool,
    receipt_valid: bool,
) -> Option<DispatchError> {
    if o.simulated && !allow_simulated {
        Some(DispatchError::SimulationDenied)
    } else if !observation_plausible(o, op, c, fresh) {
        Some(DispatchError::BadEvidence)
    } else if o.receipt matches Some(wire) && (receipt_refusal(wire) is Some || !receipt_valid) {
        Some(DispatchError::BadEvidence)
    } else {
        None
    }
}

/// What is kept of an accepted receipt.
pub open spec fn observed_evidence(owner: Ownership, simulated: Option<bool>, observed: i64, receipt: Doc) -> Doc {
    Doc::Object(
        evidence_members(owner, simulated, "command_observed"@).push(("observed_unix_ms"@, number(observed as int))).push(
            ("guest_receipt"@, receipt),
        ),
    )
}

/// What is kept of a report that the command never started.
pub open spec fn fenced_evidence(owner: Ownership, simulated: Option<bool>, observed: i64, digest: Seq<u8>) -> Doc {
    Doc::Object(
        evidence_members(owner, simulated, "command_fenced_before_start"@).push(("not_started"@, Doc::Bool(true))).push(
            ("observed_unix_ms"@, number(observed as int)),
        ).push(("command_digest"@, Doc::Text(hex_text(digest)))),
    )
}

/// The history after a report: the intent, and behind it the latest evidence.
pub open spec fn next_history(receipts: Doc, latest: Option<Doc>) -> Doc {
    let intent = item(receipts, 0)->0;
    match latest {
        Some(d) => Doc::List(seq![intent, d]),
        None => match item(receipts, 1) {
            Some(previous) => Doc::List(seq![intent, previous]),
            None => Doc::List(seq![intent]),
        },
    }
}

/// What an outcome records, given the accepted receipt.
pub open spec fn outcome_recorded(
    x: ExecuteOutcome,
    op: OperationRow,
    receipt: Option<Receipt>,
    not_started: bool,
    simulated: Option<bool>,
    latest: Option<Doc>,
) -> bool {
    let (status, phase, code) = command_status(receipt, not_started);
    &&& x.status@ == status
    &&& x.phase@ == phase
    &&& x.terminal == command_ended(receipt, not_started)
    &&& x.archive == (x.terminal && receipt is Some)
    &&& match receipt {
        Some(r) => x.result matches Some(d) && d@ == command_result(r, simulated),
        None => x.result is None,
    }
    &&& match code {
        Some(code) => x.error matches Some(d) && d@ == status_error(code, simulated),
        None => x.error is None,
    }
    &&& x.history@ == next_history(op.attempt_receipts@, latest)
}

fn settle(
    op: &OperationRow,
    receipt: &Option<Receipt>,
    not_started: bool,
    simulated: Option<bool>,
    latest: Option<Json>,
) -> (r: ExecuteOutcome)
    requires
        item(op.attempt_receipts@, 0) is Some,
    ensures
        outcome_recorded(
            r,
            *op,
            *receipt,
            not_started,
            simulated,
            match latest {
                Some(d) => Some(d@),
                None => None,
            },
        ),
{
    let (status, phase, code, ended) = standing(receipt, not_started);
    let result: Option<Json> = match receipt {
        Some(x) => Some(result_document(x, simulated)),
        None => None,
    };
    let error: Option<Json> = match code {
        Some(code) => {
            let mut m: Members = Members::new();
            m.put("code", json_text(code));
            m.put("simulated", json_flag(simulated));
            Some(m.object())
        },
        None => None,
    };
    let intent: Json = match op.attempt_receipts.at(0) {
        Some(v) => copy_json(v),
        None => Json::Null,
    };
    let history: Json = match latest {
        Some(d) => json_list2(intent, d),
        None => match op.attempt_receipts.at(1) {
            Some(previous) => json_list2(intent, copy_json(previous)),
            None => json_list1(intent),
        },
    };
    ExecuteOutcome { status, phase, terminal: ended, archive: ended && receipt.is_some(), result, error, history }
}

/// What losing sight of a command may come to.
pub open spec fn execute_lost(
    op: &OperationRow,
    c: &ExecuteContext,
    r: Result<ExecuteOutcome, DispatchError>,
) -> bool {
    let recorded = intent_recorded(op.attempt_receipts@, op.attempt_count, c.owner, c.digest@);
    match r {
        Ok(x) => recorded && outcome_recorded(x, *op, None, false, None, None),
        Err(e) => !recorded && e == DispatchError::InvalidData,
    }
}

/// Transport loss has no execution meaning: the intent and what was seen before
/// are kept, and the command is inspected again.
pub fn record_execute_unknown(op: &OperationRow, c: &ExecuteContext) -> (r: Result<ExecuteOutcome, DispatchError>)
    ensures
        execute_lost(op, c, r),
{
    match validate_intent(op, &c.owner, &c.digest) {
        Ok(_) => {},
        Err(_) => {
            return Err(DispatchError::InvalidData);
        },
    }
    let none: Option<Receipt> = None;
    Ok(settle(op, &none, false, None, None))
}

fn boot_of(previous: Option<&Json>) -> (r: Option<&str>)
    ensures
        match r {
            Some(t) => recorded_boot(crate::document::shown(previous)) == Some(t@),
            None => recorded_boot(crate::document::shown(previous)) is None,
        },
{
    match previous {
        Some(d) => match d.get("guest_receipt") {
            Some(receipt) => match receipt.get("context") {
                Some(context) => match context.get("boot_id") {
                    Some(boot) => boot.text(),
                    None => None,
                },
                None => None,
            },
            None => None,
        },
        None => None,
    }
}

/// Whether a report is acceptable, apart from what its receipt says.
fn plausible(o: &CommandObservation, op: &OperationRow, c: &ExecuteContext, fresh: bool) -> (r: bool)
    ensures
        r == observation_plausible(*o, *op, *c, fresh),
{
    let seen: bool = match op.attempt_receipts.at(1) {
        Some(d) => d.get("guest_receipt").is_some(),
        None => false,
    };
    owned_by(&o.ownership, &c.owner) && same_bytes(o.command_digest.as_slice(), c.digest.as_slice()) && !(o.not_started
        && o.receipt.is_some()) && fresh && !(o.not_started && seen)
}

fn of_command(r: &Receipt, op: &OperationRow, c: &ExecuteContext, pinned: &AllocationRow) -> (b: bool)
    ensures
        b == receipt_of_command(*r, *op, *c, *pinned),
{
    let same_boot: bool = match boot_of(op.attempt_receipts.at(1)) {
        Some(boot) => same_text(boot, r.context.boot_id.as_str()),
        None => true,
    };
    r.operation_id == op.id && r.context.allocation_id == pinned.id && r.context.generation == c.owner.generation
        && same_digest(&r.digest, &c.digest) && r.deadline_unix_ms == c.command.deadline_unix_ms && r.output_limit
        == c.command.output_limit && same_boot
}

/// What a report of a command may come to.
pub open spec fn execute_observed(
    op: &OperationRow,
    c: &ExecuteContext,
    pinned: &AllocationRow,
    o: CommandObservation,
    fresh: bool,
    allow_simulated: bool,
    receipt_valid: bool,
    receipt_document: Option<Json>,
    r: Result<ExecuteOutcome, DispatchError>,
) -> bool {
    let refusal = observation_refusal(o, *op, *c, fresh, allow_simulated, receipt_valid);
    if !intent_recorded(op.attempt_receipts@, op.attempt_count, c.owner, c.digest@) {
        r matches Err(e) && e == DispatchError::InvalidData
    } else if refusal is Some {
        r matches Err(e) && Some(e) == refusal
    } else if o.receipt is None {
        r matches Ok(x) && outcome_recorded(
            x,
            *op,
            None,
            o.not_started,
            Some(o.simulated),
            if o.not_started {
                Some(fenced_evidence(c.owner, Some(o.simulated), o.observed_unix_ms, c.digest@))
            } else {
                None
            },
        )
    } else {
        exists|receipt: Receipt| #[trigger]
            receipt_written(receipt, o.receipt->0) && if !receipt_of_command(receipt, *op, *c, *pinned) {
                r matches Err(e) && e == DispatchError::BadEvidence
            } else if receipt_document is None {
                r matches Err(e) && e == DispatchError::InvalidData
            } else {
                r matches Ok(x) && outcome_recorded(
                    x,
                    *op,
                    Some(receipt),
                    false,
                    Some(o.simulated),
                    Some(
                        observed_evidence(
                            c.owner,
                            Some(o.simulated),
                            o.observed_unix_ms,
                            receipt_document->0@,
                        ),
                    ),
                )
            }
    }
}

/// Record what a host reports of a command. `receipt_valid` is the guest's own
/// check of the receipt, `receipt_document` the receipt as it is stored.
pub fn record_execute_observation(
    op: &OperationRow,
    c: &ExecuteContext,
    pinned: &AllocationRow,
    o: CommandObservation,
    fresh: bool,
    allow_simulated: bool,
    receipt_valid: bool,
    receipt_document: Option<Json>,
) -> (r: Result<ExecuteOutcome, DispatchError>)
    ensures
        execute_observed(op, c, pinned, o, fresh, allow_simulated, receipt_valid, receipt_document, r),
{
    match validate_intent(op, &c.owner, &c.digest) {
        Ok(_) => {},
        Err(_) => {
            return Err(DispatchError::InvalidData);
        },
    }
    if o.simulated && !allow_simulated {
        return Err(DispatchError::SimulationDenied);
    }
    if !plausible(&o, op, c, fresh) {
        return Err(DispatchError::BadEvidence);
    }
    let simulated: Option<bool> = Some(o.simulated);
    match o.receipt {
        None => {
            let latest: Option<Json> = if o.not_started {
                let mut m: Members = evidence(&c.owner, simulated, "command_fenced_before_start");
                m.put("not_started", Json::Bool(true));
                m.put("observed_unix_ms", json_integer(o.observed_unix_ms));
                m.put("command_digest", json_text(hex_encode(c.digest.as_slice()).as_str()));
                Some(m.object())
            } else {
                None
            };
            let none: Option<Receipt> = None;
            Ok(settle(op, &none, o.not_started, simulated, latest))
        },
        Some(wire) => {
            let receipt: Receipt = match Receipt::from_wire(wire) {
                Ok(receipt) => receipt,
                Err(_) => {
                    return Err(DispatchError::BadEvidence);
                },
            };
            assert(receipt_written(receipt, o.receipt->0));
            if !receipt_valid {
                return Err(DispatchError::BadEvidence);
            }
            if !of_command(&receipt, op, c, pinned) {
                return Err(DispatchError::BadEvidence);
            }
            let document: Json = match receipt_document {
                Some(d) => d,
                None => {
                    return Err(DispatchError::InvalidData);
                },
            };
            let mut m: Members = evidence(&c.owner, simulated, "command_observed");
            m.put("observed_unix_ms", json_integer(o.observed_unix_ms));
            m.put("guest_receipt", document);
            let accepted: Option<Receipt> = Some(receipt);
            Ok(settle(op, &accepted, false, simulated, Some(m.object())))
        },
    }
}

/// Repeated polls do not grow the history: it keeps the intent in front and at
/// most one further document.
pub proof fn history_stays_bounded(receipts: Doc, latest: Option<Doc>)
    ensures
        next_history(receipts, latest) matches Doc::List(items) && 1 <= items.len() <= 2 && Some(items[0]) == Some(
            item(receipts, 0)->0,
        ),
        item(next_history(receipts, latest), 0) == Some(item(receipts, 0)->0),
{
}

/// A report keeps the intent, so whoever comes next finds it recorded and only
/// inspects.
pub proof fn reports_keep_the_intent(receipts: Doc, latest: Option<Doc>, attempts: i32, owner: Ownership, digest: Seq<u8>)
    requires
        intent_recorded(receipts, attempts, owner, digest),
    ensures
        intent_recorded(next_history(receipts, latest), attempts, owner, digest),
{
    history_stays_bounded(receipts, latest);
}

/// The status is final exactly when nothing more can come of the command.
pub proof fn final_status_is_the_end(receipt: Option<Receipt>, not_started: bool)
    ensures
        crate::store::rows::final_status(command_status(receipt, not_started).0) == command_ended(receipt, not_started),
{
    reveal_strlit("succeeded");
    reveal_strlit("failed");
    reveal_strlit("cancelled");
    reveal_strlit("running");
    reveal_strlit("unknown");
    assert("running"@.len() != "succeeded"@.len());
    assert("unknown"@[0] != "running"@[0]);
    assert("running"@[0] != "failed"@[0]);
    assert("unknown"@[0] != "failed"@[0]);
    assert("running"@[0] != "cancelled"@[0]);
    assert("unknown"@[0] != "cancelled"@[0]);
    assert("unknown"@[0] != "succeeded"@[0]);
}

/// The intent that a dispatch commits is the one that every later call checks.
pub proof fn committed_intent_is_recognized(owner: Ownership, digest: Seq<u8>)
    ensures
        intent_recorded(Doc::List(seq![execute_intent(owner, digest)]), 1, owner, digest),
{
    lemma_evidence_fields(owner, digest);
}

/// The members of an intent, by key.
proof fn lemma_evidence_fields(owner: Ownership, digest: Seq<u8>)
    ensures
        names_owner(execute_intent(owner, digest), owner),
        is_text(field(execute_intent(owner, digest), "command_digest"@), hex_text(digest)),
        is_text(field(execute_intent(owner, digest), "phase"@), "execute_dispatch_intent"@),
{
    reveal_strlit("phase");
    reveal_strlit("host_id");
    reveal_strlit("project_id");
    reveal_strlit("sandbox_id");
    reveal_strlit("operation_id");
    reveal_strlit("allocation_id");
    reveal_strlit("generation");
    reveal_strlit("supervisor_epoch");
    reveal_strlit("claim_revision");
    reveal_strlit("simulated");
    reveal_strlit("command_digest");
    let members = evidence_members(owner, None, "execute_dispatch_intent"@);
    let last = Doc::Text(hex_text(digest));
    assert("project_id"@[0] == 'p' && "sandbox_id"@[0] == 's' && "generation"@[0] == 'g');
    assert("claim_revision"@[1] == 'l' && "command_digest"@[1] == 'o');
    let keys = seq![
        "phase"@,
        "host_id"@,
        "project_id"@,
        "sandbox_id"@,
        "operation_id"@,
        "allocation_id"@,
        "generation"@,
        "supervisor_epoch"@,
        "command_digest"@,
    ];
    assert forall|i: int| 0 <= i < keys.len() implies field(
        execute_intent(owner, digest),
        #[trigger] keys[i],
    ) == if keys[i] == "command_digest"@ {
        Some(last)
    } else {
        evidence_field(owner, None, "execute_dispatch_intent"@, keys[i])
    } by {
        lemma_value_of_push(members, "command_digest"@, last, keys[i]);
        lemma_evidence_field(owner, None, "execute_dispatch_intent"@, keys[i]);
    }
    assert(keys[0] == "phase"@ && keys[1] == "host_id"@ && keys[2] == "project_id"@ && keys[3] == "sandbox_id"@);
    assert(keys[4] == "operation_id"@ && keys[5] == "allocation_id"@ && keys[6] == "generation"@);
    assert(keys[7] == "supervisor_epoch"@ && keys[8] == "command_digest"@);
    let d = execute_intent(owner, digest);
    assert("host_id"@.len() == 7 && "project_id"@.len() == 10 && "simulated"@.len() == 9);
    assert("claim_revision"@.len() == 14 && "operation_id"@.len() == 12 && "allocation_id"@.len() == 13);
    assert("supervisor_epoch"@.len() == 16 && "generation"@.len() == 10 && "sandbox_id"@.len() == 10);
    assert("command_digest"@.len() == 14);
    assert(is_text(field(d, keys[1]), owner.host_id@));
    assert(is_text(field(d, keys[2]), owner.project_id@));
    assert(is_text(field(d, keys[3]), owner.sandbox_id@));
    assert(is_text(field(d, keys[4]), owner.operation_id@));
    assert(is_text(field(d, keys[5]), owner.allocation_id@));
    assert(is_integer(field(d, keys[6]), owner.generation as int));
    assert(is_integer(field(d, keys[7]), owner.supervisor_epoch as int));
}

} // verus!
