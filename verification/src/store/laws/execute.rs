//! Running a command: which sandbox takes it, when it is dispatched, and which
//! report says what became of it.
use crate::api::CommandInput;
use crate::canonical::{in_key_order, member_views, Json};
use crate::digest::hex_text;
use crate::document::{field, item, lemma_pushed_member, number, Doc};
use crate::guest;
use crate::guest_model::Receipt;
use crate::guest_wire::{receipt_written, written_receipt_reads_back};
use crate::idempotency::RequestDigest;
use crate::ids::{id_text, version_of, HostId};
use crate::json::decimal;
use crate::store::dispatch::DispatchError;
use crate::store::execute::{
    command_found, command_result, execute_decided, execute_lost, execute_observed, execute_prepared, execute_resolved,
    intent_validated, observed_evidence, outcome_recorded, receipt_of_command, recorded_boot, DispatchRows,
    ExecuteAdmission, ExecuteContext, ExecuteDecision, ExecuteOutcome, ExecuteRows, ExecuteStep,
};
use crate::store::laws::evidence::{evidence_tells_its_owner, owners_agree_in_every_field, reports_for, tells_owner};
use crate::store::rows::{AllocationRow, OperationRow, RetryRow, SandboxRow};
use crate::supervisor::{CommandObservation, Ownership};
use crate::text::byte_len;
use vstd::prelude::*;

verus! {

/// The keys of each of a command's documents are apart.
proof fn lemma_result_words()
    ensures
        "simulated"@ != "exit_code"@,
        "simulated"@ != "signal"@,
        "simulated"@ != "stdout"@,
        "simulated"@ != "stderr"@,
        "simulated"@ != "guest_reported"@,
        "exit_code"@ != "signal"@,
        "exit_code"@ != "stdout"@,
        "exit_code"@ != "stderr"@,
        "exit_code"@ != "guest_reported"@,
        "signal"@ != "stdout"@,
        "signal"@ != "stderr"@,
        "signal"@ != "guest_reported"@,
        "stdout"@ != "stderr"@,
        "stdout"@ != "guest_reported"@,
        "stderr"@ != "guest_reported"@,
        "seen"@ != "stored"@,
        "seen"@ != "truncated"@,
        "stored"@ != "truncated"@,
        "code"@ != "simulated"@,
        "code"@ != "dispatch_intent_absent"@,
        "simulated"@ != "dispatch_intent_absent"@,
{
    reveal_strlit("simulated");
    reveal_strlit("exit_code");
    reveal_strlit("signal");
    reveal_strlit("stdout");
    reveal_strlit("stderr");
    reveal_strlit("guest_reported");
    reveal_strlit("seen");
    reveal_strlit("stored");
    reveal_strlit("truncated");
    reveal_strlit("code");
    reveal_strlit("dispatch_intent_absent");
    assert("simulated"@.len() == 9);
    assert("exit_code"@.len() == 9);
    assert("signal"@.len() == 6);
    assert("stdout"@.len() == 6);
    assert("stderr"@.len() == 6);
    assert("guest_reported"@.len() == 14);
    assert("seen"@.len() == 4);
    assert("stored"@.len() == 6);
    assert("truncated"@.len() == 9);
    assert("code"@.len() == 4);
    assert("dispatch_intent_absent"@.len() == 22);
    assert("simulated"@[0] != "exit_code"@[0]);
    assert("signal"@[1] != "stdout"@[1]);
    assert("signal"@[1] != "stderr"@[1]);
    assert("stdout"@[3] != "stderr"@[3]);
}

/// The keys of what is kept of a command are apart.
proof fn lemma_command_evidence_words()
    ensures
        "phase"@ != "host_id"@,
        "phase"@ != "project_id"@,
        "phase"@ != "sandbox_id"@,
        "phase"@ != "operation_id"@,
        "phase"@ != "allocation_id"@,
        "phase"@ != "generation"@,
        "phase"@ != "supervisor_epoch"@,
        "phase"@ != "claim_revision"@,
        "phase"@ != "simulated"@,
        "phase"@ != "command_digest"@,
        "phase"@ != "observed_unix_ms"@,
        "phase"@ != "guest_receipt"@,
        "phase"@ != "not_started"@,
        "host_id"@ != "project_id"@,
        "host_id"@ != "sandbox_id"@,
        "host_id"@ != "operation_id"@,
        "host_id"@ != "allocation_id"@,
        "host_id"@ != "generation"@,
        "host_id"@ != "supervisor_epoch"@,
        "host_id"@ != "claim_revision"@,
        "host_id"@ != "simulated"@,
        "host_id"@ != "command_digest"@,
        "host_id"@ != "observed_unix_ms"@,
        "host_id"@ != "guest_receipt"@,
        "host_id"@ != "not_started"@,
        "project_id"@ != "sandbox_id"@,
        "project_id"@ != "operation_id"@,
        "project_id"@ != "allocation_id"@,
        "project_id"@ != "generation"@,
        "project_id"@ != "supervisor_epoch"@,
        "project_id"@ != "claim_revision"@,
        "project_id"@ != "simulated"@,
        "project_id"@ != "command_digest"@,
        "project_id"@ != "observed_unix_ms"@,
        "project_id"@ != "guest_receipt"@,
        "project_id"@ != "not_started"@,
        "sandbox_id"@ != "operation_id"@,
        "sandbox_id"@ != "allocation_id"@,
        "sandbox_id"@ != "generation"@,
        "sandbox_id"@ != "supervisor_epoch"@,
        "sandbox_id"@ != "claim_revision"@,
        "sandbox_id"@ != "simulated"@,
        "sandbox_id"@ != "command_digest"@,
        "sandbox_id"@ != "observed_unix_ms"@,
        "sandbox_id"@ != "guest_receipt"@,
        "sandbox_id"@ != "not_started"@,
        "operation_id"@ != "allocation_id"@,
        "operation_id"@ != "generation"@,
        "operation_id"@ != "supervisor_epoch"@,
        "operation_id"@ != "claim_revision"@,
        "operation_id"@ != "simulated"@,
        "operation_id"@ != "command_digest"@,
        "operation_id"@ != "observed_unix_ms"@,
        "operation_id"@ != "guest_receipt"@,
        "operation_id"@ != "not_started"@,
        "allocation_id"@ != "generation"@,
        "allocation_id"@ != "supervisor_epoch"@,
        "allocation_id"@ != "claim_revision"@,
        "allocation_id"@ != "simulated"@,
        "allocation_id"@ != "command_digest"@,
        "allocation_id"@ != "observed_unix_ms"@,
        "allocation_id"@ != "guest_receipt"@,
        "allocation_id"@ != "not_started"@,
        "generation"@ != "supervisor_epoch"@,
        "generation"@ != "claim_revision"@,
        "generation"@ != "simulated"@,
        "generation"@ != "command_digest"@,
        "generation"@ != "observed_unix_ms"@,
        "generation"@ != "guest_receipt"@,
        "generation"@ != "not_started"@,
        "supervisor_epoch"@ != "claim_revision"@,
        "supervisor_epoch"@ != "simulated"@,
        "supervisor_epoch"@ != "command_digest"@,
        "supervisor_epoch"@ != "observed_unix_ms"@,
        "supervisor_epoch"@ != "guest_receipt"@,
        "supervisor_epoch"@ != "not_started"@,
        "claim_revision"@ != "simulated"@,
        "claim_revision"@ != "command_digest"@,
        "claim_revision"@ != "observed_unix_ms"@,
        "claim_revision"@ != "guest_receipt"@,
        "claim_revision"@ != "not_started"@,
        "simulated"@ != "command_digest"@,
        "simulated"@ != "observed_unix_ms"@,
        "simulated"@ != "guest_receipt"@,
        "simulated"@ != "not_started"@,
        "command_digest"@ != "observed_unix_ms"@,
        "command_digest"@ != "guest_receipt"@,
        "command_digest"@ != "not_started"@,
        "observed_unix_ms"@ != "guest_receipt"@,
        "observed_unix_ms"@ != "not_started"@,
        "guest_receipt"@ != "not_started"@,
{
    reveal_strlit("phase");
    reveal_strlit("host_id");
    reveal_strlit("project_id");
    reveal_strlit("sandbox_id");
    reveal_strlit("operation_id");
    reveal_strlit("allocation_id");
    reveal_strlit("generation");
    reveal_strlit("supervisor_epoch");
    reveal_strlit("claim_revision");
    reveal_strlit("simulated");
    reveal_strlit("command_digest");
    reveal_strlit("observed_unix_ms");
    reveal_strlit("guest_receipt");
    reveal_strlit("not_started");
    assert("phase"@.len() == 5);
    assert("host_id"@.len() == 7);
    assert("project_id"@.len() == 10);
    assert("sandbox_id"@.len() == 10);
    assert("operation_id"@.len() == 12);
    assert("allocation_id"@.len() == 13);
    assert("generation"@.len() == 10);
    assert("supervisor_epoch"@.len() == 16);
    assert("claim_revision"@.len() == 14);
    assert("simulated"@.len() == 9);
    assert("command_digest"@.len() == 14);
    assert("observed_unix_ms"@.len() == 16);
    assert("guest_receipt"@.len() == 13);
    assert("not_started"@.len() == 11);
    assert("project_id"@[0] != "sandbox_id"@[0]);
    assert("project_id"@[0] != "generation"@[0]);
    assert("sandbox_id"@[0] != "generation"@[0]);
    assert("allocation_id"@[0] != "guest_receipt"@[0]);
    assert("supervisor_epoch"@[0] != "observed_unix_ms"@[0]);
    assert("claim_revision"@[1] != "command_digest"@[1]);
}

/// The document tells a stream as the guest counted it: the bytes it saw, the bytes
/// it stored, and whether it dropped any.
pub open spec fn tells_stream(d: Option<Doc>, seen: u64, stored: u64, truncated: bool) -> bool {
    d matches Some(s) && {
        &&& field(s, "seen"@) == Some(Doc::Number(decimal(seen as nat)))
        &&& field(s, "stored"@) == Some(Doc::Number(decimal(stored as nat)))
        &&& field(s, "truncated"@) == Some(Doc::Bool(truncated))
    }
}

/// The integer, or nothing.
pub open spec fn integer_or_null(n: Option<i32>) -> Doc {
    match n {
        Some(n) => number(n as int),
        None => Doc::Null,
    }
}

/// The flag, or nothing.
pub open spec fn flag_or_null(b: Option<bool>) -> Doc {
    match b {
        Some(b) => Doc::Bool(b),
        None => Doc::Null,
    }
}

/// The first thing kept of a command is the intent to dispatch exactly it: for the
/// same host, project, sandbox, operation and allocation, at the same generation and
/// epoch, with the same digest; and it was attempted once.
pub open spec fn intent_kept(op: &OperationRow, owner: Ownership, digest: Seq<u8>) -> bool {
    &&& op.attempt_count == 1
    &&& item(op.attempt_receipts@, 0) matches Some(d) && {
        &&& field(d, "phase"@) == Some(Doc::Text("execute_dispatch_intent"@))
        &&& field(d, "command_digest"@) == Some(Doc::Text(hex_text(digest)))
        &&& field(d, "host_id"@) == Some(Doc::Text(owner.host_id@))
        &&& field(d, "project_id"@) == Some(Doc::Text(owner.project_id@))
        &&& field(d, "sandbox_id"@) == Some(Doc::Text(owner.sandbox_id@))
        &&& field(d, "operation_id"@) == Some(Doc::Text(owner.operation_id@))
        &&& field(d, "allocation_id"@) == Some(Doc::Text(owner.allocation_id@))
        &&& field(d, "generation"@) == Some(number(owner.generation as int))
        &&& field(d, "supervisor_epoch"@) == Some(number(owner.supervisor_epoch as int))
    }
}

/// A recorded result tells each stream of the receipt under the stream's own name,
/// and the exit code and the signal that the guest reported.
pub proof fn results_report_the_receipt(r: Receipt, simulated: Option<bool>)
    ensures
        tells_stream(
            field(command_result(r, simulated), "stdout"@),
            r.stdout.seen,
            r.stdout.stored,
            r.stdout.truncated,
        ),
        tells_stream(
            field(command_result(r, simulated), "stderr"@),
            r.stderr.seen,
            r.stderr.stored,
            r.stderr.truncated,
        ),
        field(command_result(r, simulated), "exit_code"@) == Some(integer_or_null(r.exit_code)),
        field(command_result(r, simulated), "signal"@) == Some(integer_or_null(r.signal)),
        field(command_result(r, simulated), "simulated"@) == Some(flag_or_null(simulated)),
        field(command_result(r, simulated), "guest_reported"@) == Some(Doc::Bool(true)),
{
    broadcast use lemma_pushed_member;

    lemma_result_words();
}

/// A key that was never used resolves to nothing; one that was used resolves to the
/// command it was first used for where the request is the same, and to a conflict
/// where it is another.
pub proof fn execute_keys_name_the_first_command(
    row: Option<&RetryRow>,
    digest: &RequestDigest,
    r: Option<ExecuteAdmission>,
)
    requires
        execute_resolved(row, digest, r),
    ensures
        row is None <==> r is None,
        row matches Some(old) ==> {
            &&& old.request_digest@ != digest.bytes@ <==> r == Some(ExecuteAdmission::DigestConflict)
            &&& old.request_digest@ == digest.bytes@ ==> (r matches Some(
                ExecuteAdmission::Accepted { operation_id, status },
            ) && operation_id == old.id && status@ == old.status@)
        },
{
}

/// A command is queued against the allocation of a sandbox that is running, wanted
/// running, ready and free, until its deadline: one that lies after now, no more than
/// six hours ahead, and not past the sandbox's own end.
pub proof fn running_sandboxes_take_commands(
    rows: &ExecuteRows,
    digest: &RequestDigest,
    deadline_ms: i64,
    sandbox: SandboxRow,
    r: Result<ExecuteDecision, DispatchError>,
)
    requires
        execute_decided(rows, digest, deadline_ms, r),
        rows.authorized == Some(true),
        rows.old is None,
        rows.sandbox == Some(&sandbox),
        sandbox.desired_state@ != "destroyed"@,
        sandbox.active_transition_operation_id is None,
        sandbox.observed_state@ == "running"@,
        sandbox.current_allocation_id is Some,
        rows.active is None,
        rows.now >= 0,
        1 <= deadline_ms - rows.now / 1000000 <= 21600000,
        deadline_ms <= 253402300799999,
        sandbox.expires_at matches Some(t) ==> rows.now < t && deadline_ms * 1000000 <= t,
        rows.ready == Some(true),
    ensures
        r matches Ok(ExecuteDecision::Admit { allocation, deadline }) && sandbox.current_allocation_id == Some(
            allocation,
        ) && deadline == deadline_ms * 1000000,
{
}

/// A command that is not admitted is told why, and the first reason counts.
pub proof fn execute_requests_are_refused_for_their_reason(
    rows: &ExecuteRows,
    digest: &RequestDigest,
    deadline_ms: i64,
    r: Result<ExecuteDecision, DispatchError>,
)
    requires
        execute_decided(rows, digest, deadline_ms, r),
    ensures
        rows.authorized != Some(true) <==> r == Ok::<ExecuteDecision, DispatchError>(
            ExecuteDecision::Settled(ExecuteAdmission::Unauthorized),
        ),
        rows.authorized == Some(true) && rows.old is Some ==> (r matches Ok(ExecuteDecision::Settled(a)) && {
            &&& rows.old->0.request_digest@ != digest.bytes@ <==> a is DigestConflict
            &&& rows.old->0.request_digest@ == digest.bytes@ ==> (a matches ExecuteAdmission::Accepted {
                operation_id,
                status,
            } && operation_id == rows.old->0.id && status@ == rows.old->0.status@)
        }),
        rows.authorized == Some(true) && rows.old is None ==> {
            &&& rows.sandbox is None <==> r == Ok::<ExecuteDecision, DispatchError>(
                ExecuteDecision::Settled(ExecuteAdmission::NotFound),
            )
            &&& rows.sandbox matches Some(sandbox) ==> {
                let gone = sandbox.desired_state@ == "destroyed"@;
                let moving = sandbox.active_transition_operation_id is Some;
                let running = sandbox.observed_state@ == "running"@ && sandbox.current_allocation_id is Some;
                &&& gone <==> r == Ok::<ExecuteDecision, DispatchError>(ExecuteDecision::Settled(ExecuteAdmission::Gone))
                &&& !gone && moving ==> r == Ok::<ExecuteDecision, DispatchError>(
                    ExecuteDecision::Settled(
                        ExecuteAdmission::Busy(sandbox.active_transition_operation_id->0),
                    ),
                )
                &&& !gone && !moving && !running ==> r == Ok::<ExecuteDecision, DispatchError>(
                    ExecuteDecision::Settled(ExecuteAdmission::NotRunning),
                )
                &&& !gone && !moving && running && rows.active is Some ==> r == Ok::<ExecuteDecision, DispatchError>(
                    ExecuteDecision::Settled(ExecuteAdmission::Busy(rows.active->0)),
                )
            }
        },
        r matches Ok(ExecuteDecision::Admit { .. }) ==> rows.ready == Some(true) && rows.sandbox is Some
            && rows.sandbox->0.observed_state@ == "running"@ && rows.active is None,
{
}

/// A deadline that has passed, that lies more than six hours ahead, or that lies past
/// the sandbox's own end admits no command.
pub proof fn bad_deadlines_admit_no_command(
    rows: &ExecuteRows,
    digest: &RequestDigest,
    deadline_ms: i64,
    sandbox: SandboxRow,
    r: Result<ExecuteDecision, DispatchError>,
)
    requires
        execute_decided(rows, digest, deadline_ms, r),
        rows.authorized == Some(true),
        rows.old is None,
        rows.sandbox == Some(&sandbox),
        sandbox.desired_state@ != "destroyed"@,
        sandbox.active_transition_operation_id is None,
        sandbox.observed_state@ == "running"@,
        sandbox.current_allocation_id is Some,
        rows.active is None,
        rows.now >= 0,
        deadline_ms <= 253402300799999,
        deadline_ms <= rows.now / 1000000 || deadline_ms > rows.now / 1000000 + 21600000 || (
        sandbox.expires_at matches Some(t) && (t <= rows.now || t < deadline_ms * 1000000)),
    ensures
        r == Ok::<ExecuteDecision, DispatchError>(ExecuteDecision::Settled(ExecuteAdmission::InvalidDeadline)),
{
}

/// A claimed command runs for the owner that the rows name: its own operation and
/// project, the allocation that it is pinned to, and the claim; it runs what was
/// asked for, with the environment in the order of its keys.
pub proof fn commands_run_on_their_pinned_allocation(
    op: OperationRow,
    pinned: &AllocationRow,
    parsed: CommandInput,
    guest_accepts: bool,
    digest: Option<[u8; 32]>,
    revision: i64,
    r: Result<ExecuteContext, DispatchError>,
    lease: i128,
)
    requires
        command_found(Some(&op), pinned, Some(&parsed), guest_accepts, digest, revision, r),
        op.lease_expires_at == Some(lease),
        0 <= lease <= 9223372036854775807 * 1000000,
    ensures
        op.kind@ != "execute"@ <==> r == Err::<ExecuteContext, DispatchError>(DispatchError::Conflict),
        r is Ok <==> op.kind@ == "execute"@ && op.execution_allocation_id is Some && parsed.output_limit <= 10485760
            && guest_accepts && digest is Some,
        r matches Ok(c) ==> {
            &&& c.owner.host_id@ == id_text("hst"@, pinned.host_id.value)
            &&& c.owner.project_id@ == id_text("prj"@, op.project_id.value)
            &&& c.owner.sandbox_id@ == id_text("sbx"@, op.sandbox_id.value)
            &&& c.owner.allocation_id@ == id_text("alc"@, pinned.id.value)
            &&& c.owner.operation_id@ == id_text("op"@, op.id.value)
            &&& c.owner.generation == pinned.generation
            &&& c.owner.supervisor_epoch == pinned.supervisor_epoch
            &&& c.owner.claim_revision == revision
            &&& c.owner.claim_expires_unix_ms * 1000000 <= lease < c.owner.claim_expires_unix_ms * 1000000 + 1000000
            &&& c.command.operation_id == op.id
            &&& c.command.argv@ == parsed.argv@
            &&& member_views(c.command.env@) == in_key_order(member_views(parsed.env@))
            &&& c.command.cwd@ == parsed.cwd@
            &&& c.command.deadline_unix_ms == parsed.deadline_unix_ms
            &&& c.command.output_limit == parsed.output_limit
            &&& Some(c.digest) == digest
        },
{
}

/// A command that is no longer claimed runs for nobody, and one whose input cannot be
/// read is not run.
pub proof fn unclaimed_commands_do_not_run(
    op: Option<&OperationRow>,
    pinned: &AllocationRow,
    parsed: Option<&CommandInput>,
    guest_accepts: bool,
    digest: Option<[u8; 32]>,
    revision: i64,
    r: Result<ExecuteContext, DispatchError>,
)
    requires
        command_found(op, pinned, parsed, guest_accepts, digest, revision, r),
    ensures
        op is None <==> r == Err::<ExecuteContext, DispatchError>(DispatchError::LostClaim),
        parsed is None || digest is None ==> r is Err,
        op matches Some(row) ==> {
            &&& row.kind@ != "execute"@ <==> r == Err::<ExecuteContext, DispatchError>(DispatchError::Conflict)
            &&& row.lease_expires_at is None ==> r is Err
            &&& row.lease_expires_at matches Some(lease) ==> (lease >= (9223372036854775807 + 1) * 1000000 ==> r is Err)
            &&& row.execution_allocation_id is None ==> r is Err
            &&& row.kind@ == "execute"@ && r is Err ==> r == Err::<ExecuteContext, DispatchError>(
                DispatchError::InvalidData,
            )
        },
{
}

/// A kept intent is valid exactly where it is the intent to dispatch this command
/// for this owner.
pub proof fn intents_are_checked_in_every_field(
    op: &OperationRow,
    owner: &Ownership,
    digest: &[u8; 32],
    r: Result<(), DispatchError>,
)
    requires
        intent_validated(op, owner, digest, r),
    ensures
        intent_kept(op, *owner, digest@) <==> r is Ok,
        r is Err ==> r == Err::<(), DispatchError>(DispatchError::InvalidData),
{
}

/// A command that may have been dispatched is only inspected, and only where what is
/// kept of it is the intent to dispatch it; it is never dispatched again.
pub proof fn dispatched_commands_are_inspected(
    rows: &DispatchRows,
    c: &ExecuteContext,
    host: HostId,
    epoch: i64,
    r: Result<ExecuteStep, DispatchError>,
)
    requires
        execute_prepared(rows, c, host, epoch, r),
        rows.op.attempt_count > 0 || rows.op.status@ == "unknown"@,
    ensures
        intent_kept(rows.op, c.owner, c.digest@) <==> r == Ok::<ExecuteStep, DispatchError>(ExecuteStep::Inspect),
        !intent_kept(rows.op, c.owner, c.digest@) <==> r == Err::<ExecuteStep, DispatchError>(
            DispatchError::InvalidData,
        ),
{
}

/// A command that was never dispatched is dispatched exactly where its host is here
/// and ready, its project authorized, and its sandbox still runs on the allocation
/// that the command is pinned to; its intent names the owner and the command.
pub proof fn fresh_commands_are_dispatched_to_their_target(
    rows: &DispatchRows,
    c: &ExecuteContext,
    host: HostId,
    epoch: i64,
    r: Result<ExecuteStep, DispatchError>,
)
    requires
        execute_prepared(rows, c, host, epoch, r),
        rows.op.attempt_count <= 0,
        rows.op.status@ != "unknown"@,
    ensures
        ({
            let here = rows.pinned.host_id == host && c.owner.supervisor_epoch == epoch;
            let current = rows.sandbox.desired_state@ == "running"@ && rows.sandbox.observed_state@ == "running"@
                && rows.sandbox.active_transition_operation_id is None && rows.sandbox.current_allocation_id == Some(
                rows.pinned.id,
            ) && rows.sandbox.generation == rows.pinned.generation && rows.pinned.status@ == "running"@
                && rows.host_epoch == rows.pinned.supervisor_epoch;
            &&& here && rows.authorized && current && rows.host_ready ==> (r matches Ok(
                ExecuteStep::Dispatch { intent },
            ) && {
                &&& tells_owner(intent@, c.owner)
                &&& field(intent@, "phase"@) == Some(Doc::Text("execute_dispatch_intent"@))
                &&& field(intent@, "command_digest"@) == Some(Doc::Text(hex_text(c.digest@)))
            })
            &&& here && !rows.authorized ==> (r matches Ok(ExecuteStep::Reject { error }) && field(error@, "code"@)
                == Some(Doc::Text("execution_authority_expired"@)) && field(error@, "dispatch_intent_absent"@) == Some(
                Doc::Bool(true),
            ))
            &&& here && rows.authorized && !current ==> (r matches Ok(ExecuteStep::Reject { error }) && field(
                error@,
                "code"@,
            ) == Some(Doc::Text("execution_target_changed"@)) && field(error@, "dispatch_intent_absent"@) == Some(
                Doc::Bool(true),
            ))
            &&& !here || (rows.authorized && current && !rows.host_ready) <==> r == Err::<ExecuteStep, DispatchError>(
                DispatchError::HostUnavailable,
            )
        }),
{
    broadcast use lemma_pushed_member;

    evidence_tells_its_owner(c.owner, None, "execute_dispatch_intent"@);
    lemma_command_evidence_words();
    lemma_result_words();
}

/// A command that nothing is heard of is unknown, and stays so without an end: it
/// has no result, its error says that its outcome is unknown, and what is kept of it
/// stays.
pub proof fn lost_commands_are_unknown(op: &OperationRow, c: &ExecuteContext, r: Result<ExecuteOutcome, DispatchError>)
    requires
        execute_lost(op, c, r),
    ensures
        intent_kept(op, c.owner, c.digest@) <==> r is Ok,
        r matches Ok(x) ==> {
            &&& x.status@ == "unknown"@
            &&& x.phase@ == "reconciling"@
            &&& !x.terminal
            &&& !x.archive
            &&& x.result is None
            &&& x.error matches Some(e) && field(e@, "code"@) == Some(Doc::Text("outcome_unknown"@)) && field(
                e@,
                "simulated"@,
            ) == Some(Doc::Null)
            &&& item(x.history@, 0) == item(op.attempt_receipts@, 0)
            &&& item(x.history@, 1) == item(op.attempt_receipts@, 1)
            &&& item(x.history@, 2) is None
        },
{
    broadcast use lemma_pushed_member;

    lemma_result_words();
}

/// What becomes of a command is what the guest's receipt says: it succeeded where it
/// exited with zero, failed where it exited otherwise or ran out of time, was
/// cancelled, still runs, or is unknown. It has ended, and its output is archived,
/// exactly where it exited, timed out or was cancelled.
pub proof fn receipts_decide_what_became_of_a_command(
    op: &OperationRow,
    c: &ExecuteContext,
    pinned: &AllocationRow,
    o: CommandObservation,
    fresh: bool,
    allow_simulated: bool,
    receipt_valid: bool,
    receipt_document: Option<Json>,
    w: guest::Receipt,
    x: ExecuteOutcome,
)
    requires
        execute_observed(
            op,
            c,
            pinned,
            o,
            fresh,
            allow_simulated,
            receipt_valid,
            receipt_document,
            Ok::<ExecuteOutcome, DispatchError>(x),
        ),
        o.receipt == Some(w),
    ensures
        ({
            let ended = w.state == Some(guest::State::Exited) || w.state == Some(guest::State::TimedOut) || w.state
                == Some(guest::State::Cancelled);
            x.terminal == ended && x.archive == ended
        }),
        w.state == Some(guest::State::Exited) && w.exit_code == Some(0i32) ==> x.status@ == "succeeded"@ && x.phase@
            == "exited"@ && x.error is None,
        w.state == Some(guest::State::Exited) && w.exit_code != Some(0i32) ==> x.status@ == "failed"@ && x.phase@
            == "exited"@ && fails_with(x.error, "command_failed"@, o.simulated),
        w.state == Some(guest::State::TimedOut) ==> x.status@ == "failed"@ && x.phase@ == "timed_out"@ && fails_with(
            x.error,
            "deadline_exceeded"@,
            o.simulated,
        ),
        w.state == Some(guest::State::Cancelled) ==> x.status@ == "cancelled"@ && x.phase@ == "cancelled"@
            && x.error is None,
        w.state == Some(guest::State::LaunchIntent) ==> x.status@ == "running"@ && x.phase@ == "executing"@
            && x.error is None,
        w.state == Some(guest::State::Unknown) ==> x.status@ == "unknown"@ && x.phase@ == "reconciling"@ && fails_with(
            x.error,
            "outcome_unknown"@,
            o.simulated,
        ),
{
    broadcast use lemma_pushed_member;

    lemma_result_words();
}

/// An error that tells its code and whether what it reports was simulated.
pub open spec fn fails_with(error: Option<Json>, code: Seq<char>, simulated: bool) -> bool {
    error matches Some(e) && field(e@, "code"@) == Some(Doc::Text(code)) && field(e@, "simulated"@) == Some(
        Doc::Bool(simulated),
    )
}

/// What is recorded of a report is what the guest reported: each stream under its own
/// name, the exit code, the signal; and what is kept is the intent as it was, with
/// the report behind it, which names the owner, the receipt and when the host saw it.
pub proof fn recorded_results_report_the_guests_receipt(
    op: &OperationRow,
    c: &ExecuteContext,
    pinned: &AllocationRow,
    o: CommandObservation,
    fresh: bool,
    allow_simulated: bool,
    receipt_valid: bool,
    receipt_document: Option<Json>,
    w: guest::Receipt,
    x: ExecuteOutcome,
)
    requires
        execute_observed(
            op,
            c,
            pinned,
            o,
            fresh,
            allow_simulated,
            receipt_valid,
            receipt_document,
            Ok::<ExecuteOutcome, DispatchError>(x),
        ),
        o.receipt == Some(w),
    ensures
        x.result matches Some(d) && w.stdout matches Some(out) && w.stderr matches Some(err) && {
            &&& tells_stream(field(d@, "stdout"@), out.seen, out.stored, out.truncated)
            &&& tells_stream(field(d@, "stderr"@), err.seen, err.stored, err.truncated)
            &&& field(d@, "exit_code"@) == Some(integer_or_null(w.exit_code))
            &&& field(d@, "signal"@) == Some(integer_or_null(w.signal))
            &&& field(d@, "simulated"@) == Some(Doc::Bool(o.simulated))
            &&& field(d@, "guest_reported"@) == Some(Doc::Bool(true))
        },
        item(x.history@, 0) == item(op.attempt_receipts@, 0),
        item(x.history@, 1) matches Some(kept) && {
            &&& tells_owner(kept, c.owner)
            &&& field(kept, "phase"@) == Some(Doc::Text("command_observed"@))
            &&& field(kept, "simulated"@) == Some(Doc::Bool(o.simulated))
            &&& field(kept, "observed_unix_ms"@) == Some(number(o.observed_unix_ms as int))
            &&& receipt_document is Some && field(kept, "guest_receipt"@) == Some(receipt_document->0@)
        },
        item(x.history@, 2) is None,
{
    broadcast use lemma_pushed_member;

    let receipt = choose|receipt: Receipt| #[trigger]
        receipt_written(receipt, w) && receipt_of_command(receipt, *op, *c, *pinned) && outcome_recorded(
            x,
            *op,
            Some(receipt),
            false,
            Some(o.simulated),
            Some(observed_evidence(c.owner, Some(o.simulated), o.observed_unix_ms, receipt_document->0@)),
        );
    results_report_the_receipt(receipt, Some(o.simulated));
    evidence_tells_its_owner(c.owner, Some(o.simulated), "command_observed"@);
    lemma_command_evidence_words();
}

/// A command that its host fenced before it started has failed without a result; one
/// that the host has nothing to say of stays unknown. What is kept of a fenced one
/// names the owner and the command.
pub proof fn fenced_commands_have_failed(
    op: &OperationRow,
    c: &ExecuteContext,
    pinned: &AllocationRow,
    o: CommandObservation,
    fresh: bool,
    allow_simulated: bool,
    receipt_valid: bool,
    receipt_document: Option<Json>,
    x: ExecuteOutcome,
)
    requires
        execute_observed(
            op,
            c,
            pinned,
            o,
            fresh,
            allow_simulated,
            receipt_valid,
            receipt_document,
            Ok::<ExecuteOutcome, DispatchError>(x),
        ),
        o.receipt is None,
    ensures
        x.result is None,
        !x.archive,
        x.terminal == o.not_started,
        item(x.history@, 0) == item(op.attempt_receipts@, 0),
        o.not_started ==> {
            &&& x.status@ == "failed"@
            &&& x.phase@ == "not_started"@
            &&& fails_with(x.error, "command_not_started"@, o.simulated)
            &&& item(x.history@, 1) matches Some(kept) && {
                &&& tells_owner(kept, c.owner)
                &&& field(kept, "phase"@) == Some(Doc::Text("command_fenced_before_start"@))
                &&& field(kept, "not_started"@) == Some(Doc::Bool(true))
                &&& field(kept, "observed_unix_ms"@) == Some(number(o.observed_unix_ms as int))
                &&& field(kept, "command_digest"@) == Some(Doc::Text(hex_text(c.digest@)))
            }
        },
        !o.not_started ==> {
            &&& x.status@ == "unknown"@
            &&& x.phase@ == "reconciling"@
            &&& fails_with(x.error, "outcome_unknown"@, o.simulated)
            &&& item(x.history@, 1) == item(op.attempt_receipts@, 1)
        },
{
    broadcast use lemma_pushed_member;

    evidence_tells_its_owner(c.owner, Some(o.simulated), "command_fenced_before_start"@);
    lemma_command_evidence_words();
    lemma_result_words();
}

/// The boot that an earlier report of the command named, where there was one.
pub open spec fn boot_kept(op: &OperationRow, boot: Seq<char>) -> bool {
    item(op.attempt_receipts@, 1) matches Some(kept) && field(kept, "guest_receipt"@) matches Some(receipt) && field(
        receipt,
        "context"@,
    ) matches Some(context) && field(context, "boot_id"@) == Some(Doc::Text(boot))
}

/// A report counts only where the intent to dispatch the command is kept, it is the
/// owner's and fresh, it is of the same command, and it does not say that a command
/// never started that a receipt has been kept of; a simulated one counts only where
/// simulation is allowed. A receipt counts only where it is of this operation, this
/// allocation and generation, this deadline and output limit, and the same boot as
/// before.
pub proof fn only_reports_of_the_command_count(
    op: &OperationRow,
    c: &ExecuteContext,
    pinned: &AllocationRow,
    o: CommandObservation,
    fresh: bool,
    allow_simulated: bool,
    receipt_valid: bool,
    receipt_document: Option<Json>,
    r: Result<ExecuteOutcome, DispatchError>,
)
    requires
        execute_observed(op, c, pinned, o, fresh, allow_simulated, receipt_valid, receipt_document, r),
    ensures
        !intent_kept(op, c.owner, c.digest@) ==> r == Err::<ExecuteOutcome, DispatchError>(DispatchError::InvalidData),
        intent_kept(op, c.owner, c.digest@) && o.simulated && !allow_simulated ==> r == Err::<
            ExecuteOutcome,
            DispatchError,
        >(DispatchError::SimulationDenied),
        r is Ok ==> {
            &&& reports_for(o.ownership, c.owner)
            &&& o.command_digest@ == c.digest@
            &&& fresh
            &&& o.not_started ==> o.receipt is None
            &&& o.not_started ==> !(item(op.attempt_receipts@, 1) matches Some(kept) && field(
                kept,
                "guest_receipt"@,
            ) is Some)
        },
        r is Ok && o.receipt is Some ==> {
            let w = o.receipt->0;
            &&& receipt_valid
            &&& w.operation_id@ == id_text("op"@, op.id.value)
            &&& w.context matches Some(context) && context.allocation_id@ == id_text("alc"@, pinned.id.value)
                && context.generation == c.owner.generation && (forall|boot: Seq<char>| #[trigger]
                boot_kept(op, boot) ==> boot == context.boot_id@)
            &&& w.digest@ == c.digest@
            &&& w.deadline_unix_ms == c.command.deadline_unix_ms
            &&& w.output_limit == c.command.output_limit
        },
{
    owners_agree_in_every_field(o.ownership, c.owner);
    if r is Ok && o.receipt is Some {
        let w = o.receipt->0;
        let receipt = choose|receipt: Receipt| #[trigger]
            receipt_written(receipt, w) && receipt_of_command(receipt, *op, *c, *pinned);
        assert(receipt_of_command(receipt, *op, *c, *pinned));
    }
}

/// The guest's own receipt of the command counts: written by the guest that runs the
/// allocation, of this operation, with the command's digest, deadline and limit, and
/// of the boot that was reported before.
pub proof fn the_commands_own_receipt_counts(
    op: &OperationRow,
    c: &ExecuteContext,
    pinned: &AllocationRow,
    o: CommandObservation,
    allow_simulated: bool,
    document: Json,
    w: guest::Receipt,
    receipt: Receipt,
    r: Result<ExecuteOutcome, DispatchError>,
)
    requires
        execute_observed(op, c, pinned, o, true, allow_simulated, true, Some(document), r),
        intent_kept(op, c.owner, c.digest@),
        reports_for(o.ownership, c.owner),
        o.command_digest@ == c.digest@,
        !o.not_started,
        o.simulated ==> allow_simulated,
        o.receipt == Some(w),
        receipt_written(receipt, w),
        receipt.operation_id == op.id,
        version_of(op.id.value) == 7,
        receipt.context.allocation_id == pinned.id,
        version_of(pinned.id.value) == 7,
        receipt.context.generation == c.owner.generation,
        receipt.context.generation > 0,
        byte_len(receipt.context.boot_id@) <= 64,
        forall|boot: Seq<char>| #[trigger] boot_kept(op, boot) ==> boot == receipt.context.boot_id@,
        receipt.digest@ == c.digest@,
        receipt.deadline_unix_ms == c.command.deadline_unix_ms,
        receipt.output_limit == c.command.output_limit,
    ensures
        r is Ok,
{
    owners_agree_in_every_field(o.ownership, c.owner);
    written_receipt_reads_back(receipt, w, receipt);
    assert forall|read: Receipt| #[trigger] receipt_written(read, w) implies receipt_of_command(
        read,
        *op,
        *c,
        *pinned,
    ) by {
        written_receipt_reads_back(receipt, w, read);
        if recorded_boot(item(op.attempt_receipts@, 1)) is Some {
            assert(boot_kept(op, recorded_boot(item(op.attempt_receipts@, 1))->0));
        }
    }
}

} // verus!
