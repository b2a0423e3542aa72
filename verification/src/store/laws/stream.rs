//! Streaming a command's output: from its guest while it runs there, from the
//! archive once it is published.
use crate::api::CommandInput;
use crate::document::{field, item, Doc};
use crate::guest_model::{Receipt, State};
use crate::store::laws::output::{owner_from, owner_usable, run_proven};
use crate::store::output::{execution_proven, historic_owner, ExecutionRows, OutputError, OutputView};
use crate::store::rows::{AllocationRow, OperationRow};
use crate::store::stream::{stream_archived, stream_resolved, StreamSource, StreamStep, StreamView};
use crate::supervisor::Ownership;
use crate::text::{byte_len, has_control};
use vstd::prelude::*;

verus! {

/// The states that a stream is resolved by are apart.
proof fn lemma_stream_words()
    ensures
        "expired"@ != "published"@,
        "expired"@ != "running"@,
        "expired"@ != "unknown"@,
        "expired"@ != "succeeded"@,
        "expired"@ != "failed"@,
        "expired"@ != "cancelled"@,
        "published"@ != "running"@,
        "published"@ != "unknown"@,
        "published"@ != "succeeded"@,
        "published"@ != "failed"@,
        "published"@ != "cancelled"@,
        "running"@ != "unknown"@,
        "running"@ != "succeeded"@,
        "running"@ != "failed"@,
        "running"@ != "cancelled"@,
        "unknown"@ != "succeeded"@,
        "unknown"@ != "failed"@,
        "unknown"@ != "cancelled"@,
        "succeeded"@ != "failed"@,
        "succeeded"@ != "cancelled"@,
        "failed"@ != "cancelled"@,
        "executing"@ != "reconciling"@,
        "executing"@ != "exited"@,
        "executing"@ != "timed_out"@,
        "executing"@ != "cancelled"@,
        "reconciling"@ != "exited"@,
        "reconciling"@ != "timed_out"@,
        "reconciling"@ != "cancelled"@,
        "exited"@ != "timed_out"@,
        "exited"@ != "cancelled"@,
        "timed_out"@ != "cancelled"@,
{
    reveal_strlit("expired");
    reveal_strlit("published");
    reveal_strlit("running");
    reveal_strlit("unknown");
    reveal_strlit("succeeded");
    reveal_strlit("failed");
    reveal_strlit("cancelled");
    reveal_strlit("executing");
    reveal_strlit("reconciling");
    reveal_strlit("exited");
    reveal_strlit("timed_out");
    assert("expired"@.len() == 7);
    assert("published"@.len() == 9);
    assert("running"@.len() == 7);
    assert("unknown"@.len() == 7);
    assert("succeeded"@.len() == 9);
    assert("failed"@.len() == 6);
    assert("cancelled"@.len() == 9);
    assert("executing"@.len() == 9);
    assert("reconciling"@.len() == 11);
    assert("exited"@.len() == 6);
    assert("timed_out"@.len() == 9);
    assert("expired"@[0] != "running"@[0]);
    assert("expired"@[0] != "unknown"@[0]);
    assert("published"@[0] != "succeeded"@[0]);
    assert("published"@[0] != "cancelled"@[0]);
    assert("running"@[0] != "unknown"@[0]);
    assert("succeeded"@[0] != "cancelled"@[0]);
    assert("executing"@[0] != "timed_out"@[0]);
    assert("executing"@[0] != "cancelled"@[0]);
    assert("timed_out"@[0] != "cancelled"@[0]);
}

/// The output's or the response's time is over, or the output says so itself.
pub open spec fn over(op: OperationRow, now: i128) -> bool {
    op.output_status@ == "expired"@ || (op.output_expires_at matches Some(t) && t <= now) || (
    op.response_expires_at matches Some(t) && t <= now)
}

/// The end that a stream shows is the earlier of the two deadlines, where there is
/// one.
pub open spec fn stream_end(op: OperationRow, end: Option<i128>) -> bool {
    &&& end is None <==> op.output_expires_at is None && op.response_expires_at is None
    &&& end matches Some(t) ==> {
        &&& op.output_expires_at matches Some(x) ==> t <= x
        &&& op.response_expires_at matches Some(x) ==> t <= x
        &&& op.output_expires_at == Some(t) || op.response_expires_at == Some(t)
    }
}

/// A stream whose time is over is expired and shows nothing else; every stream that
/// is shown says when it ends.
pub proof fn streams_end_at_the_earlier_deadline(
    rows: &ExecutionRows,
    now: i128,
    live: bool,
    r: Result<StreamStep, OutputError>,
)
    requires
        stream_resolved(rows, now, live, r),
    ensures
        over(*rows.op, now) <==> (r matches Ok(StreamStep::Found(v)) && v.source is Expired),
        r matches Ok(StreamStep::Found(v)) ==> stream_end(*rows.op, v.expires_at),
        r is Err ==> r == Err::<StreamStep, OutputError>(OutputError::Corrupt),
{
}

/// Before its time is over, published output is read from the archive; a command that
/// was never attempted, or that is only known to have been sent, is pending; one that
/// was fenced before it started has no stream.
pub proof fn streams_are_found_where_the_command_stands(
    rows: &ExecutionRows,
    now: i128,
    live: bool,
    r: Result<StreamStep, OutputError>,
)
    requires
        stream_resolved(rows, now, live, r),
        !over(*rows.op, now),
    ensures
        rows.op.output_status@ == "published"@ <==> r == Ok::<StreamStep, OutputError>(StreamStep::Published),
        rows.op.output_status@ != "published"@ ==> {
            &&& rows.op.attempt_count == 0 ==> (r matches Ok(StreamStep::Found(v)) && v.source is Pending)
            &&& rows.op.attempt_count != 0 && rows.op.attempt_count != 1 ==> r is Err
            &&& rows.op.attempt_count == 1 ==> match rows.op.attempt_receipts@ {
                Doc::List(kept) => {
                    &&& kept.len() == 1 ==> (r matches Ok(StreamStep::Found(v)) && v.source is Pending)
                    &&& kept.len() == 2 && field(kept[1], "phase"@) == Some(
                        Doc::Text("command_fenced_before_start"@),
                    ) ==> (r matches Ok(StreamStep::Found(v)) && v.source is Missing)
                    &&& kept.len() != 1 && kept.len() != 2 ==> r is Err
                },
                _ => r is Err,
            }
        },
{
}

/// The command stands as its receipt says: it runs, it is unknown, or it ended in the
/// way that the guest reported.
pub open spec fn stands_as_received(op: OperationRow, r: Receipt) -> bool {
    op.phase matches Some(phase) && {
        ||| op.completed_at is None && op.status@ == "running"@ && phase@ == "executing"@ && r.state == State::LaunchIntent
        ||| op.completed_at is None && op.status@ == "unknown"@ && phase@ == "reconciling"@ && (r.state
            == State::LaunchIntent || r.state == State::Unknown)
        ||| op.completed_at is Some && op.status@ == "succeeded"@ && phase@ == "exited"@ && r.state == State::Exited
            && r.exit_code == Some(0i32)
        ||| op.completed_at is Some && op.status@ == "failed"@ && phase@ == "exited"@ && r.state == State::Exited
            && r.exit_code != Some(0i32)
        ||| op.completed_at is Some && op.status@ == "failed"@ && phase@ == "timed_out"@ && r.state == State::TimedOut
        ||| op.completed_at is Some && op.status@ == "cancelled"@ && phase@ == "cancelled"@ && r.state
            == State::Cancelled
    }
}

/// A command that its guest has reported on is streamed live from exactly the guest
/// that runs it, where it is proven, it stands as its receipt says, and its allocation
/// is still there; where that is gone the stream is missing.
pub proof fn reported_commands_are_streamed_from_their_guest(
    rows: &ExecutionRows,
    now: i128,
    live: bool,
    kept: Seq<Doc>,
    pinned: AllocationRow,
    command: CommandInput,
    digest: [u8; 32],
    receipt: Receipt,
    owner: Ownership,
    r: Result<StreamStep, OutputError>,
)
    requires
        stream_resolved(rows, now, live, r),
        !over(*rows.op, now),
        rows.op.output_status@ != "published"@,
        rows.op.attempt_count == 1,
        rows.op.attempt_receipts@ == Doc::List(kept),
        kept.len() == 2,
        field(kept[1], "phase"@) != Some(Doc::Text("command_fenced_before_start"@)),
        rows.pinned == Some(&pinned),
        rows.command == Some(&command),
        rows.digest == Some(digest),
        rows.receipt == Some(&receipt),
        owner_from(owner, *rows.op, pinned),
    ensures
        !run_proven(rows, pinned, command, digest, receipt, owner) ==> r is Err,
        !stands_as_received(*rows.op, receipt) ==> r is Err,
        run_proven(rows, pinned, command, digest, receipt, owner) && stands_as_received(*rows.op, receipt) && !live ==> (
        r matches Ok(StreamStep::Found(v)) && v.source is Missing),
        live ==> (r matches Ok(step) ==> (step matches StreamStep::Found(v) && v.source matches StreamSource::Live {
            scope,
            simulated,
        } && {
            &&& scope.version == 1
            &&& scope.owner.project_id == rows.op.project_id
            &&& scope.owner.sandbox_id == rows.op.sandbox_id
            &&& scope.owner.operation_id == rows.op.id
            &&& scope.owner.allocation_id == pinned.id
            &&& scope.owner.generation == pinned.generation
            &&& scope.owner.host_id == pinned.host_id
            &&& scope.owner.host_epoch == pinned.supervisor_epoch
            &&& scope.owner.boot_id@ == receipt.context.boot_id@
            &&& scope.command_digest == receipt.digest
            &&& scope.output_limit == receipt.output_limit
            &&& scope.deadline_unix_ms == receipt.deadline_unix_ms
            &&& owner_usable(scope.owner)
            &&& scope.deadline_unix_ms > 0
            &&& 1 <= scope.output_limit <= 10485760
            &&& field(kept[1], "simulated"@) == Some(Doc::Bool(simulated))
        })),
        run_proven(rows, pinned, command, digest, receipt, owner) && stands_as_received(*rows.op, receipt) && live
            && pinned.generation >= 1 && pinned.supervisor_epoch >= 1 && receipt.context.boot_id@.len() >= 1 && byte_len(
            receipt.context.boot_id@,
        ) <= 64 && !has_control(receipt.context.boot_id@) && receipt.deadline_unix_ms > 0 && 1 <= receipt.output_limit
            <= 10485760 ==> r is Ok,
{
    assert(item(rows.op.attempt_receipts@, 0) == Some(kept[0]));
    assert(item(rows.op.attempt_receipts@, 1) == Some(kept[1]));
    assert forall|o: Ownership| #[trigger] historic_owner(o, *rows.op, pinned) implies (execution_proven(*rows, o)
        <==> run_proven(rows, pinned, command, digest, receipt, owner)) by {}
    assert(historic_owner(owner, *rows.op, pinned));
}

/// Published output is shown as it is until it expires.
pub proof fn archived_streams_show_the_published_output(view: OutputView, r: StreamView)
    requires
        stream_archived(view, r),
    ensures
        r.expires_at == view.expires_at,
        view.status@ == "expired"@ <==> r.source is Expired,
        view.status@ != "expired"@ ==> (r.source matches StreamSource::Archived(v) && *v == view),
{
}

} // verus!
