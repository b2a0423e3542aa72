//! Which operations can be retired, and in which boot they ran.
use crate::digest::hex_text;
use crate::document::{field, item, Doc};
use crate::files::upload_digest;
use crate::guest_model::Context;
use crate::store::compaction::{command_summarized, CommandSummary};
use crate::store::history::evidence::{
    command_judged, file_judged, operation_judged, CommandRows, DomainRows, FileRows,
};
use crate::store::history::Error;
use crate::store::laws::output::{keeps_owner, owner_from};
use crate::store::output::{completion_read, Evidence, OutputError};
use crate::store::rows::{AllocationRow, OperationRow};
use crate::supervisor::Ownership;
use crate::supervisor_files::record_check;
use vstd::prelude::*;

verus! {

/// The kinds, the ends and the phases that retirement goes by are apart.
proof fn lemma_retirement_words()
    ensures
        "execute"@ != "file_write"@,
        "succeeded"@ != "failed"@,
        "succeeded"@ != "cancelled"@,
        "failed"@ != "cancelled"@,
        "rejected_before_dispatch"@ != "cancelled_before_dispatch"@,
        "rejected_before_dispatch"@ != "not_started"@,
        "rejected_before_dispatch"@ != "cancelled_before_start"@,
        "rejected_before_dispatch"@ != "exited"@,
        "rejected_before_dispatch"@ != "timed_out"@,
        "rejected_before_dispatch"@ != "cancelled"@,
        "cancelled_before_dispatch"@ != "not_started"@,
        "cancelled_before_dispatch"@ != "cancelled_before_start"@,
        "cancelled_before_dispatch"@ != "exited"@,
        "cancelled_before_dispatch"@ != "timed_out"@,
        "cancelled_before_dispatch"@ != "cancelled"@,
        "not_started"@ != "cancelled_before_start"@,
        "not_started"@ != "exited"@,
        "not_started"@ != "timed_out"@,
        "not_started"@ != "cancelled"@,
        "cancelled_before_start"@ != "exited"@,
        "cancelled_before_start"@ != "timed_out"@,
        "cancelled_before_start"@ != "cancelled"@,
        "exited"@ != "timed_out"@,
        "exited"@ != "cancelled"@,
        "timed_out"@ != "cancelled"@,
{
    reveal_strlit("execute");
    reveal_strlit("file_write");
    reveal_strlit("succeeded");
    reveal_strlit("failed");
    reveal_strlit("cancelled");
    reveal_strlit("rejected_before_dispatch");
    reveal_strlit("cancelled_before_dispatch");
    reveal_strlit("not_started");
    reveal_strlit("cancelled_before_start");
    reveal_strlit("exited");
    reveal_strlit("timed_out");
    assert("execute"@.len() == 7);
    assert("file_write"@.len() == 10);
    assert("succeeded"@.len() == 9);
    assert("failed"@.len() == 6);
    assert("cancelled"@.len() == 9);
    assert("rejected_before_dispatch"@.len() == 24);
    assert("cancelled_before_dispatch"@.len() == 25);
    assert("not_started"@.len() == 11);
    assert("cancelled_before_start"@.len() == 22);
    assert("exited"@.len() == 6);
    assert("timed_out"@.len() == 9);
    assert("succeeded"@[0] != "cancelled"@[0]);
    assert("timed_out"@[0] != "cancelled"@[0]);
}

/// The operation has ended and nobody owns it or will try it again.
pub open spec fn at_rest(op: OperationRow) -> bool {
    &&& op.status@ == "succeeded"@ || op.status@ == "failed"@ || op.status@ == "cancelled"@
    &&& op.completed_at is Some
    &&& op.lease_expires_at is None
    &&& op.next_retry_at is None
}

/// Only operations of the domain are judged, and one that is not at rest must stay.
pub proof fn operations_at_rest_are_judged(
    rows: &DomainRows,
    a: &AllocationRow,
    allow_simulated: bool,
    r: Result<Option<Option<Context>>, Error>,
)
    requires
        operation_judged(rows, a, allow_simulated, r),
    ensures
        ({
            let (op, kind) = match *rows {
                DomainRows::Commands(c) => (*c.execution.op, "execute"@),
                DomainRows::Files(op, _) => (*op, "file_write"@),
            };
            &&& op.kind@ != kind ==> r == Err::<Option<Option<Context>>, Error>(Error::Evidence)
            &&& op.kind@ == kind && !at_rest(op) ==> r == Ok::<Option<Option<Context>>, Error>(None)
            &&& op.kind@ == kind && at_rest(op) ==> {
                &&& *rows matches DomainRows::Commands(c) ==> command_judged(&c, a, allow_simulated, r)
                &&& *rows matches DomainRows::Files(o, f) ==> file_judged(o, &f, allow_simulated, r)
            }
        }),
{
}

/// A command that ended without being dispatched can be retired without a boot, and
/// only where it left nothing: nothing kept of it and no output.
pub proof fn undispatched_commands_can_be_retired(
    rows: &CommandRows,
    a: &AllocationRow,
    allow_simulated: bool,
    summary: Result<CommandSummary, OutputError>,
    r: Result<Option<Option<Context>>, Error>,
)
    requires
        command_judged(rows, a, allow_simulated, r),
        command_summarized(&rows.columns, summary),
        rows.execution.op.attempt_count == 0,
    ensures
        ({
            let op = *rows.execution.op;
            let rejected = op.status@ == "failed"@ && (op.phase matches Some(p) && p@ == "rejected_before_dispatch"@);
            let cancelled = op.status@ == "cancelled"@ && (op.phase matches Some(p) && p@
                == "cancelled_before_dispatch"@);
            let left_nothing = op.attempt_receipts@ == Doc::List(Seq::<Doc>::empty()) && op.output_status@ == "none"@;
            &&& summary is Ok && (rejected || cancelled) && left_nothing <==> r == Ok::<
                Option<Option<Context>>,
                Error,
            >(Some(None))
            &&& !(summary is Ok && (rejected || cancelled) && left_nothing) <==> r == Err::<
                Option<Option<Context>>,
                Error,
            >(Error::Evidence)
        }),
{
}

/// A command that was dispatched and ended before it started can be retired without a
/// boot, where its intent and its fence are kept, both of its own allocation and
/// digest, and it left no output.
pub proof fn fenced_commands_can_be_retired(
    rows: &CommandRows,
    a: &AllocationRow,
    allow_simulated: bool,
    summary: CommandSummary,
    owner: Ownership,
    kept: Seq<Doc>,
    r: Result<Option<Option<Context>>, Error>,
)
    requires
        command_judged(rows, a, allow_simulated, r),
        command_summarized(&rows.columns, Ok::<CommandSummary, OutputError>(summary)),
        rows.execution.op.attempt_count == 1,
        rows.execution.op.phase matches Some(p) && (p@ == "not_started"@ || p@ == "cancelled_before_start"@),
        owner_from(owner, *rows.execution.op, *a),
        rows.execution.op.attempt_receipts@ == Doc::List(kept),
        kept.len() == 2,
    ensures
        ({
            let op = *rows.execution.op;
            let ended = (op.status@ == "failed"@ && op.phase->0@ == "not_started"@) || (op.status@ == "cancelled"@
                && op.phase->0@ == "cancelled_before_start"@);
            let sent = field(kept[0], "phase"@) == Some(Doc::Text("execute_dispatch_intent"@)) && field(
                kept[0],
                "command_digest"@,
            ) == Some(Doc::Text(hex_text(summary.digest@))) && keeps_owner(kept[0], owner);
            let fenced = field(kept[1], "phase"@) == Some(Doc::Text("command_fenced_before_start"@)) && field(
                kept[1],
                "not_started"@,
            ) == Some(Doc::Bool(true)) && field(kept[1], "guest_receipt"@) is None && field(kept[1], "command_digest"@)
                == Some(Doc::Text(hex_text(summary.digest@))) && keeps_owner(kept[1], owner);
            let told = field(kept[1], "simulated"@) == Some(Doc::Bool(false)) || (field(kept[1], "simulated"@) == Some(
                Doc::Bool(true),
            ) && allow_simulated);
            &&& ended && sent && fenced && told && op.output_status@ == "none"@ <==> r == Ok::<
                Option<Option<Context>>,
                Error,
            >(Some(None))
            &&& r is Err ==> r == Err::<Option<Option<Context>>, Error>(Error::Evidence)
        }),
{
    assert(item(rows.execution.op.attempt_receipts@, 0) == Some(kept[0]));
    assert(item(rows.execution.op.attempt_receipts@, 1) == Some(kept[1]));
}

/// A command that ran stays until its output has expired; then it can be retired in
/// the boot it ran in, where its completion is proven and what it left was cleaned up
/// or compacted.
pub proof fn finished_commands_are_retired_after_their_output(
    rows: &CommandRows,
    a: &AllocationRow,
    allow_simulated: bool,
    summary: CommandSummary,
    owner: Ownership,
    kept: Seq<Doc>,
    completion: Result<Evidence, OutputError>,
    r: Result<Option<Option<Context>>, Error>,
)
    requires
        command_judged(rows, a, allow_simulated, r),
        command_summarized(&rows.columns, Ok::<CommandSummary, OutputError>(summary)),
        completion_read(&rows.execution, completion),
        rows.execution.op.attempt_count == 1,
        rows.execution.op.phase matches Some(p) ==> p@ != "not_started"@ && p@ != "cancelled_before_start"@,
        owner_from(owner, *rows.execution.op, *a),
        rows.execution.op.attempt_receipts@ == Doc::List(kept),
        kept.len() == 2,
        field(kept[0], "phase"@) == Some(Doc::Text("execute_dispatch_intent"@)),
        field(kept[0], "command_digest"@) == Some(Doc::Text(hex_text(summary.digest@))),
        keeps_owner(kept[0], owner),
    ensures
        completion is Err ==> r == Err::<Option<Option<Context>>, Error>(Error::Evidence),
        completion matches Ok(e) ==> {
            let allowed = e.simulated ==> allow_simulated;
            let cleaned = if rows.has_ticket {
                rows.cleanup is Ok
            } else {
                rows.execution.op.payload_compacted_at is Some
            };
            &&& !allowed ==> r == Err::<Option<Option<Context>>, Error>(Error::Evidence)
            &&& allowed && rows.execution.op.output_status@ != "expired"@ ==> r == Ok::<
                Option<Option<Context>>,
                Error,
            >(None)
            &&& allowed && rows.execution.op.output_status@ == "expired"@ && cleaned ==> r == Ok::<
                Option<Option<Context>>,
                Error,
            >(Some(Some(e.receipt.context)))
            &&& allowed && rows.execution.op.output_status@ == "expired"@ && !cleaned ==> r == Err::<
                Option<Option<Context>>,
                Error,
            >(Error::Evidence)
        },
{
    assert(item(rows.execution.op.attempt_receipts@, 0) == Some(kept[0]));
    assert(item(rows.execution.op.attempt_receipts@, 1) == Some(kept[1]));
}

/// A file write stays until its source is retired. One that never began can then be
/// retired without a boot where it failed without an attempt and left no record; one
/// that began can be retired in its record's boot, where the record is of its own plan
/// and the write ended as the record says.
pub proof fn file_writes_are_retired_after_their_source(
    op: &OperationRow,
    file: &FileRows,
    allow_simulated: bool,
    r: Result<Option<Option<Context>>, Error>,
)
    requires
        file_judged(op, file, allow_simulated, r),
    ensures
        !file.retired <==> r == Ok::<Option<Option<Context>>, Error>(None),
        file.retired && file.plan is None ==> r == Err::<Option<Option<Context>>, Error>(Error::Evidence),
        file.retired && file.plan is Some && !file.begun ==> (op.status@ == "failed"@ && op.attempt_count == 0 && (
        op.phase matches Some(p) && p@ == "file_not_started"@) && *file.record is Absent <==> r == Ok::<
            Option<Option<Context>>,
            Error,
        >(Some(None))),
        file.retired && file.plan is Some && file.begun && !(*file.record is Value) ==> r is Err,
        file.retired && file.plan is Some && file.begun && *file.record is Value ==> {
            let x = file.record->Value_0;
            let plan = *file.plan->0;
            let outcome = if op.status@ == "succeeded"@ {
                op.result
            } else {
                op.error
            };
            let ended = op.phase matches Some(p) && {
                ||| x.not_started && op.status@ == "failed"@ && p@ == "file_not_started"@
                ||| !x.not_started && x.state == 3 && op.status@ == "succeeded"@ && p@ == "file_committed"@
                ||| !x.not_started && x.state == 5 && op.status@ == "failed"@ && p@ == "file_aborted"@
            };
            let own = record_check(x) is Ok && (upload_digest(plan.upload) matches Ok(digest) && x.digest@ == digest@) && (
            !x.not_started ==> x.size == plan.upload.size) && (x.context matches Some(c) ==> c.allocation_id
                == plan.owner.scope.allocation_id && c.generation == plan.owner.scope.generation);
            let told = outcome matches Some(d) && (field(d@, "simulated"@) == Some(Doc::Bool(false)) || (field(
                d@,
                "simulated"@,
            ) == Some(Doc::Bool(true)) && allow_simulated));
            &&& ended && own && told <==> r == Ok::<Option<Option<Context>>, Error>(Some(x.context))
            &&& !(ended && own && told) <==> r == Err::<Option<Option<Context>>, Error>(Error::Evidence)
        },
{
    lemma_retirement_words();
}

} // verus!
