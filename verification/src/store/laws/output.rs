//! Keeping a command's output: when it may be, for how long, of which streams, and
//! what a project is shown of it.
use crate::api::CommandInput;
use crate::digest::hex_text;
use crate::document::{field, item, number, Doc};
use crate::guest_model::{Output, Receipt, State};
use crate::ids::{id_text, OperationId};
use crate::output::{OutputName, OutputOwner, OutputPlan, OutputPlans, OutputRef, OutputRefs, OutputTicket};
use crate::store::output::{
    completion_read, execution_proven, execution_read, historic_owner, output_claimed, output_prepared, output_seen,
    output_unseen, pair_read, plans_checked, plans_saved, refs_accepted, retained_written, retention_checked, work_saved,
    Column, Evidence, ExecutionRows, OutputError, OutputView, OutputWork,
};
use crate::store::rows::{AllocationRow, OperationRow};
use crate::supervisor::Ownership;
use crate::text::{byte_len, has_control, lower_hex_text};
use vstd::prelude::*;

verus! {

/// An output's owner that anything may be kept for: of a real generation and epoch,
/// with a boot's name that is present, of at most 64 bytes and without control
/// characters.
pub open spec fn owner_usable(o: OutputOwner) -> bool {
    o.generation >= 1 && o.host_epoch >= 1 && o.boot_id@.len() >= 1 && byte_len(o.boot_id@) <= 64 && !has_control(
        o.boot_id@,
    )
}

/// The two owners are the same: project, sandbox, operation, allocation, generation,
/// host, epoch and boot.
pub open spec fn owners_alike(a: OutputOwner, b: OutputOwner) -> bool {
    a.project_id == b.project_id && a.sandbox_id == b.sandbox_id && a.operation_id == b.operation_id && a.allocation_id
        == b.allocation_id && a.generation == b.generation && a.host_id == b.host_id && a.host_epoch == b.host_epoch
        && a.boot_id@ == b.boot_id@
}

/// The plan is for this stream of the receipt, under this ticket: the bytes that the
/// guest stored, and whether it saw more; an object of at most ten MiB with a digest
/// of 64 lower-case hexadecimal digits; the ticket's owner, attempt and retention.
pub open spec fn plan_describes(p: OutputPlan, name: OutputName, stream: Output, t: OutputTicket) -> bool {
    &&& p.version == 1
    &&& p.name == name
    &&& p.size == stream.stored
    &&& p.seen == stream.seen
    &&& p.truncated == stream.truncated
    &&& p.size <= 10485760
    &&& p.size <= p.seen
    &&& p.truncated <==> p.size < p.seen
    &&& p.sha256@.len() == 64
    &&& lower_hex_text(p.sha256@)
    &&& owner_usable(p.owner)
    &&& owners_alike(p.owner, t.owner)
    &&& p.upload_attempt == t.upload_attempt
    &&& p.created_unix_ms == t.created_unix_ms
    &&& p.expires_unix_ms == t.expires_unix_ms
    &&& p.delete_after_unix_ms == t.delete_after_unix_ms
}

/// A ticket that anything may be uploaded under: an owner that is usable, a limit of
/// one byte to ten MiB, and a retention that begins after the epoch, lasts, and is
/// not deleted before it ends.
pub open spec fn ticket_usable(t: OutputTicket) -> bool {
    &&& t.version == 1
    &&& owner_usable(t.owner)
    &&& 1 <= t.output_limit <= 10485760
    &&& 0 < t.created_unix_ms < t.expires_unix_ms
    &&& t.expires_unix_ms <= t.delete_after_unix_ms
}

/// The plans are those of the receipt's two streams, each under its own name, and
/// together they stay within the ticket's limit.
pub open spec fn plans_describe(t: OutputTicket, plans: OutputPlans, r: Receipt) -> bool {
    &&& ticket_usable(t)
    &&& plan_describes(plans.stdout, OutputName::Stdout, r.stdout, t)
    &&& plan_describes(plans.stderr, OutputName::Stderr, r.stderr, t)
    &&& plans.stdout.size + plans.stderr.size <= t.output_limit
}

/// Plans are proven exactly where they describe the receipt's own streams under the
/// ticket.
pub proof fn plans_are_held_to_the_receipt(
    ticket: &OutputTicket,
    plans: &OutputPlans,
    e: &Evidence,
    r: Result<(), OutputError>,
)
    requires
        plans_checked(ticket, plans, e, r),
    ensures
        plans_describe(*ticket, *plans, e.receipt) <==> r is Ok,
        r is Err ==> r == Err::<(), OutputError>(OutputError::BadEvidence),
{
}

/// A new ticket begins when the command ended, and expires exactly at the earlier of
/// the end of the retention asked for and the end of the response, where that comes
/// after the command's end, and a millisecond after it where it does not. It is
/// deleted the grace after. It is for the proven owner and limit, and for the attempt
/// it was made for.
pub proof fn new_tickets_expire_with_the_earlier_deadline(
    op: &OperationRow,
    e: Evidence,
    attempt: OperationId,
    retention_seconds: u32,
    grace_seconds: u32,
    allow_simulated: bool,
    w: OutputWork,
    expiry: i128,
)
    requires
        output_prepared(
            op,
            e,
            None,
            attempt,
            retention_seconds,
            grace_seconds,
            allow_simulated,
            Ok::<(OutputWork, i128), OutputError>((w, expiry)),
        ),
    ensures
        ({
            let t = w.ticket;
            let full = t.created_unix_ms + retention_seconds * 1000;
            &&& op.completed_at matches Some(at) && t.created_unix_ms * 1000000 <= at < t.created_unix_ms * 1000000
                + 1000000
            &&& op.response_expires_at is None ==> t.expires_unix_ms == full
            &&& op.response_expires_at matches Some(until) ==> {
                &&& until >= full * 1000000 ==> t.expires_unix_ms == full
                &&& t.created_unix_ms * 1000000 + 1000000 <= until < full * 1000000 ==> t.expires_unix_ms * 1000000
                    <= until < t.expires_unix_ms * 1000000 + 1000000
                &&& until < t.created_unix_ms * 1000000 + 1000000 ==> t.expires_unix_ms == t.created_unix_ms + 1
            }
            &&& t.delete_after_unix_ms == t.expires_unix_ms + grace_seconds * 1000
            &&& t.version == 1
            &&& t.owner == e.owner
            &&& t.upload_attempt == attempt
            &&& t.output_limit == e.receipt.output_limit
        }),
        expiry == w.ticket.expires_unix_ms * 1000000,
        w.plans is None,
        w.receipt == e.receipt,
        w.simulated == e.simulated,
{
}

/// Output that was prepared before is prepared again as it was.
pub proof fn prepared_output_stays_as_it_is(
    op: &OperationRow,
    e: Evidence,
    before: OutputWork,
    attempt: OperationId,
    retention_seconds: u32,
    grace_seconds: u32,
    allow_simulated: bool,
    r: Result<(OutputWork, i128), OutputError>,
)
    requires
        output_prepared(
            op,
            e,
            Some(before),
            attempt,
            retention_seconds,
            grace_seconds,
            allow_simulated,
            r,
        ),
        1 <= retention_seconds <= 2592000,
        grace_seconds <= 604800,
        e.simulated ==> allow_simulated,
        ticket_usable(before.ticket),
        before.ticket.expires_unix_ms <= 253402300799999,
    ensures
        r == Ok::<(OutputWork, i128), OutputError>((before, (before.ticket.expires_unix_ms * 1000000) as i128)),
{
}

/// Output of a finished command is prepared where the policy allows its retention,
/// simulation is allowed if it was simulated, its owner is usable and its limit is
/// one byte to ten MiB.
pub proof fn finished_output_is_prepared(
    op: &OperationRow,
    e: Evidence,
    attempt: OperationId,
    retention_seconds: u32,
    grace_seconds: u32,
    allow_simulated: bool,
    completed: i128,
    r: Result<(OutputWork, i128), OutputError>,
)
    requires
        output_prepared(op, e, None, attempt, retention_seconds, grace_seconds, allow_simulated, r),
        op.completed_at == Some(completed),
        1000000 <= completed <= 253000000000000000000,
        op.response_expires_at matches Some(until) ==> 0 <= until <= 253000000000000000000,
        owner_usable(e.owner),
        1 <= e.receipt.output_limit <= 10485760,
    ensures
        r is Ok <==> 1 <= retention_seconds <= 2592000 && grace_seconds <= 604800 && (e.simulated ==> allow_simulated),
        !(1 <= retention_seconds <= 2592000 && grace_seconds <= 604800) <==> r == Err::<(OutputWork, i128), OutputError>(
            OutputError::InvalidPolicy,
        ),
        1 <= retention_seconds <= 2592000 && grace_seconds <= 604800 && e.simulated && !allow_simulated <==> r == Err::<
            (OutputWork, i128),
            OutputError,
        >(OutputError::SimulationDenied),
{
}

/// A retention is allowed from one second to thirty days, with a grace of up to a
/// week.
pub proof fn retention_lasts_a_second_to_thirty_days(
    retention_seconds: u32,
    grace_seconds: u32,
    r: Result<(), OutputError>,
)
    requires
        retention_checked(retention_seconds, grace_seconds, r),
    ensures
        r is Ok <==> retention_seconds >= 1 && retention_seconds <= 2592000 && grace_seconds <= 604800,
        r is Err ==> r == Err::<(), OutputError>(OutputError::InvalidPolicy),
{
}

/// Saved work is read back as it was saved, exactly where its ticket is usable, of
/// the proven owner and limit, and expires when the operation's output does, and its
/// plans, if it has any, describe the receipt; anything else that was saved is no
/// work.
pub proof fn saved_work_reads_back(
    t: OutputTicket,
    plans: Column<OutputPlans>,
    output_expires_at: Option<i128>,
    e: &Evidence,
    r: Result<Option<OutputWork>, OutputError>,
)
    requires
        work_saved(Column::Value(t), plans, output_expires_at, e, r),
    ensures
        r is Ok <==> {
            &&& ticket_usable(t)
            &&& owners_alike(t.owner, e.owner)
            &&& t.output_limit == e.receipt.output_limit
            &&& output_expires_at matches Some(until) && (until >= 0 && t.expires_unix_ms * 1000000 <= until
                < t.expires_unix_ms * 1000000 + 1000000)
            &&& !(plans is Unreadable)
            &&& plans matches Column::Value(p) ==> plans_describe(t, p, e.receipt)
        },
        r is Err ==> r == Err::<Option<OutputWork>, OutputError>(OutputError::Corrupt),
        r matches Ok(x) ==> (x matches Some(w) && w.ticket == t && w.receipt == e.receipt && w.simulated == e.simulated && (
        plans matches Column::Value(p) ==> w.plans == Some(p)) && (plans is Absent ==> w.plans is None)),
{
}

/// Where no ticket was saved there is no work, and a ticket that cannot be read is
/// none.
pub proof fn absent_tickets_are_no_work(
    ticket: Column<OutputTicket>,
    plans: Column<OutputPlans>,
    output_expires_at: Option<i128>,
    e: &Evidence,
    r: Result<Option<OutputWork>, OutputError>,
)
    requires
        work_saved(ticket, plans, output_expires_at, e, r),
    ensures
        ticket is Absent <==> r == Ok::<Option<OutputWork>, OutputError>(None),
        ticket is Unreadable ==> r == Err::<Option<OutputWork>, OutputError>(OutputError::Corrupt),
{
}

/// The two plans are the same plan.
pub open spec fn plans_alike(a: OutputPlan, b: OutputPlan) -> bool {
    &&& a.version == b.version
    &&& owners_alike(a.owner, b.owner)
    &&& a.upload_attempt == b.upload_attempt
    &&& a.name == b.name
    &&& a.size == b.size
    &&& a.sha256@ == b.sha256@
    &&& a.seen == b.seen
    &&& a.truncated == b.truncated
    &&& a.created_unix_ms == b.created_unix_ms
    &&& a.expires_unix_ms == b.expires_unix_ms
    &&& a.delete_after_unix_ms == b.delete_after_unix_ms
}

/// Plans are saved exactly where the work was prepared, they describe the receipt
/// under its ticket, and they are the plans that were saved before, if any were.
pub proof fn plans_are_saved_once(
    work: &Option<OutputWork>,
    plans: &OutputPlans,
    e: &Evidence,
    allow_simulated: bool,
    r: Result<(), OutputError>,
)
    requires
        plans_saved(work, plans, e, allow_simulated, r),
    ensures
        e.simulated && !allow_simulated <==> r == Err::<(), OutputError>(OutputError::SimulationDenied),
        r is Ok <==> !(e.simulated && !allow_simulated) && (*work matches Some(w) && {
            &&& plans_describe(w.ticket, *plans, e.receipt)
            &&& w.plans matches Some(old) ==> plans_alike(old.stdout, plans.stdout) && plans_alike(
                old.stderr,
                plans.stderr,
            )
        }),
        r is Err ==> r == Err::<(), OutputError>(OutputError::SimulationDenied) || r == Err::<(), OutputError>(
            OutputError::BadEvidence,
        ),
{
}

/// An object's storage identities: an entity tag, and a version where there is one,
/// each of at most 1024 bytes and without control characters.
pub open spec fn object_named(r: OutputRef) -> bool {
    &&& r.etag@.len() >= 1 && byte_len(r.etag@) <= 1024 && !has_control(r.etag@)
    &&& r.object_version matches Some(v) ==> v@.len() >= 1 && byte_len(v@) <= 1024 && !has_control(v@)
}

/// References are published exactly where plans were saved, the references are of
/// those plans, each stream's of its own, they describe the receipt, and each object
/// is named.
pub proof fn references_are_published_of_the_saved_plans(
    work: &Option<OutputWork>,
    refs: &OutputRefs,
    e: &Evidence,
    allow_simulated: bool,
    r: Result<(), OutputError>,
)
    requires
        refs_accepted(work, refs, e, allow_simulated, r),
        work matches Some(w) ==> owners_alike(w.ticket.owner, e.owner) && w.ticket.output_limit
            == e.receipt.output_limit,
    ensures
        e.simulated && !allow_simulated <==> r == Err::<(), OutputError>(OutputError::SimulationDenied),
        r is Ok <==> !(e.simulated && !allow_simulated) && object_named(refs.stdout) && object_named(refs.stderr) && (
        *work matches Some(w) && w.plans matches Some(saved) && {
            &&& plans_alike(saved.stdout, refs.stdout.plan)
            &&& plans_alike(saved.stderr, refs.stderr.plan)
            &&& plans_describe(
                w.ticket,
                OutputPlans { stdout: refs.stdout.plan, stderr: refs.stderr.plan },
                e.receipt,
            )
        }),
{
}

/// A stored pair of references is the first for what the command wrote to its output
/// and the second for what it wrote to its errors, and there are exactly two.
pub proof fn published_references_are_a_pair(items: Vec<Option<OutputRef>>, r: Column<OutputRefs>)
    requires
        pair_read(Some(items), r),
    ensures
        items@.len() == 2 && items@[0] is Some && items@[1] is Some ==> (r matches Column::Value(refs) && Some(refs.stdout)
            == items@[0] && Some(refs.stderr) == items@[1]),
        items@.len() != 2 || items@[0] is None || items@[1] is None ==> r is Unreadable,
{
}

/// The moment that a project stops being shown a command's output has come: its
/// output's or its response's, whichever is first.
pub open spec fn hidden(op: &OperationRow, now: i128) -> bool {
    (op.output_expires_at matches Some(t) && t <= now) || (op.response_expires_at matches Some(t) && t <= now)
}

/// The end that is shown is the earlier of the two deadlines, where there is one.
pub open spec fn shown_end(op: &OperationRow, end: Option<i128>) -> bool {
    &&& end is None <==> op.output_expires_at is None && op.response_expires_at is None
    &&& end matches Some(t) ==> {
        &&& op.output_expires_at matches Some(x) ==> t <= x
        &&& op.response_expires_at matches Some(x) ==> t <= x
        &&& op.output_expires_at == Some(t) || op.response_expires_at == Some(t)
    }
}

/// A project is shown published references, exactly the ones that were published,
/// until the earlier of the two deadlines, and none after it; before they are
/// published it is shown how far the output has come.
pub proof fn published_output_is_shown_until_it_expires(
    op: &OperationRow,
    e: Evidence,
    work: &Option<OutputWork>,
    refs: Column<OutputRefs>,
    now: i128,
    v: OutputView,
)
    requires
        output_seen(op, e, work, refs, now, Ok::<OutputView, OutputError>(v)),
    ensures
        op.output_status@ == "published"@ && !hidden(op, now) ==> v.status@ == "published"@ && (
        refs matches Column::Value(x) && v.references == Some(x)),
        op.output_status@ != "published"@ && !hidden(op, now) ==> v.status@ == op.output_status@ && v.references is None,
        hidden(op, now) ==> v.status@ == "expired"@ && v.references is None,
        v.owner == Some(e.owner),
        v.simulated == Some(e.simulated),
        shown_end(op, v.expires_at),
{
}

/// Published output whose references are not those of the saved plans is shown to
/// nobody; all other output can be shown.
pub proof fn unproven_references_are_not_shown(
    op: &OperationRow,
    e: Evidence,
    work: &Option<OutputWork>,
    refs: Column<OutputRefs>,
    now: i128,
    r: Result<OutputView, OutputError>,
)
    requires
        output_seen(op, e, work, refs, now, r),
    ensures
        op.output_status@ != "published"@ ==> r is Ok,
        op.output_status@ == "published"@ && !(refs is Value) ==> r == Err::<OutputView, OutputError>(
            OutputError::Corrupt,
        ),
        op.output_status@ == "published"@ && r is Ok ==> {
            let x = refs->Value_0;
            &&& x.stdout.plan.name == OutputName::Stdout
            &&& x.stderr.plan.name == OutputName::Stderr
            &&& owners_alike(x.stdout.plan.owner, e.owner)
            &&& owners_alike(x.stderr.plan.owner, e.owner)
            &&& x.stdout.plan.size + x.stderr.plan.size <= e.receipt.output_limit
            &&& object_named(x.stdout)
            &&& object_named(x.stderr)
            &&& *work matches Some(w) && w.plans matches Some(saved) && plans_alike(saved.stdout, x.stdout.plan)
                && plans_alike(saved.stderr, x.stderr.plan)
        },
{
}

/// Output that nothing is proven of yet is shown without an owner and without
/// references, by how far it has come until it expires.
pub proof fn unproven_output_is_shown_by_its_status(op: &OperationRow, now: i128, v: OutputView)
    requires
        output_unseen(op, now, v),
    ensures
        hidden(op, now) ==> v.status@ == "expired"@,
        !hidden(op, now) ==> v.status@ == op.output_status@,
        v.references is None,
        v.owner is None,
        v.simulated is None,
        shown_end(op, v.expires_at),
{
}

/// Work on output goes on only under a live claim, and not for a project that is
/// being deleted.
pub proof fn output_work_needs_a_live_claim(claim_live: bool, project_status: &str, r: Result<(), OutputError>)
    requires
        output_claimed(claim_live, project_status, r),
    ensures
        !claim_live <==> r == Err::<(), OutputError>(OutputError::LostClaim),
        claim_live && project_status@ == "deleting"@ <==> r == Err::<(), OutputError>(OutputError::ProjectDeleting),
        claim_live && project_status@ != "deleting"@ <==> r is Ok,
{
}

/// A write that changed nothing was lost with its claim, or came after the output
/// had expired.
pub proof fn unmade_writes_are_lost_or_late(changed: u64, claim_live: bool, r: Result<(), OutputError>)
    requires
        retained_written(changed, claim_live, r),
    ensures
        changed == 1 <==> r is Ok,
        changed != 1 && !claim_live <==> r == Err::<(), OutputError>(OutputError::LostClaim),
        changed != 1 && claim_live <==> r == Err::<(), OutputError>(OutputError::Expired),
{
}

/// What is kept of the command under this key, at this place, names the owner: the
/// same host, project, sandbox, operation and allocation at the same generation and
/// epoch.
pub open spec fn keeps_owner(d: Doc, owner: Ownership) -> bool {
    &&& field(d, "host_id"@) == Some(Doc::Text(owner.host_id@))
    &&& field(d, "project_id"@) == Some(Doc::Text(owner.project_id@))
    &&& field(d, "sandbox_id"@) == Some(Doc::Text(owner.sandbox_id@))
    &&& field(d, "operation_id"@) == Some(Doc::Text(owner.operation_id@))
    &&& field(d, "allocation_id"@) == Some(Doc::Text(owner.allocation_id@))
    &&& field(d, "generation"@) == Some(number(owner.generation as int))
    &&& field(d, "supervisor_epoch"@) == Some(number(owner.supervisor_epoch as int))
}

/// The owner is made of the rows' own identities.
pub open spec fn owner_from(owner: Ownership, op: OperationRow, pinned: AllocationRow) -> bool {
    &&& owner.host_id@ == id_text("hst"@, pinned.host_id.value)
    &&& owner.project_id@ == id_text("prj"@, op.project_id.value)
    &&& owner.sandbox_id@ == id_text("sbx"@, op.sandbox_id.value)
    &&& owner.allocation_id@ == id_text("alc"@, pinned.id.value)
    &&& owner.operation_id@ == id_text("op"@, op.id.value)
    &&& owner.generation == pinned.generation
    &&& owner.supervisor_epoch == pinned.supervisor_epoch
    &&& owner.claim_revision == 0
    &&& owner.claim_expires_unix_ms == 0
}

/// The command is known to have run as it was asked to: it is a command pinned to
/// this allocation, its intent and the report of it are kept, both of this owner, and
/// its receipt is of this operation, allocation, digest, limit and deadline.
pub open spec fn run_proven(
    rows: &ExecutionRows,
    pinned: AllocationRow,
    command: CommandInput,
    digest: [u8; 32],
    receipt: Receipt,
    owner: Ownership,
) -> bool {
    let kept = rows.op.attempt_receipts@;
    &&& rows.op.kind@ == "execute"@
    &&& rows.op.execution_allocation_id == Some(pinned.id)
    &&& command.output_limit <= 10485760
    &&& rows.guest_accepts
    &&& rows.receipt_valid
    &&& rows.op.attempt_count == 1
    &&& kept matches Doc::List(items) && items.len() == 2 && {
        &&& field(items[0], "phase"@) == Some(Doc::Text("execute_dispatch_intent"@))
        &&& field(items[0], "command_digest"@) == Some(Doc::Text(hex_text(digest@)))
        &&& keeps_owner(items[0], owner)
        &&& field(items[1], "phase"@) == Some(Doc::Text("command_observed"@))
        &&& keeps_owner(items[1], owner)
        &&& field(items[1], "simulated"@) == Some(Doc::Bool(true)) || field(items[1], "simulated"@) == Some(
            Doc::Bool(false),
        )
    }
    &&& receipt.operation_id == rows.op.id
    &&& receipt.context.allocation_id == pinned.id
    &&& receipt.context.generation == pinned.generation
    &&& receipt.digest@ == digest@
    &&& receipt.output_limit == command.output_limit
    &&& receipt.deadline_unix_ms == command.deadline_unix_ms
}

/// The operation ended as the receipt says it did.
pub open spec fn ended_as_received(op: OperationRow, r: Receipt) -> bool {
    &&& op.completed_at is Some
    &&& op.phase matches Some(phase) && {
        ||| r.state == State::Exited && r.exit_code == Some(0i32) && op.status@ == "succeeded"@ && phase@ == "exited"@
        ||| r.state == State::Exited && r.exit_code != Some(0i32) && op.status@ == "failed"@ && phase@ == "exited"@
        ||| r.state == State::TimedOut && op.status@ == "failed"@ && phase@ == "timed_out"@
        ||| r.state == State::Cancelled && op.status@ == "cancelled"@ && phase@ == "cancelled"@
    }
}

/// Evidence is made of the rows: the owner of their identities and of the boot that
/// the receipt names, the receipt itself, and whether its report was simulated.
pub open spec fn evidence_made(e: Evidence, rows: &ExecutionRows, pinned: AllocationRow, receipt: Receipt) -> bool {
    &&& e.owner.project_id == rows.op.project_id
    &&& e.owner.sandbox_id == rows.op.sandbox_id
    &&& e.owner.operation_id == rows.op.id
    &&& e.owner.allocation_id == pinned.id
    &&& e.owner.generation == pinned.generation
    &&& e.owner.host_id == pinned.host_id
    &&& e.owner.host_epoch == pinned.supervisor_epoch
    &&& e.owner.boot_id@ == receipt.context.boot_id@
    &&& e.receipt == receipt
    &&& item(rows.op.attempt_receipts@, 1) matches Some(kept) && field(kept, "simulated"@) == Some(
        Doc::Bool(e.simulated),
    )
}

/// What the rows of a command prove is exactly what is kept of it: its run, and,
/// once it has ended as its receipt says, its completion.
pub proof fn commands_are_proven_by_what_is_kept(
    rows: &ExecutionRows,
    pinned: AllocationRow,
    command: CommandInput,
    digest: [u8; 32],
    receipt: Receipt,
    owner: Ownership,
    run: Result<Evidence, OutputError>,
    completion: Result<Evidence, OutputError>,
)
    requires
        execution_read(rows, run),
        completion_read(rows, completion),
        rows.pinned == Some(&pinned),
        rows.command == Some(&command),
        rows.digest == Some(digest),
        rows.receipt == Some(&receipt),
        owner_from(owner, *rows.op, pinned),
    ensures
        run is Ok <==> run_proven(rows, pinned, command, digest, receipt, owner),
        completion is Ok <==> run_proven(rows, pinned, command, digest, receipt, owner) && ended_as_received(
            *rows.op,
            receipt,
        ),
        run matches Ok(e) ==> evidence_made(e, rows, pinned, receipt),
        completion matches Ok(e) ==> evidence_made(e, rows, pinned, receipt),
        run is Err ==> run == Err::<Evidence, OutputError>(OutputError::Corrupt),
        completion is Err ==> completion == Err::<Evidence, OutputError>(OutputError::Corrupt),
{
    let kept = rows.op.attempt_receipts@;
    assert forall|o: Ownership| #[trigger] historic_owner(o, *rows.op, pinned) implies (execution_proven(*rows, o)
        <==> run_proven(rows, pinned, command, digest, receipt, owner)) by {
        if kept is List && kept->List_0.len() == 2 {
            assert(item(kept, 0) == Some(kept->List_0[0]));
            assert(item(kept, 1) == Some(kept->List_0[1]));
        }
    }
    assert(historic_owner(owner, *rows.op, pinned));
}

/// A command whose input, digest, allocation or receipt is missing proves nothing.
pub proof fn incomplete_rows_prove_nothing(
    rows: &ExecutionRows,
    run: Result<Evidence, OutputError>,
    completion: Result<Evidence, OutputError>,
)
    requires
        execution_read(rows, run),
        completion_read(rows, completion),
    ensures
        rows.pinned is None || rows.command is None || rows.digest is None || rows.receipt is None ==> run is Err
            && completion is Err,
{
}

} // verus!
