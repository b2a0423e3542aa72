//! Whether an operation's outcome is retained well enough to be retired.
use crate::canonical::Json;
use crate::digest::{hex_encode, hex_text};
use crate::document::{
    field, flag_of, get_flag, has_flag, has_integer, has_text, is_flag, is_text, item, Doc,
};
use crate::file_sources::SourcePlan;
use crate::files::upload_digest;
use crate::guest_model::Context;
use crate::history::Domain;
use crate::store::compaction::{command_summary, summary_of, CommandColumns, CommandSummary};
use crate::store::execute::{intent_recorded, names_owner, validate_intent};
use crate::store::dispatch::{owner_of, ownership};
use crate::store::history::{domain_kind, Error};
use crate::store::output::{completion_holds, evidence, Column, Evidence, ExecutionRows, OutputError};
use crate::store::rows::{is_settled, settled, text_is, AllocationRow, OperationRow};
use crate::supervisor::Ownership;
use crate::supervisor_files::{record_check, FileRecord};
use crate::text::same_text;
use vstd::prelude::*;
use vstd::string::*;

verus! {

/// What the rows of a file operation hold. `retired` is whether its source was
/// retired, `plan` the source's plan where that retirement still validates,
/// `begun` whether the guest was ever asked, `record` the host's record.
pub struct FileRows<'a> {
    pub retired: bool,
    pub plan: Option<&'a SourcePlan>,
    pub begun: bool,
    pub record: &'a Column<FileRecord>,
}

/// What the rows of a command hold. `execution` is read against the pinned
/// allocation; `has_ticket` whether output was ever authorized, and `cleanup`
/// what revalidating its completed cleanup came to.
pub struct CommandRows<'a> {
    pub columns: CommandColumns<'a>,
    pub execution: ExecutionRows<'a>,
    pub has_ticket: bool,
    pub cleanup: Result<(), OutputError>,
}

/// The operation ended before anything was dispatched.
pub open spec fn ended_before_dispatch(op: OperationRow) -> bool {
    ||| op.status@ == "failed"@ && text_is(op.phase, "rejected_before_dispatch"@)
    ||| op.status@ == "cancelled"@ && text_is(op.phase, "cancelled_before_dispatch"@)
}

/// The operation ended before the guest started it.
pub open spec fn ended_before_start(op: OperationRow) -> bool {
    ||| op.status@ == "failed"@ && text_is(op.phase, "not_started"@)
    ||| op.status@ == "cancelled"@ && text_is(op.phase, "cancelled_before_start"@)
}

pub open spec fn phase_before_start(op: OperationRow) -> bool {
    text_is(op.phase, "not_started"@) || text_is(op.phase, "cancelled_before_start"@)
}

/// The second receipt says that the owner's command was fenced before it started.
pub open spec fn fence_recorded(receipts: Doc, owner: Ownership, digest: Seq<u8>) -> bool {
    &&& (receipts matches Doc::List(items) && items.len() == 2)
    &&& is_text(field(item(receipts, 1)->0, "phase"@), "command_fenced_before_start"@)
    &&& is_flag(field(item(receipts, 1)->0, "not_started"@), true)
    &&& field(item(receipts, 1)->0, "guest_receipt"@) is None
    &&& is_text(field(item(receipts, 1)->0, "command_digest"@), hex_text(digest))
    &&& names_owner(item(receipts, 1)->0, owner)
    &&& flag_of(field(item(receipts, 1)->0, "simulated"@)) is Some
}

/// Whether a finished command may be retired, and the boot it ran in.
pub open spec fn command_eligibility(rows: CommandRows, allow_simulated: bool, owner: Ownership) -> Result<
    Option<Option<Context>>,
    Error,
> {
    let op = *rows.execution.op;
    let receipts = op.attempt_receipts@;
    match summary_of(rows.columns) {
        None => Err(Error::Evidence),
        Some(summary) => if op.attempt_count == 0 {
            if ended_before_dispatch(op) && receipts == Doc::List(Seq::<Doc>::empty()) && op.output_status@ == "none"@ {
                Ok(Some(None))
            } else {
                Err(Error::Evidence)
            }
        } else if !intent_recorded(receipts, op.attempt_count, owner, summary.digest@) {
            Err(Error::Evidence)
        } else if phase_before_start(op) {
            if ended_before_start(op) && fence_recorded(receipts, owner, summary.digest@) && op.output_status@ == "none"@
                && (flag_of(field(item(receipts, 1)->0, "simulated"@)) == Some(true) ==> allow_simulated) {
                Ok(Some(None))
            } else {
                Err(Error::Evidence)
            }
        } else if !completion_holds(rows.execution) {
            Err(Error::Evidence)
        } else if flag_of(field(item(receipts, 1)->0, "simulated"@)) == Some(true) && !allow_simulated {
            Err(Error::Evidence)
        } else if op.output_status@ != "expired"@ {
            Ok(None)
        } else if rows.has_ticket && rows.cleanup is Err {
            Err(Error::Evidence)
        } else if !rows.has_ticket && op.payload_compacted_at is None {
            Err(Error::Evidence)
        } else {
            Ok(Some(Some(rows.execution.receipt->0.context)))
        },
    }
}

/// Whether a command may be retired.
pub open spec fn command_judged(
    rows: &CommandRows,
    a: &AllocationRow,
    allow_simulated: bool,
    r: Result<Option<Option<Context>>, Error>,
) -> bool {
    exists|o: Ownership| #[trigger]
        owner_of(o, *rows.execution.op, *a, 0, 0) && r == command_eligibility(*rows, allow_simulated, o)
}

/// Judge a finished command.
pub fn command_eligible(rows: &CommandRows, a: &AllocationRow, allow_simulated: bool) -> (r: Result<
    Option<Option<Context>>,
    Error,
>)
    ensures
        command_judged(rows, a, allow_simulated, r),
{
    let op: &OperationRow = rows.execution.op;
    let owner: Ownership = ownership(op, a, 0, 0);
    assert(owner_of(owner, *op, *a, 0, 0));
    let summary: CommandSummary = match command_summary(&rows.columns) {
        Ok(s) => s,
        Err(_) => {
            return Err(Error::Evidence);
        },
    };
    let failed: bool = same_text(op.status.as_str(), "failed");
    let cancelled: bool = same_text(op.status.as_str(), "cancelled");
    let none: bool = same_text(op.output_status.as_str(), "none");
    if op.attempt_count == 0 {
        let ended: bool = (failed && crate::store::rows::is_text(&op.phase, "rejected_before_dispatch")) || (cancelled
            && crate::store::rows::is_text(&op.phase, "cancelled_before_dispatch"));
        let empty: bool = match op.attempt_receipts.count() {
            Some(n) => n == 0,
            None => false,
        };
        proof {
            match op.attempt_receipts@ {
                Doc::List(items) => {
                    if items.len() == 0 {
                        assert(items =~= Seq::<Doc>::empty());
                    }
                },
                _ => {},
            }
        }
        if !ended || !empty || !none {
            return Err(Error::Evidence);
        }
        return Ok(Some(None));
    }
    if validate_intent(op, &owner, &summary.digest).is_err() {
        return Err(Error::Evidence);
    }
    let not_started: bool = crate::store::rows::is_text(&op.phase, "not_started");
    let before_start: bool = crate::store::rows::is_text(&op.phase, "cancelled_before_start");
    if not_started || before_start {
        if !((failed && not_started) || (cancelled && before_start)) {
            return Err(Error::Evidence);
        }
        let pair: bool = match op.attempt_receipts.count() {
            Some(n) => n == 2,
            None => false,
        };
        if !pair {
            return Err(Error::Evidence);
        }
        let observed: &Json = match op.attempt_receipts.at(1) {
            Some(v) => v,
            None => {
                return Err(Error::Evidence);
            },
        };
        let digest: String = hex_encode(summary.digest.as_slice());
        let named: bool = has_text(observed, "host_id", owner.host_id.as_str()) && has_text(
            observed,
            "project_id",
            owner.project_id.as_str(),
        ) && has_text(observed, "sandbox_id", owner.sandbox_id.as_str()) && has_text(
            observed,
            "operation_id",
            owner.operation_id.as_str(),
        ) && has_text(observed, "allocation_id", owner.allocation_id.as_str()) && has_integer(
            observed,
            "generation",
            owner.generation,
        ) && has_integer(observed, "supervisor_epoch", owner.supervisor_epoch);
        if !has_text(observed, "phase", "command_fenced_before_start") || !has_flag(observed, "not_started", true)
            || observed.get("guest_receipt").is_some() || !has_text(observed, "command_digest", digest.as_str())
            || !none || !named {
            return Err(Error::Evidence);
        }
        return match get_flag(observed, "simulated") {
            Some(simulated) => if simulated && !allow_simulated {
                Err(Error::Evidence)
            } else {
                Ok(Some(None))
            },
            None => Err(Error::Evidence),
        };
    }
    let e: Evidence = match evidence(&rows.execution) {
        Ok(e) => e,
        Err(_) => {
            return Err(Error::Evidence);
        },
    };
    if e.simulated && !allow_simulated {
        return Err(Error::Evidence);
    }
    if !same_text(op.output_status.as_str(), "expired") {
        return Ok(None);
    }
    if rows.has_ticket {
        if rows.cleanup.is_err() {
            return Err(Error::Evidence);
        }
    } else if op.payload_compacted_at.is_none() {
        return Err(Error::Evidence);
    }
    Ok(Some(Some(e.receipt.context)))
}

/// How a transfer's record says it ended.
pub open spec fn file_phase(r: FileRecord) -> Option<Seq<char>> {
    if r.not_started {
        Some("file_not_started"@)
    } else if r.state == 3 {
        Some("file_committed"@)
    } else if r.state == 5 {
        Some("file_aborted"@)
    } else {
        None
    }
}

/// The operation ended as the record says.
pub open spec fn file_ended(op: OperationRow, r: FileRecord) -> bool {
    &&& (file_phase(r) matches Some(phase) && text_is(op.phase, phase))
    &&& r.not_started ==> op.status@ == "failed"@
    &&& !r.not_started && r.state == 3 ==> op.status@ == "succeeded"@
    &&& !r.not_started && r.state == 5 ==> op.status@ == "failed"@
}

/// The record is of the planned upload.
pub open spec fn record_of_plan(r: FileRecord, plan: SourcePlan) -> bool {
    &&& record_check(r) is Ok
    &&& (upload_digest(plan.upload) matches Ok(digest) && r.digest@ == digest@)
    &&& (!r.not_started ==> r.size == plan.upload.size)
    &&& (r.context matches Some(c) ==> c.allocation_id == plan.owner.scope.allocation_id && c.generation
        == plan.owner.scope.generation)
}

/// The flag that the operation's result or error carries.
pub open spec fn outcome_flag(op: OperationRow) -> Option<bool> {
    let raw = if op.status@ == "succeeded"@ {
        op.result
    } else {
        op.error
    };
    match raw {
        Some(d) => flag_of(field(d@, "simulated"@)),
        None => None,
    }
}

/// Whether a finished transfer may be retired, and the boot it ran in.
pub open spec fn file_eligibility(op: OperationRow, file: FileRows, allow_simulated: bool) -> Result<
    Option<Option<Context>>,
    Error,
> {
    if !file.retired {
        Ok(None)
    } else if file.plan is None {
        Err(Error::Evidence)
    } else if !file.begun {
        if op.status@ == "failed"@ && op.attempt_count == 0 && text_is(op.phase, "file_not_started"@) && *file.record
            is Absent {
            Ok(Some(None))
        } else {
            Err(Error::Evidence)
        }
    } else {
        match *file.record {
            Column::Value(r) => if record_of_plan(r, *file.plan->0) && file_ended(op, r) && outcome_flag(op) is Some && (
            outcome_flag(op) == Some(true) ==> allow_simulated) {
                Ok(Some(r.context))
            } else {
                Err(Error::Evidence)
            },
            _ => Err(Error::Evidence),
        }
    }
}

fn outcome_simulated(op: &OperationRow) -> (r: Option<bool>)
    ensures
        r == outcome_flag(*op),
{
    let raw: &Option<Json> = if same_text(op.status.as_str(), "succeeded") {
        &op.result
    } else {
        &op.error
    };
    match raw {
        Some(d) => get_flag(d, "simulated"),
        None => None,
    }
}

/// Whether a file write may be retired.
pub open spec fn file_judged(
    op: &OperationRow,
    file: &FileRows,
    allow_simulated: bool,
    r: Result<Option<Option<Context>>, Error>,
) -> bool {
    r == file_eligibility(*op, *file, allow_simulated)
}

/// Judge a finished transfer.
pub fn file_eligible(op: &OperationRow, file: &FileRows, allow_simulated: bool) -> (r: Result<
    Option<Option<Context>>,
    Error,
>)
    ensures
        file_judged(op, file, allow_simulated, r),
{
    if !file.retired {
        return Ok(None);
    }
    let plan: &SourcePlan = match file.plan {
        Some(p) => p,
        None => {
            return Err(Error::Evidence);
        },
    };
    let failed: bool = same_text(op.status.as_str(), "failed");
    if !file.begun {
        let absent: bool = match file.record {
            Column::Absent => true,
            _ => false,
        };
        if !failed || op.attempt_count != 0 || !crate::store::rows::is_text(&op.phase, "file_not_started") || !absent {
            return Err(Error::Evidence);
        }
        return Ok(Some(None));
    }
    let record: &FileRecord = match file.record {
        Column::Value(r) => r,
        _ => {
            return Err(Error::Evidence);
        },
    };
    if record.validate().is_err() {
        return Err(Error::Evidence);
    }
    let digest: [u8; 32] = match plan.upload.digest() {
        Ok(d) => d,
        Err(_) => {
            return Err(Error::Evidence);
        },
    };
    if !crate::allocation_authority::same_digest(&record.digest, &digest) || (!record.not_started && record.size
        != plan.upload.size) {
        return Err(Error::Evidence);
    }
    match outcome_simulated(op) {
        Some(simulated) => {
            if simulated && !allow_simulated {
                return Err(Error::Evidence);
            }
        },
        None => {
            return Err(Error::Evidence);
        },
    }
    if (record.not_started && !failed) || (!record.not_started && ((record.state == 3 && !same_text(
        op.status.as_str(),
        "succeeded",
    )) || (record.state == 5 && !failed))) {
        return Err(Error::Evidence);
    }
    let expected: &str = if record.not_started {
        "file_not_started"
    } else if record.state == 3 {
        "file_committed"
    } else if record.state == 5 {
        "file_aborted"
    } else {
        return Err(Error::Evidence);
    };
    if !crate::store::rows::is_text(&op.phase, expected) {
        return Err(Error::Evidence);
    }
    match &record.context {
        Some(c) => {
            if c.allocation_id != plan.owner.scope.allocation_id || c.generation != plan.owner.scope.generation {
                return Err(Error::Evidence);
            }
            Ok(Some(Some(c.clone())))
        },
        None => Ok(Some(None)),
    }
}

/// What judging an operation came to before its domain's own evidence is read.
pub open spec fn early_eligibility(op: OperationRow, domain: Domain) -> Option<Result<Option<Option<Context>>, Error>> {
    if op.kind@ != domain_kind(domain) {
        Some(Err(Error::Evidence))
    } else if !settled(op) {
        Some(Ok(None))
    } else {
        None
    }
}

/// The rows of one operation, by its domain.
pub enum DomainRows<'a> {
    Commands(CommandRows<'a>),
    Files(&'a OperationRow, FileRows<'a>),
}

pub open spec fn domain_of(rows: DomainRows) -> Domain {
    match rows {
        DomainRows::Commands(_) => Domain::Commands,
        DomainRows::Files(_, _) => Domain::Files,
    }
}

pub open spec fn operation_of(rows: DomainRows) -> OperationRow {
    match rows {
        DomainRows::Commands(c) => *c.execution.op,
        DomainRows::Files(op, _) => *op,
    }
}

/// Whether an operation may be retired, with the boot it ran in; `o` is the owner
/// that the allocation stands for.
pub open spec fn eligibility(rows: DomainRows, allow_simulated: bool, o: Ownership) -> Result<
    Option<Option<Context>>,
    Error,
> {
    match early_eligibility(operation_of(rows), domain_of(rows)) {
        Some(r) => r,
        None => match rows {
            DomainRows::Commands(c) => command_eligibility(c, allow_simulated, o),
            DomainRows::Files(op, file) => file_eligibility(*op, file, allow_simulated),
        },
    }
}

/// Whether an operation may be retired.
pub open spec fn operation_judged(
    rows: &DomainRows,
    a: &AllocationRow,
    allow_simulated: bool,
    r: Result<Option<Option<Context>>, Error>,
) -> bool {
    exists|o: Ownership| #[trigger]
        owner_of(o, operation_of(*rows), *a, 0, 0) && r == eligibility(*rows, allow_simulated, o)
}

/// Judge an operation: an error where its evidence is wrong, nothing where it may
/// not be retired yet, else the boot it ran in, where it ran.
pub fn eligible(rows: &DomainRows, a: &AllocationRow, allow_simulated: bool) -> (r: Result<
    Option<Option<Context>>,
    Error,
>)
    ensures
        operation_judged(rows, a, allow_simulated, r),
{
    let (op, kind): (&OperationRow, &str) = match rows {
        DomainRows::Commands(c) => (c.execution.op, "execute"),
        DomainRows::Files(op, _) => (*op, "file_write"),
    };
    let owner: Ownership = ownership(op, a, 0, 0);
    assert(owner_of(owner, operation_of(*rows), *a, 0, 0));
    if !same_text(op.kind.as_str(), kind) {
        return Err(Error::Evidence);
    }
    if !is_settled(op) {
        return Ok(None);
    }
    match rows {
        DomainRows::Commands(c) => command_eligible(c, a, allow_simulated),
        DomainRows::Files(op, file) => file_eligible(op, file, allow_simulated),
    }
}

/// The retained outcome says that it comes from a simulated host: a command's
/// second receipt where it was dispatched, a transfer's result or error where the
/// guest was asked.
pub open spec fn simulated_outcome(rows: DomainRows) -> bool {
    match rows {
        DomainRows::Commands(c) => c.execution.op.attempt_count != 0 && flag_of(
            field(item(c.execution.op.attempt_receipts@, 1)->0, "simulated"@),
        ) == Some(true),
        DomainRows::Files(op, file) => file.begun && outcome_flag(*op) == Some(true),
    }
}

/// Only a settled operation of the domain's kind is ever retired, a transfer only
/// with its source, and simulated evidence only with the opt-in.
pub proof fn retired_operations_are_settled(rows: DomainRows, allow_simulated: bool, o: Ownership)
    requires
        eligibility(rows, allow_simulated, o) matches Ok(Some(_)),
    ensures
        settled(operation_of(rows)),
        operation_of(rows).kind@ == domain_kind(domain_of(rows)),
        rows matches DomainRows::Files(op, file) ==> file.retired,
        simulated_outcome(rows) ==> allow_simulated,
{
}

} // verus!
