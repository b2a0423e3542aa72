//! Independent, fenced output publication. Never changes an execution outcome,
//! dispatch count, guest receipt, sandbox lifecycle, or resource reservation.
use crate::allocation_authority::same_digest;
use crate::api::CommandInput;
use crate::document::{field, flag_of, get_flag, has_text, is_text, item, Doc};
use crate::guest_model::{Output, Receipt, State};
use crate::ids::OperationId;
use crate::output::{
    refs_valid, same_owner, same_plans, ticket_plans_valid, ticket_valid, OutputOwner,
    OutputPlan, OutputPlans, OutputRef, OutputRefs, OutputTicket,
};
use crate::store::clock::{
    delay_allowed, earlier, earlier_of, has_passed, lease_allowed, millis, millis_of, passed, stamp, stamp_of,
};
use crate::store::dispatch::{owner_of, ownership};
use crate::store::execute::{command_usable, intent_recorded, names_owner, validate_intent};
use crate::store::rows::{text_is, AllocationRow, OperationRow};
use crate::supervisor::Ownership;
use crate::text::same_text;
use vstd::prelude::*;
use vstd::string::*;

verus! {

#[derive(Debug, Clone, Copy, PartialEq, Eq, Structural)]
pub enum OutputError {
    /// Output claim expired or replaced.
    LostClaim,
    /// Invalid output retention or lease policy.
    InvalidPolicy,
    /// Output metadata does not match the execution receipt or saved plan.
    BadEvidence,
    /// Persisted output or execution evidence is invalid.
    Corrupt,
    /// Simulated output requires explicit development opt-in.
    SimulationDenied,
    /// Project deletion prevents output publication.
    ProjectDeleting,
    /// Output retention expired.
    Expired,
}

/// What comes of a check: its refusal, or nothing.
pub open spec fn output_outcome(refusal: Option<OutputError>) -> Result<(), OutputError> {
    match refusal {
        Some(e) => Err(e),
        None => Ok(()),
    }
}

#[derive(Debug, Clone, Copy, PartialEq, Eq, Structural)]
pub struct OutputClaim {
    pub operation_id: OperationId,
    pub revision: i64,
    pub lease_expires_at: i128,
}

pub struct OutputWork {
    pub ticket: OutputTicket,
    pub plans: Option<OutputPlans>,
    pub receipt: Receipt,
    pub simulated: bool,
}

impl Clone for OutputWork {
    fn clone(&self) -> (r: Self)
        ensures
            r == *self,
    {
        OutputWork {
            ticket: self.ticket.clone(),
            plans: match &self.plans {
                Some(x) => Some(x.clone()),
                None => None,
            },
            receipt: self.receipt.clone(),
            simulated: self.simulated,
        }
    }
}

/// Internal lookup result. API responses must not expose private references.
#[derive(Debug)]
pub struct OutputView {
    pub simulated: Option<bool>,
    pub status: String,
    pub owner: Option<OutputOwner>,
    pub references: Option<OutputRefs>,
    pub expires_at: Option<i128>,
}

impl Clone for OutputView {
    fn clone(&self) -> (r: Self)
        ensures
            r == *self,
    {
        OutputView {
            simulated: self.simulated,
            status: self.status.clone(),
            owner: match &self.owner {
                Some(x) => Some(x.clone()),
                None => None,
            },
            references: match &self.references {
                Some(x) => Some(x.clone()),
                None => None,
            },
            expires_at: self.expires_at,
        }
    }
}

/// What a lease on output may be read as.
pub open spec fn output_lease_read(seconds: u32, r: Result<i32, OutputError>) -> bool {
    r == (if lease_allowed(seconds) {
        Ok::<i32, OutputError>(seconds as i32)
    } else {
        Err(OutputError::InvalidPolicy)
    })
}

pub fn lease(seconds: u32) -> (r: Result<i32, OutputError>)
    ensures
        output_lease_read(seconds, r),
{
    if seconds < 1 || seconds > 300 {
        return Err(OutputError::InvalidPolicy);
    }
    Ok(seconds as i32)
}

/// What a delay of output work may be read as.
pub open spec fn output_delay_read(seconds: u32, r: Result<i32, OutputError>) -> bool {
    r == (if delay_allowed(seconds) {
        Ok::<i32, OutputError>(seconds as i32)
    } else {
        Err(OutputError::InvalidPolicy)
    })
}

/// How long released work waits for its next owner.
pub fn delay(seconds: u32) -> (r: Result<i32, OutputError>)
    ensures
        output_delay_read(seconds, r),
{
    if seconds < 1 || seconds > 3600 {
        return Err(OutputError::InvalidPolicy);
    }
    Ok(seconds as i32)
}

/// What a claim on a command's output may be found to be.
pub open spec fn output_claimed(claim_live: bool, project_status: &str, r: Result<(), OutputError>) -> bool {
    r == output_outcome(
        if !claim_live {
            Some(OutputError::LostClaim)
        } else if project_status@ == "deleting"@ {
            Some(OutputError::ProjectDeleting)
        } else {
            None
        },
    )
}

/// Work may proceed under a live claim of a project that is not being deleted.
pub fn claimed(claim_live: bool, project_status: &str) -> (r: Result<(), OutputError>)
    ensures
        output_claimed(claim_live, project_status, r),
{
    if !claim_live {
        return Err(OutputError::LostClaim);
    }
    if same_text(project_status, "deleting") {
        return Err(OutputError::ProjectDeleting);
    }
    Ok(())
}

/// What a claim on output may be found to be.
pub open spec fn output_fenced(valid: bool, r: Result<(), OutputError>) -> bool {
    r == output_outcome(if valid {
        None
    } else {
        Some(OutputError::LostClaim)
    })
}

pub fn fence(valid: bool) -> (r: Result<(), OutputError>)
    ensures
        output_fenced(valid, r),
{
    if !valid {
        return Err(OutputError::LostClaim);
    }
    Ok(())
}

/// What a write under a claim may be found to be.
pub open spec fn retained_written(changed: u64, claim_live: bool, r: Result<(), OutputError>) -> bool {
    r == output_outcome(
        if changed == 1 {
            None
        } else if !claim_live {
            Some(OutputError::LostClaim)
        } else {
            Some(OutputError::Expired)
        },
    )
}

/// A final write that also tests retention: where it changed nothing though the
/// claim is live, retention has ended.
pub fn retained_write(changed: u64, claim_live: bool) -> (r: Result<(), OutputError>)
    ensures
        retained_written(changed, claim_live, r),
{
    if changed == 1 {
        return Ok(());
    }
    match fence(claim_live) {
        Ok(_) => Err(OutputError::Expired),
        Err(e) => Err(e),
    }
}

/// What the state of prepared output may be found to be.
pub open spec fn output_state_checked(status: &str, r: Result<(), OutputError>) -> bool {
    r == output_outcome(if status@ == "expired"@ {
        Some(OutputError::Expired)
    } else {
        None
    })
}

/// A prepared ticket that has already expired grants no upload.
pub fn prepared(status: &str) -> (r: Result<(), OutputError>)
    ensures
        output_state_checked(status, r),
{
    if same_text(status, "expired") {
        return Err(OutputError::Expired);
    }
    Ok(())
}

/// What the retained rows prove of an execution.
pub struct Evidence {
    pub owner: OutputOwner,
    pub receipt: Receipt,
    pub simulated: bool,
}

/// What an execution's evidence is read from. `pinned` is the allocation that the
/// command was admitted for, where it is of the operation's project and sandbox;
/// `command` the stored command and `guest_accepts` the guest's own check of it;
/// `digest` the guest's digest of it; `receipt` the retained receipt and
/// `receipt_valid` the guest's own check of that.
pub struct ExecutionRows<'a> {
    pub op: &'a OperationRow,
    pub pinned: Option<&'a AllocationRow>,
    pub command: Option<&'a CommandInput>,
    pub guest_accepts: bool,
    pub digest: Option<[u8; 32]>,
    pub receipt: Option<&'a Receipt>,
    pub receipt_valid: bool,
}

/// The command's owner, without any claim on it.
pub open spec fn historic_owner(o: Ownership, op: OperationRow, pinned: AllocationRow) -> bool {
    owner_of(o, op, pinned, 0, 0)
}

pub open spec fn input_of(command: Option<&CommandInput>) -> Option<CommandInput> {
    match command {
        Some(c) => Some(*c),
        None => None,
    }
}

/// The second receipt is an observation of the same owner's command.
pub open spec fn observation_recorded(receipts: Doc, owner: Ownership) -> bool {
    &&& (receipts matches Doc::List(items) && items.len() == 2)
    &&& is_text(field(item(receipts, 1)->0, "phase"@), "command_observed"@)
    &&& names_owner(item(receipts, 1)->0, owner)
    &&& flag_of(field(item(receipts, 1)->0, "simulated"@)) is Some
}

/// The receipt is of this command on its pinned allocation.
pub open spec fn receipt_agrees(r: Receipt, op: OperationRow, pinned: AllocationRow, c: CommandInput, digest: Seq<u8>) -> bool {
    &&& r.operation_id == op.id
    &&& r.context.allocation_id == pinned.id
    &&& r.context.generation == pinned.generation
    &&& r.digest@ == digest
    &&& r.output_limit == c.output_limit
    &&& r.deadline_unix_ms == c.deadline_unix_ms
}

/// The rows prove an execution: the intent and an observation of it are recorded
/// for one owner, and the retained receipt is of that command.
pub open spec fn execution_proven(rows: ExecutionRows, owner: Ownership) -> bool {
    &&& rows.op.kind@ == "execute"@
    &&& rows.op.execution_allocation_id is Some
    &&& rows.pinned is Some
    &&& rows.op.execution_allocation_id == Some(rows.pinned->0.id)
    &&& command_usable(input_of(rows.command), rows.guest_accepts)
    &&& rows.digest is Some
    &&& intent_recorded(rows.op.attempt_receipts@, rows.op.attempt_count, owner, rows.digest->0@)
    &&& observation_recorded(rows.op.attempt_receipts@, owner)
    &&& rows.receipt is Some
    &&& rows.receipt_valid
    &&& receipt_agrees(*rows.receipt->0, *rows.op, *rows.pinned->0, *rows.command->0, rows.digest->0@)
}

/// The rows prove an execution for the owner that they name.
pub open spec fn execution_holds(rows: ExecutionRows) -> bool {
    rows.pinned is Some && exists|o: Ownership| #[trigger]
        historic_owner(o, *rows.op, *rows.pinned->0) && execution_proven(rows, o)
}

pub open spec fn evidence_of(e: Evidence, rows: ExecutionRows) -> bool {
    &&& e.owner.project_id == rows.op.project_id
    &&& e.owner.sandbox_id == rows.op.sandbox_id
    &&& e.owner.operation_id == rows.op.id
    &&& e.owner.allocation_id == rows.pinned->0.id
    &&& e.owner.generation == rows.pinned->0.generation
    &&& e.owner.host_id == rows.pinned->0.host_id
    &&& e.owner.host_epoch == rows.pinned->0.supervisor_epoch
    &&& e.owner.boot_id@ == rows.receipt->0.context.boot_id@
    &&& e.receipt == *rows.receipt->0
    &&& Some(e.simulated) == flag_of(field(item(rows.op.attempt_receipts@, 1)->0, "simulated"@))
}

/// What the rows of a command may be found to prove.
pub open spec fn execution_read(rows: &ExecutionRows, r: Result<Evidence, OutputError>) -> bool {
    match r {
        Ok(e) => execution_holds(*rows) && evidence_of(e, *rows),
        Err(e) => e == OutputError::Corrupt && !execution_holds(*rows),
    }
}

/// Reconstruct historical command ownership. Current allocation pointers, host
/// epochs, token revocation and sandbox destruction never redirect it.
pub fn execution_evidence(rows: &ExecutionRows) -> (r: Result<Evidence, OutputError>)
    ensures
        execution_read(rows, r),
{
    let op: &OperationRow = rows.op;
    let pinned: &AllocationRow = match rows.pinned {
        Some(a) => a,
        None => {
            return Err(OutputError::Corrupt);
        },
    };
    let owner: Ownership = ownership(op, pinned, 0, 0);
    proof {
        assert forall|o: Ownership| #[trigger] historic_owner(o, *op, *pinned) implies execution_proven(*rows, o)
            == execution_proven(*rows, owner) by {}
        assert(historic_owner(owner, *op, *pinned));
    }
    let admitted: bool = match op.execution_allocation_id {
        Some(id) => id == pinned.id,
        None => false,
    };
    let command: &CommandInput = match rows.command {
        Some(c) => c,
        None => {
            return Err(OutputError::Corrupt);
        },
    };
    let digest: [u8; 32] = match rows.digest {
        Some(d) => d,
        None => {
            return Err(OutputError::Corrupt);
        },
    };
    if !admitted || !same_text(op.kind.as_str(), "execute") || command.validate(rows.guest_accepts).is_err()
        || validate_intent(op, &owner, &digest).is_err() {
        return Err(OutputError::Corrupt);
    }
    let pair: bool = match op.attempt_receipts.count() {
        Some(n) => n == 2,
        None => false,
    };
    if !pair {
        return Err(OutputError::Corrupt);
    }
    let observed: &crate::canonical::Json = match op.attempt_receipts.at(1) {
        Some(v) => v,
        None => {
            return Err(OutputError::Corrupt);
        },
    };
    let named: bool = has_text(observed, "host_id", owner.host_id.as_str()) && has_text(
        observed,
        "project_id",
        owner.project_id.as_str(),
    ) && has_text(observed, "sandbox_id", owner.sandbox_id.as_str()) && has_text(
        observed,
        "operation_id",
        owner.operation_id.as_str(),
    ) && has_text(observed, "allocation_id", owner.allocation_id.as_str()) && crate::document::has_integer(
        observed,
        "generation",
        owner.generation,
    ) && crate::document::has_integer(observed, "supervisor_epoch", owner.supervisor_epoch);
    if !has_text(observed, "phase", "command_observed") || !named {
        return Err(OutputError::Corrupt);
    }
    let simulated: bool = match get_flag(observed, "simulated") {
        Some(b) => b,
        None => {
            return Err(OutputError::Corrupt);
        },
    };
    let receipt: &Receipt = match rows.receipt {
        Some(x) => x,
        None => {
            return Err(OutputError::Corrupt);
        },
    };
    if !rows.receipt_valid || receipt.operation_id != op.id || receipt.context.allocation_id != pinned.id
        || receipt.context.generation != pinned.generation || !same_digest(&receipt.digest, &digest)
        || receipt.output_limit != command.output_limit || receipt.deadline_unix_ms != command.deadline_unix_ms {
        return Err(OutputError::Corrupt);
    }
    Ok(
        Evidence {
            owner: OutputOwner {
                project_id: op.project_id,
                sandbox_id: op.sandbox_id,
                operation_id: op.id,
                allocation_id: pinned.id,
                generation: pinned.generation,
                host_id: pinned.host_id,
                host_epoch: pinned.supervisor_epoch,
                boot_id: receipt.context.boot_id.clone(),
            },
            receipt: receipt.clone(),
            simulated,
        },
    )
}

/// The status and phase that a final receipt leaves an execution with.
pub open spec fn final_standing(r: Receipt) -> Option<(Seq<char>, Seq<char>)> {
    match r.state {
        State::Exited => Some(
            (
                if r.exit_code == Some(0i32) {
                    "succeeded"@
                } else {
                    "failed"@
                },
                "exited"@,
            ),
        ),
        State::TimedOut => Some(("failed"@, "timed_out"@)),
        State::Cancelled => Some(("cancelled"@, "cancelled"@)),
        _ => None,
    }
}

/// The operation is completed as its receipt says.
pub open spec fn completed_as_received(op: OperationRow, r: Receipt) -> bool {
    &&& (final_standing(r) matches Some((status, phase)) && op.status@ == status && text_is(op.phase, phase))
    &&& op.completed_at is Some
}

/// The rows prove an execution that has ended as its receipt says.
pub open spec fn completion_holds(rows: ExecutionRows) -> bool {
    execution_holds(rows) && completed_as_received(*rows.op, *rows.receipt->0)
}

/// What the rows of a finished command may be found to prove.
pub open spec fn completion_read(rows: &ExecutionRows, r: Result<Evidence, OutputError>) -> bool {
    match r {
        Ok(e) => completion_holds(*rows) && evidence_of(e, *rows),
        Err(e) => e == OutputError::Corrupt && !completion_holds(*rows),
    }
}

/// Evidence of an execution that has ended as its receipt says.
pub fn evidence(rows: &ExecutionRows) -> (r: Result<Evidence, OutputError>)
    ensures
        completion_read(rows, r),
{
    let e: Evidence = match execution_evidence(rows) {
        Ok(e) => e,
        Err(_) => {
            return Err(OutputError::Corrupt);
        },
    };
    let (status, phase): (&str, &str) = match e.receipt.state {
        State::Exited => (
            match e.receipt.exit_code {
                Some(code) => if code == 0 {
                    "succeeded"
                } else {
                    "failed"
                },
                None => "failed",
            },
            "exited",
        ),
        State::TimedOut => ("failed", "timed_out"),
        State::Cancelled => ("cancelled", "cancelled"),
        _ => {
            return Err(OutputError::Corrupt);
        },
    };
    if !same_text(rows.op.status.as_str(), status) || !crate::store::rows::is_text(&rows.op.phase, phase)
        || rows.op.completed_at.is_none() {
        return Err(OutputError::Corrupt);
    }
    Ok(e)
}

/// A plan holds what the receipt says was stored and seen.
pub open spec fn plan_of_stream(p: OutputPlan, o: Output) -> bool {
    p.size == o.stored && p.seen == o.seen && p.truncated == o.truncated
}

fn is_plan_of_stream(p: &OutputPlan, o: &Output) -> (r: bool)
    ensures
        r == plan_of_stream(*p, *o),
{
    p.size == o.stored && p.seen == o.seen && p.truncated == o.truncated
}

/// The plans are the ticket's and of the receipt's streams.
pub open spec fn plans_proven(t: OutputTicket, plans: OutputPlans, r: Receipt) -> bool {
    ticket_plans_valid(t, plans) && plan_of_stream(plans.stdout, r.stdout) && plan_of_stream(plans.stderr, r.stderr)
}

/// What checking plans against a receipt may come to.
pub open spec fn plans_checked(
    ticket: &OutputTicket,
    plans: &OutputPlans,
    e: &Evidence,
    r: Result<(), OutputError>,
) -> bool {
    r == output_outcome(
        if plans_proven(*ticket, *plans, e.receipt) {
            None
        } else {
            Some(OutputError::BadEvidence)
        },
    )
}

pub fn validate_plans(ticket: &OutputTicket, plans: &OutputPlans, e: &Evidence) -> (r: Result<(), OutputError>)
    ensures
        plans_checked(ticket, plans, e, r),
{
    if ticket.validate_plans(plans).is_err() {
        return Err(OutputError::BadEvidence);
    }
    if !is_plan_of_stream(&plans.stdout, &e.receipt.stdout) || !is_plan_of_stream(&plans.stderr, &e.receipt.stderr) {
        return Err(OutputError::BadEvidence);
    }
    Ok(())
}

/// A column that holds a document: absent, unreadable, or this value.
pub enum Column<T> {
    Absent,
    Unreadable,
    Value(T),
}

/// What two published references may be read as.
pub open spec fn pair_read(items: Option<Vec<Option<OutputRef>>>, r: Column<OutputRefs>) -> bool {
    r == (match items {
        Some(v) => if v@.len() == 2 && v@[0] is Some && v@[1] is Some {
            Column::Value(OutputRefs { stdout: v@[0]->0, stderr: v@[1]->0 })
        } else {
            Column::Unreadable
        },
        None => Column::Unreadable,
    })
}

/// The published references that a stored list holds: exactly two, one for each
/// stream. `items` is nothing where the column holds no list, and an item nothing
/// where it is no reference.
pub fn published_pair(items: Option<Vec<Option<OutputRef>>>) -> (r: Column<OutputRefs>)
    ensures
        pair_read(items, r),
{
    let mut items: Vec<Option<OutputRef>> = match items {
        Some(v) => v,
        None => {
            return Column::Unreadable;
        },
    };
    if items.len() != 2 {
        return Column::Unreadable;
    }
    match (items.pop(), items.pop()) {
        (Some(Some(stderr)), Some(Some(stdout))) => Column::Value(OutputRefs { stdout, stderr }),
        _ => Column::Unreadable,
    }
}

/// Why saved output metadata is not usable.
pub open spec fn saved_fault(
    ticket: Column<OutputTicket>,
    plans: Column<OutputPlans>,
    output_expires_at: Option<i128>,
    e: Evidence,
) -> bool {
    match ticket {
        Column::Absent => false,
        Column::Unreadable => true,
        Column::Value(t) => {
            ||| !ticket_valid(t)
            ||| !same_owner(t.owner, e.owner)
            ||| t.output_limit != e.receipt.output_limit
            ||| output_expires_at is None
            ||| millis_of(output_expires_at->0) != Some(t.expires_unix_ms)
            ||| plans is Unreadable
            ||| (plans matches Column::Value(p) && !plans_proven(t, p, e.receipt))
        },
    }
}

pub open spec fn work_of(w: OutputWork, ticket: OutputTicket, plans: Column<OutputPlans>, e: Evidence) -> bool {
    &&& w.ticket == ticket
    &&& w.plans == (match plans {
        Column::Value(p) => Some(p),
        _ => None,
    })
    &&& w.receipt == e.receipt
    &&& w.simulated == e.simulated
}

/// What saved output work may be read as.
pub open spec fn work_saved(
    ticket: Column<OutputTicket>,
    plans: Column<OutputPlans>,
    output_expires_at: Option<i128>,
    e: &Evidence,
    r: Result<Option<OutputWork>, OutputError>,
) -> bool {
    match r {
        Ok(None) => ticket is Absent,
        Ok(Some(w)) => !saved_fault(ticket, plans, output_expires_at, *e) && (ticket matches Column::Value(t)
            && work_of(w, t, plans, *e)),
        Err(x) => x == OutputError::Corrupt && saved_fault(ticket, plans, output_expires_at, *e),
    }
}

/// The saved ticket and plans, where they fit the evidence.
pub fn saved(
    ticket: Column<OutputTicket>,
    plans: Column<OutputPlans>,
    output_expires_at: Option<i128>,
    e: &Evidence,
) -> (r: Result<Option<OutputWork>, OutputError>)
    ensures
        work_saved(ticket, plans, output_expires_at, e, r),
{
    let ticket: OutputTicket = match ticket {
        Column::Absent => {
            return Ok(None);
        },
        Column::Unreadable => {
            return Err(OutputError::Corrupt);
        },
        Column::Value(t) => t,
    };
    if ticket.validate().is_err() {
        return Err(OutputError::Corrupt);
    }
    let expiry: bool = match output_expires_at {
        Some(at) => match millis(at) {
            Some(m) => m == ticket.expires_unix_ms,
            None => false,
        },
        None => false,
    };
    if !ticket.owner.same(&e.owner) || ticket.output_limit != e.receipt.output_limit || !expiry {
        return Err(OutputError::Corrupt);
    }
    let plans: Option<OutputPlans> = match plans {
        Column::Absent => None,
        Column::Unreadable => {
            return Err(OutputError::Corrupt);
        },
        Column::Value(p) => {
            if validate_plans(&ticket, &p, e).is_err() {
                return Err(OutputError::Corrupt);
            }
            Some(p)
        },
    };
    Ok(Some(OutputWork { ticket, plans, receipt: e.receipt.clone(), simulated: e.simulated }))
}

/// Retention of one second to thirty days, with at most a week of grace.
pub open spec fn retention_allowed(retention_seconds: u32, grace_seconds: u32) -> bool {
    1 <= retention_seconds <= 2592000 && grace_seconds <= 604800
}

/// When a new ticket expires: its retention from completion, but not past the
/// response's own deadline, and at least a millisecond after completion.
pub open spec fn ticket_expiry(created: i64, retention_seconds: u32, response: Option<i64>) -> int {
    let full = created + retention_seconds * 1000;
    let capped = match response {
        Some(m) => if m < full {
            m as int
        } else {
            full
        },
        None => full,
    };
    if capped < created + 1 {
        created + 1
    } else {
        capped
    }
}

/// The retention of a new ticket cannot be written down.
pub open spec fn ticket_overflows(op: OperationRow, retention_seconds: u32, grace_seconds: u32) -> bool {
    ||| op.completed_at is None
    ||| millis_of(op.completed_at->0) is None
    ||| millis_of(op.completed_at->0)->0 + retention_seconds * 1000 > i64::MAX
    ||| (op.response_expires_at matches Some(t) && millis_of(t) is None)
    ||| ticket_expiry(millis_of(op.completed_at->0)->0, retention_seconds, response_millis(op)) + grace_seconds * 1000 > i64::MAX
}

pub open spec fn response_millis(op: OperationRow) -> Option<i64> {
    match op.response_expires_at {
        Some(t) => millis_of(t),
        None => None,
    }
}

/// The ticket that a completed execution is issued.
pub open spec fn issued_ticket(
    op: OperationRow,
    e: Evidence,
    attempt: OperationId,
    retention_seconds: u32,
    grace_seconds: u32,
) -> OutputTicket {
    let created = millis_of(op.completed_at->0)->0;
    let expires = ticket_expiry(created, retention_seconds, response_millis(op));
    OutputTicket {
        version: 1,
        owner: e.owner,
        upload_attempt: attempt,
        output_limit: e.receipt.output_limit,
        created_unix_ms: created,
        expires_unix_ms: expires as i64,
        delete_after_unix_ms: (expires + grace_seconds * 1000) as i64,
    }
}

/// Issue a ticket for a completed execution. Retention starts at command
/// completion, not at a later retry. A response already expired before execution
/// finished cannot grant a new retention window: its ticket is valid and
/// immediately expired.
fn issue(op: &OperationRow, e: &Evidence, attempt: OperationId, retention_seconds: u32, grace_seconds: u32) -> (r: Result<
    OutputTicket,
    OutputError,
>)
    requires
        retention_allowed(retention_seconds, grace_seconds),
    ensures
        match r {
            Ok(t) => !ticket_overflows(*op, retention_seconds, grace_seconds) && t == issued_ticket(
                *op,
                *e,
                attempt,
                retention_seconds,
                grace_seconds,
            ),
            Err(x) => x == OutputError::Corrupt && ticket_overflows(*op, retention_seconds, grace_seconds),
        },
{
    let created: i64 = match op.completed_at {
        Some(at) => match millis(at) {
            Some(m) => m,
            None => {
                return Err(OutputError::Corrupt);
            },
        },
        None => {
            return Err(OutputError::Corrupt);
        },
    };
    let full: i128 = created as i128 + retention_seconds as i128 * 1000;
    if full > i64::MAX as i128 {
        return Err(OutputError::Corrupt);
    }
    let capped: i128 = match op.response_expires_at {
        Some(at) => match millis(at) {
            Some(m) => if (m as i128) < full {
                m as i128
            } else {
                full
            },
            None => {
                return Err(OutputError::Corrupt);
            },
        },
        None => full,
    };
    let expires: i128 = if capped < created as i128 + 1 {
        created as i128 + 1
    } else {
        capped
    };
    let delete_after: i128 = expires + grace_seconds as i128 * 1000;
    if delete_after > i64::MAX as i128 {
        return Err(OutputError::Corrupt);
    }
    Ok(
        OutputTicket {
            version: 1,
            owner: e.owner.clone(),
            upload_attempt: attempt,
            output_limit: e.receipt.output_limit,
            created_unix_ms: created,
            expires_unix_ms: expires as i64,
            delete_after_unix_ms: delete_after as i64,
        },
    )
}

/// The work that is prepared: what was saved, or a newly issued ticket.
pub open spec fn prepared_work(
    op: OperationRow,
    e: Evidence,
    work: Option<OutputWork>,
    attempt: OperationId,
    retention_seconds: u32,
    grace_seconds: u32,
) -> OutputWork {
    match work {
        Some(w) => w,
        None => OutputWork {
            ticket: issued_ticket(op, e, attempt, retention_seconds, grace_seconds),
            plans: None,
            receipt: e.receipt,
            simulated: e.simulated,
        },
    }
}

/// Why output is not prepared, given the evidence and what was saved before.
pub open spec fn prepare_refusal(
    op: OperationRow,
    e: Evidence,
    work: Option<OutputWork>,
    attempt: OperationId,
    retention_seconds: u32,
    grace_seconds: u32,
    allow_simulated: bool,
) -> Option<OutputError> {
    let ticket = prepared_work(op, e, work, attempt, retention_seconds, grace_seconds).ticket;
    if !retention_allowed(retention_seconds, grace_seconds) {
        Some(OutputError::InvalidPolicy)
    } else if e.simulated && !allow_simulated {
        Some(OutputError::SimulationDenied)
    } else if work is None && ticket_overflows(op, retention_seconds, grace_seconds) {
        Some(OutputError::Corrupt)
    } else if !ticket_valid(ticket) {
        Some(OutputError::BadEvidence)
    } else if stamp_of(ticket.expires_unix_ms) is None {
        Some(OutputError::Corrupt)
    } else {
        None
    }
}

/// What checking a retention policy may come to.
pub open spec fn retention_checked(
    retention_seconds: u32,
    grace_seconds: u32,
    r: Result<(), OutputError>,
) -> bool {
    r == output_outcome(
        if retention_allowed(retention_seconds, grace_seconds) {
            None
        } else {
            Some(OutputError::InvalidPolicy)
        },
    )
}

/// A policy that preparation accepts.
pub fn check_retention(retention_seconds: u32, grace_seconds: u32) -> (r: Result<(), OutputError>)
    ensures
        retention_checked(retention_seconds, grace_seconds, r),
{
    if retention_seconds < 1 || retention_seconds > 2592000 || grace_seconds > 604800 {
        return Err(OutputError::InvalidPolicy);
    }
    Ok(())
}

/// What preparing a command's output may come to.
pub open spec fn output_prepared(
    op: &OperationRow,
    e: Evidence,
    work: Option<OutputWork>,
    attempt: OperationId,
    retention_seconds: u32,
    grace_seconds: u32,
    allow_simulated: bool,
    r: Result<(OutputWork, i128), OutputError>,
) -> bool {
    let refusal = prepare_refusal(
        *op,
        e,
        work,
        attempt,
        retention_seconds,
        grace_seconds,
        allow_simulated,
    );
    match r {
        Ok((w, expiry)) => {
            &&& refusal is None
            &&& w == prepared_work(*op, e, work, attempt, retention_seconds, grace_seconds)
            &&& Some(expiry) == stamp_of(w.ticket.expires_unix_ms)
        },
        Err(x) => refusal == Some(x),
    }
}

/// Prepare output work under an allowed policy: keep the saved ticket where there is one, else issue a
/// ticket with the given attempt. The stamp is when the ticket expires.
pub fn prepare_output(
    op: &OperationRow,
    e: Evidence,
    work: Option<OutputWork>,
    attempt: OperationId,
    retention_seconds: u32,
    grace_seconds: u32,
    allow_simulated: bool,
) -> (r: Result<(OutputWork, i128), OutputError>)
    ensures
        output_prepared(op, e, work, attempt, retention_seconds, grace_seconds, allow_simulated, r),
{
    match check_retention(retention_seconds, grace_seconds) {
        Ok(_) => {},
        Err(x) => {
            return Err(x);
        },
    }
    if e.simulated && !allow_simulated {
        return Err(OutputError::SimulationDenied);
    }
    let w: OutputWork = match work {
        Some(w) => w,
        None => {
            let ticket: OutputTicket = match issue(op, &e, attempt, retention_seconds, grace_seconds) {
                Ok(t) => t,
                Err(x) => {
                    return Err(x);
                },
            };
            OutputWork { ticket, plans: None, receipt: e.receipt, simulated: e.simulated }
        },
    };
    if w.ticket.validate().is_err() {
        return Err(OutputError::BadEvidence);
    }
    match stamp(w.ticket.expires_unix_ms) {
        Some(expiry) => Ok((w, expiry)),
        None => Err(OutputError::Corrupt),
    }
}

/// Why plans are not saved, once the work is known.
pub open spec fn save_refusal(work: Option<OutputWork>, plans: OutputPlans, e: Evidence, allow_simulated: bool) -> Option<
    OutputError,
> {
    if e.simulated && !allow_simulated {
        Some(OutputError::SimulationDenied)
    } else if work is None || !plans_proven(work->0.ticket, plans, e.receipt) || (work->0.plans matches Some(old)
        && !same_plans(old, plans)) {
        Some(OutputError::BadEvidence)
    } else {
        None
    }
}

/// What saving plans may come to.
pub open spec fn plans_saved(
    work: &Option<OutputWork>,
    plans: &OutputPlans,
    e: &Evidence,
    allow_simulated: bool,
    r: Result<(), OutputError>,
) -> bool {
    r == output_outcome(save_refusal(*work, *plans, *e, allow_simulated))
}

/// Plans are saved once: they must fit the ticket and the receipt, and a repeat
/// must be of the same plans.
pub fn save_output_plans(work: &Option<OutputWork>, plans: &OutputPlans, e: &Evidence, allow_simulated: bool) -> (r: Result<
    (),
    OutputError,
>)
    ensures
        plans_saved(work, plans, e, allow_simulated, r),
{
    if e.simulated && !allow_simulated {
        return Err(OutputError::SimulationDenied);
    }
    let work: &OutputWork = match work {
        Some(w) => w,
        None => {
            return Err(OutputError::BadEvidence);
        },
    };
    if validate_plans(&work.ticket, plans, e).is_err() {
        return Err(OutputError::BadEvidence);
    }
    if let Some(old) = &work.plans {
        if !old.same(plans) {
            return Err(OutputError::BadEvidence);
        }
    }
    Ok(())
}

/// The references are of exactly the saved plans, which fit the receipt.
pub open spec fn refs_proven(work: OutputWork, refs: OutputRefs, e: Evidence) -> bool {
    let plans = OutputPlans { stdout: refs.stdout.plan, stderr: refs.stderr.plan };
    &&& refs_valid(refs, e.owner, e.receipt.output_limit)
    &&& plans_proven(work.ticket, plans, e.receipt)
    &&& (work.plans matches Some(saved_plans) && same_plans(saved_plans, plans))
}

/// What publishing references may come to.
pub open spec fn refs_accepted(
    work: &Option<OutputWork>,
    refs: &OutputRefs,
    e: &Evidence,
    allow_simulated: bool,
    r: Result<(), OutputError>,
) -> bool {
    r == output_outcome(
        if e.simulated && !allow_simulated {
            Some(OutputError::SimulationDenied)
        } else if work matches Some(w) && refs_proven(*w, *refs, *e) {
            None
        } else {
            Some(OutputError::BadEvidence)
        },
    )
}

/// Publish references of verified uploads. Metadata only: object existence and
/// integrity must still be checked on byte reads.
pub fn publish_output(work: &Option<OutputWork>, refs: &OutputRefs, e: &Evidence, allow_simulated: bool) -> (r: Result<
    (),
    OutputError,
>)
    ensures
        refs_accepted(work, refs, e, allow_simulated, r),
{
    if e.simulated && !allow_simulated {
        return Err(OutputError::SimulationDenied);
    }
    let work: &OutputWork = match work {
        Some(w) => w,
        None => {
            return Err(OutputError::BadEvidence);
        },
    };
    if refs.validate(&e.owner, e.receipt.output_limit).is_err() {
        return Err(OutputError::BadEvidence);
    }
    let plans: OutputPlans = refs.plans();
    assert(plans == (OutputPlans { stdout: refs.stdout.plan, stderr: refs.stderr.plan }));
    if validate_plans(&work.ticket, &plans, e).is_err() {
        return Err(OutputError::BadEvidence);
    }
    match &work.plans {
        Some(saved_plans) => if saved_plans.same(&plans) {
            Ok(())
        } else {
            Err(OutputError::BadEvidence)
        },
        None => Err(OutputError::BadEvidence),
    }
}

/// Published references are of the saved plans and valid for the owner.
pub open spec fn refs_published(work: Option<OutputWork>, refs: Column<OutputRefs>, e: Evidence) -> bool {
    &&& refs is Value
    &&& refs_valid(refs->Value_0, e.owner, e.receipt.output_limit)
    &&& (work matches Some(w) && (w.plans matches Some(p) && same_plans(
        p,
        OutputPlans { stdout: refs->Value_0.stdout.plan, stderr: refs->Value_0.stderr.plan },
    )))
}

/// What a project may be shown of output that nothing is proven of.
pub open spec fn output_unseen(op: &OperationRow, now: i128, r: OutputView) -> bool {
    &&& r.simulated is None
    &&& r.owner is None
    &&& r.references is None
    &&& r.expires_at == earlier_of(op.output_expires_at, op.response_expires_at)
    &&& r.status@ == (if passed(r.expires_at, now) {
        "expired"@
    } else {
        op.output_status@
    })
}

/// What a project may be told of an operation that never had output.
pub fn output_absent(op: &OperationRow, now: i128) -> (r: OutputView)
    ensures
        output_unseen(op, now, r),
{
    let expires_at: Option<i128> = earlier(op.output_expires_at, op.response_expires_at);
    OutputView {
        simulated: None,
        status: if has_passed(expires_at, now) {
            "expired".to_owned()
        } else {
            op.output_status.clone()
        },
        owner: None,
        references: None,
        expires_at,
    }
}

/// What a project may be shown of a command's output.
pub open spec fn output_seen(
    op: &OperationRow,
    e: Evidence,
    work: &Option<OutputWork>,
    refs: Column<OutputRefs>,
    now: i128,
    r: Result<OutputView, OutputError>,
) -> bool {
    let published = op.output_status@ == "published"@;
    match r {
        Ok(v) => {
            &&& (published ==> refs_published(*work, refs, e))
            &&& v.simulated == Some(e.simulated)
            &&& v.owner == Some(e.owner)
            &&& v.expires_at == earlier_of(op.output_expires_at, op.response_expires_at)
            &&& v.status@ == (if passed(v.expires_at, now) {
                "expired"@
            } else {
                op.output_status@
            })
            &&& v.references == (if published && !passed(v.expires_at, now) {
                Some(refs->Value_0)
            } else {
                None
            })
        },
        Err(x) => x == OutputError::Corrupt && published && !refs_published(*work, refs, e),
    }
}

/// What a project may be told of an operation's output. `refs` are the published
/// references, exactly two of them, where the status says there are some.
pub fn output_for_project(
    op: &OperationRow,
    e: Evidence,
    work: &Option<OutputWork>,
    refs: Column<OutputRefs>,
    now: i128,
) -> (r: Result<OutputView, OutputError>)
    ensures
        output_seen(op, e, work, refs, now, r),
{
    let expires_at: Option<i128> = earlier(op.output_expires_at, op.response_expires_at);
    let over: bool = has_passed(expires_at, now);
    let references: Option<OutputRefs> = if same_text(op.output_status.as_str(), "published") {
        let refs: OutputRefs = match refs {
            Column::Value(refs) => refs,
            _ => {
                return Err(OutputError::Corrupt);
            },
        };
        if refs.validate(&e.owner, e.receipt.output_limit).is_err() {
            return Err(OutputError::Corrupt);
        }
        let plans: OutputPlans = refs.plans();
        assert(plans == (OutputPlans { stdout: refs.stdout.plan, stderr: refs.stderr.plan }));
        let same: bool = match work {
            Some(w) => match &w.plans {
                Some(p) => p.same(&plans),
                None => false,
            },
            None => false,
        };
        if !same {
            return Err(OutputError::Corrupt);
        }
        if over {
            None
        } else {
            Some(refs)
        }
    } else {
        None
    };
    Ok(
        OutputView {
            simulated: Some(e.simulated),
            status: if over {
                "expired".to_owned()
            } else {
                op.output_status.clone()
            },
            owner: Some(e.owner),
            references,
            expires_at,
        },
    )
}

/// Retention is counted from completion and never granted anew: a new ticket
/// expires within its retention, within the response's own deadline where that
/// lies after completion, and always after it was created.
pub proof fn retention_is_bounded(created: i64, retention_seconds: u32, response: Option<i64>)
    requires
        retention_seconds >= 1,
    ensures
        created < ticket_expiry(created, retention_seconds, response) <= created + retention_seconds * 1000,
        response matches Some(m) ==> (m > created ==> ticket_expiry(created, retention_seconds, response) <= m),
{
}

/// An expired response shows no references, whatever was published.
pub proof fn expiry_hides_references(op: OperationRow, now: i128)
    ensures
        passed(op.response_expires_at, now) || passed(op.output_expires_at, now) <==> passed(
            earlier_of(op.output_expires_at, op.response_expires_at),
            now,
        ),
{
}

} // verus!
