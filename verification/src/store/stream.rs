//! Read-only stream resolution from tenant-scoped retained execution evidence.
use crate::document::{field, has_text, is_text, item, Doc};
use crate::guest_model::{Receipt, State};
use crate::live_output::{live_scope_valid, LiveOutputScope};
use crate::store::clock::{earlier, earlier_of, has_passed, passed};
use crate::store::output::{
    execution_evidence, execution_holds, Evidence, ExecutionRows, OutputError, OutputView,
};
use crate::store::rows::{text_is, OperationRow};
use crate::text::same_text;
use vstd::prelude::*;
use vstd::string::*;

verus! {

#[derive(Debug)]
pub enum StreamSource {
    Pending,
    Missing,
    Expired,
    Live { scope: LiveOutputScope, simulated: bool },
    Archived(Box<OutputView>),
}

impl Clone for StreamSource {
    fn clone(&self) -> (r: Self)
        ensures
            r == *self,
    {
        match self {
            StreamSource::Pending => StreamSource::Pending,
            StreamSource::Missing => StreamSource::Missing,
            StreamSource::Expired => StreamSource::Expired,
            StreamSource::Live { scope, simulated } => StreamSource::Live { scope: scope.clone(), simulated: *simulated },
            StreamSource::Archived(view) => StreamSource::Archived(Box::new((&**view).clone())),
        }
    }
}

#[derive(Debug)]
pub struct StreamView {
    pub source: StreamSource,
    pub expires_at: Option<i128>,
}

impl Clone for StreamView {
    fn clone(&self) -> (r: Self)
        ensures
            r == *self,
    {
        StreamView { source: self.source.clone(), expires_at: self.expires_at }
    }
}

/// What resolving a stream comes to.
pub enum StreamStep {
    /// This is the stream.
    Found(StreamView),
    /// The output was published: resolve it through the published references,
    /// with the complete verifier of immutable references.
    Published,
}

/// How an operation that is being streamed must stand: running or unknown with a
/// launch, or completed as its receipt says. A retained boot binding may survive
/// a lost later observation.
pub open spec fn standing_valid(op: OperationRow, r: Receipt) -> bool {
    ||| op.status@ == "running"@ && text_is(op.phase, "executing"@) && r.state == State::LaunchIntent && op.completed_at
        is None
    ||| op.status@ == "unknown"@ && text_is(op.phase, "reconciling"@) && (r.state == State::LaunchIntent || r.state
        == State::Unknown) && op.completed_at is None
    ||| op.status@ == "succeeded"@ && text_is(op.phase, "exited"@) && r.state == State::Exited && op.completed_at is Some
        && r.exit_code == Some(0i32)
    ||| op.status@ == "failed"@ && text_is(op.phase, "exited"@) && r.state == State::Exited && op.completed_at is Some
        && r.exit_code != Some(0i32)
    ||| op.status@ == "failed"@ && text_is(op.phase, "timed_out"@) && r.state == State::TimedOut && op.completed_at
        is Some
    ||| op.status@ == "cancelled"@ && text_is(op.phase, "cancelled"@) && r.state == State::Cancelled && op.completed_at
        is Some
}

fn is_standing_valid(op: &OperationRow, r: &Receipt) -> (b: bool)
    ensures
        b == standing_valid(*op, *r),
{
    let done: bool = op.completed_at.is_some();
    let clean: bool = match r.exit_code {
        Some(code) => code == 0,
        None => false,
    };
    let status: &str = op.status.as_str();
    let executing: bool = crate::store::rows::is_text(&op.phase, "executing");
    let reconciling: bool = crate::store::rows::is_text(&op.phase, "reconciling");
    let exited: bool = crate::store::rows::is_text(&op.phase, "exited");
    let timed_out: bool = crate::store::rows::is_text(&op.phase, "timed_out");
    let cancelled: bool = crate::store::rows::is_text(&op.phase, "cancelled");
    match r.state {
        State::LaunchIntent => !done && ((same_text(status, "running") && executing) || (same_text(status, "unknown")
            && reconciling)),
        State::Unknown => !done && same_text(status, "unknown") && reconciling,
        State::Exited => done && exited && ((same_text(status, "succeeded") && clean) || (same_text(status, "failed")
            && !clean)),
        State::TimedOut => done && same_text(status, "failed") && timed_out,
        State::Cancelled => done && same_text(status, "cancelled") && cancelled,
    }
}

/// What the rows alone say of a stream, before any execution evidence is read.
pub enum Early {
    Pending,
    Missing,
    Expired,
    Published,
    Corrupt,
    /// The evidence decides.
    Undecided,
}

pub open spec fn early(op: OperationRow, now: i128) -> Early {
    if op.output_status@ == "expired"@ || passed(earlier_of(op.response_expires_at, op.output_expires_at), now) {
        Early::Expired
    } else if op.output_status@ == "published"@ {
        Early::Published
    } else if op.attempt_count == 0 {
        Early::Pending
    } else if op.attempt_count != 1 {
        Early::Corrupt
    } else {
        match op.attempt_receipts@ {
            Doc::List(items) => if items.len() == 1 {
                Early::Pending
            } else if items.len() != 2 {
                Early::Corrupt
            } else if is_text(field(items[1], "phase"@), "command_fenced_before_start"@) {
                Early::Missing
            } else {
                Early::Undecided
            },
            _ => Early::Corrupt,
        }
    }
}

/// The scope of a live stream: what the receipt is of.
pub open spec fn live_scope(s: LiveOutputScope, rows: ExecutionRows) -> bool {
    &&& s.version == 1
    &&& s.owner.project_id == rows.op.project_id
    &&& s.owner.sandbox_id == rows.op.sandbox_id
    &&& s.owner.operation_id == rows.op.id
    &&& s.owner.allocation_id == rows.pinned->0.id
    &&& s.owner.generation == rows.pinned->0.generation
    &&& s.owner.host_id == rows.pinned->0.host_id
    &&& s.owner.host_epoch == rows.pinned->0.supervisor_epoch
    &&& s.owner.boot_id@ == rows.receipt->0.context.boot_id@
    &&& s.command_digest == rows.receipt->0.digest
    &&& s.output_limit == rows.receipt->0.output_limit
    &&& s.deadline_unix_ms == rows.receipt->0.deadline_unix_ms
}

/// The stream that the rows resolve to, where they do.
pub open spec fn resolved(step: StreamStep, rows: ExecutionRows, now: i128, live: bool) -> bool {
    match early(*rows.op, now) {
        Early::Published => step is Published,
        Early::Expired => step matches StreamStep::Found(v) && v.source is Expired,
        Early::Pending => step matches StreamStep::Found(v) && v.source is Pending,
        Early::Missing => step matches StreamStep::Found(v) && v.source is Missing,
        Early::Corrupt => false,
        Early::Undecided => {
            &&& execution_holds(rows)
            &&& standing_valid(*rows.op, *rows.receipt->0)
            &&& if live {
                &&& (step matches StreamStep::Found(v) && (v.source matches StreamSource::Live { scope, simulated }
                    && live_scope(scope, rows) && live_scope_valid(scope) && Some(simulated)
                    == crate::document::flag_of(field(item(rows.op.attempt_receipts@, 1)->0, "simulated"@))))
            } else {
                step matches StreamStep::Found(v) && v.source is Missing
            }
        },
    }
}

/// Whether the retained rows cannot be trusted.
pub open spec fn stream_corrupt(rows: ExecutionRows, now: i128, live: bool) -> bool {
    match early(*rows.op, now) {
        Early::Corrupt => true,
        Early::Undecided => {
            ||| !execution_holds(rows)
            ||| !standing_valid(*rows.op, *rows.receipt->0)
            ||| live && exists|s: LiveOutputScope| #[trigger] live_scope(s, rows) && !live_scope_valid(s)
        },
        _ => false,
    }
}

fn found(source: StreamSource, op: &OperationRow) -> (r: StreamStep)
    ensures
        r matches StreamStep::Found(v) && v.source == source && v.expires_at == earlier_of(
            op.response_expires_at,
            op.output_expires_at,
        ),
{
    StreamStep::Found(StreamView { source, expires_at: earlier(op.response_expires_at, op.output_expires_at) })
}

/// What a stream may be resolved to.
pub open spec fn stream_resolved(
    rows: &ExecutionRows,
    now: i128,
    live: bool,
    r: Result<StreamStep, OutputError>,
) -> bool {
    match r {
        Ok(step) => {
            &&& resolved(step, *rows, now, live)
            &&& (step matches StreamStep::Found(v) ==> v.expires_at == earlier_of(
                rows.op.response_expires_at,
                rows.op.output_expires_at,
            ))
        },
        Err(e) => e == OutputError::Corrupt && stream_corrupt(*rows, now, live),
    }
}

/// Resolve a command's stream at the database time `now`. This neither claims nor
/// dispatches work; credential authorization remains the caller's responsibility
/// before and after any asynchronous read. `live` is whether the command's
/// allocation still runs under a live lease at the host's epoch.
pub fn stream_for_project(rows: &ExecutionRows, now: i128, live: bool) -> (r: Result<StreamStep, OutputError>)
    ensures
        stream_resolved(rows, now, live, r),
{
    let op: &OperationRow = rows.op;
    if same_text(op.output_status.as_str(), "expired") || has_passed(
        earlier(op.response_expires_at, op.output_expires_at),
        now,
    ) {
        return Ok(found(StreamSource::Expired, op));
    }
    if same_text(op.output_status.as_str(), "published") {
        return Ok(StreamStep::Published);
    }
    if op.attempt_count == 0 {
        return Ok(found(StreamSource::Pending, op));
    }
    if op.attempt_count != 1 {
        return Err(OutputError::Corrupt);
    }
    let count: usize = match op.attempt_receipts.count() {
        Some(n) => n,
        None => {
            return Err(OutputError::Corrupt);
        },
    };
    if count == 1 {
        return Ok(found(StreamSource::Pending, op));
    }
    if count != 2 {
        return Err(OutputError::Corrupt);
    }
    match op.attempt_receipts.at(1) {
        Some(latest) => {
            if has_text(latest, "phase", "command_fenced_before_start") {
                return Ok(found(StreamSource::Missing, op));
            }
        },
        None => {
            return Err(OutputError::Corrupt);
        },
    }
    let e: Evidence = match execution_evidence(rows) {
        Ok(e) => e,
        Err(_) => {
            return Err(OutputError::Corrupt);
        },
    };
    if !is_standing_valid(op, &e.receipt) {
        return Err(OutputError::Corrupt);
    }
    if !live {
        return Ok(found(StreamSource::Missing, op));
    }
    let scope: LiveOutputScope = LiveOutputScope {
        version: 1,
        owner: e.owner,
        command_digest: e.receipt.digest,
        output_limit: e.receipt.output_limit,
        deadline_unix_ms: e.receipt.deadline_unix_ms,
    };
    assert(live_scope(scope, *rows));
    if scope.validate().is_err() {
        return Err(OutputError::Corrupt);
    }
    Ok(found(StreamSource::Live { scope, simulated: e.simulated }, op))
}

/// What a published stream may be shown as.
pub open spec fn stream_archived(view: OutputView, r: StreamView) -> bool {
    &&& r.expires_at == view.expires_at
    &&& if view.status@ == "expired"@ {
        r.source is Expired
    } else {
        r.source == StreamSource::Archived(Box::new(view))
    }
}

/// A published stream is its output view, or expired where the view is.
pub fn archived(view: OutputView) -> (r: StreamView)
    ensures
        stream_archived(view, r),
{
    let expires_at: Option<i128> = view.expires_at;
    if same_text(view.status.as_str(), "expired") {
        StreamView { source: StreamSource::Expired, expires_at }
    } else {
        StreamView { source: StreamSource::Archived(Box::new(view)), expires_at }
    }
}

/// Nothing streams once either deadline has passed, whatever else the rows hold.
pub proof fn expired_streams_show_nothing(rows: ExecutionRows, now: i128, live: bool, step: StreamStep)
    requires
        passed(rows.op.response_expires_at, now) || passed(rows.op.output_expires_at, now),
        resolved(step, rows, now, live),
    ensures
        step matches StreamStep::Found(v) && v.source is Expired,
{
}

} // verus!
