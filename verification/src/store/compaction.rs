//! Atomic removal of expired request/response bodies, preserving retry and
//! reconciliation evidence. This does not delete receipts or reclaim VM journals.
use crate::api::CommandInput;
use crate::canonical::Json;
use crate::command::MAX_OUTPUT;
use crate::document::{copy_json, field, Doc, Members};
use crate::guest_model::same_bytes;
use crate::idempotency::{RequestDigest, DIGEST_VERSION};
use crate::ids::{id_text, Id, OperationId, SandboxId};
use crate::store::cancel::cancel_target_path;
use crate::store::execute::{command_usable, execute_path};
use crate::store::output::{input_of, output_outcome, Column, OutputError};
use crate::store::retries::{digest_request, request_digest};
use crate::text::same_text;
use vstd::prelude::*;
use vstd::string::*;

verus! {

/// Stored only by the compactor after validating the original command and
/// applicable final receipts. Never accepted from an API or supervisor caller.
#[derive(Debug, Clone, Copy)]
pub struct CommandSummary {
    pub version: u8,
    pub digest: [u8; 32],
    pub deadline_unix_ms: i64,
    pub output_limit: u64,
}

/// What may be kept of a command.
pub open spec fn command_kept(
    input: CommandInput,
    guest_accepts: bool,
    digest: Option<[u8; 32]>,
    r: Result<CommandSummary, OutputError>,
) -> bool {
    match r {
        Ok(s) => {
            &&& command_usable(Some(input), guest_accepts)
            &&& digest is Some
            &&& s == (CommandSummary {
                version: 1,
                digest: digest->0,
                deadline_unix_ms: input.deadline_unix_ms,
                output_limit: input.output_limit,
            })
        },
        Err(e) => e == OutputError::Corrupt && (!command_usable(Some(input), guest_accepts) || digest is None),
    }
}

impl CommandSummary {
    /// What is kept of a command. `guest_accepts` is the guest's own check of it
    /// and `digest` the guest's digest of it under its operation.
    pub fn from_input(input: &CommandInput, guest_accepts: bool, digest: Option<[u8; 32]>) -> (r: Result<Self, OutputError>)
        ensures
            command_kept(*input, guest_accepts, digest, r),
    {
        if input.validate(guest_accepts).is_err() {
            return Err(OutputError::Corrupt);
        }
        match digest {
            Some(digest) => Ok(
                CommandSummary {
                    version: 1,
                    digest,
                    deadline_unix_ms: input.deadline_unix_ms,
                    output_limit: input.output_limit,
                },
            ),
            None => Err(OutputError::Corrupt),
        }
    }
}

/// The columns that hold a command, before or after compaction. `summary` is what
/// the compactor left; `command`, `guest_accepts` and `digest` are of the stored
/// payload, where it still reads as a command.
pub struct CommandColumns<'a> {
    pub compacted: bool,
    pub summary: Column<CommandSummary>,
    pub payload: &'a Json,
    pub command: Option<&'a CommandInput>,
    pub guest_accepts: bool,
    pub digest: Option<[u8; 32]>,
}

/// A summary as the compactor writes it, with an emptied payload beside it.
pub open spec fn summary_intact(c: CommandColumns) -> bool {
    &&& (c.summary matches Column::Value(s) && s.version == 1 && s.deadline_unix_ms > 0 && s.output_limit <= MAX_OUTPUT)
    &&& c.payload@ == Doc::Object(Seq::<(Seq<char>, Doc)>::empty())
}

/// The command's identity: what the compactor left, or what the payload says.
pub open spec fn summary_of(c: CommandColumns) -> Option<CommandSummary> {
    if c.compacted {
        if summary_intact(c) {
            Some(c.summary->Value_0)
        } else {
            None
        }
    } else if command_usable(input_of(c.command), c.guest_accepts) && c.digest is Some {
        Some(
            CommandSummary {
                version: 1,
                digest: c.digest->0,
                deadline_unix_ms: c.command->0.deadline_unix_ms,
                output_limit: c.command->0.output_limit,
            },
        )
    } else {
        None
    }
}

fn is_empty_object(value: &Json) -> (r: bool)
    ensures
        r == (value@ == Doc::Object(Seq::<(Seq<char>, Doc)>::empty())),
{
    match value {
        Json::Object(members) => {
            let empty: bool = members.len() == 0;
            proof {
                if !empty {
                    assert(crate::document::entries(members@).len() > 0);
                }
            }
            empty
        },
        _ => false,
    }
}

/// What a command's columns may be read as.
pub open spec fn command_summarized(c: &CommandColumns, r: Result<CommandSummary, OutputError>) -> bool {
    match r {
        Ok(s) => summary_of(*c) == Some(s),
        Err(e) => e == OutputError::Corrupt && summary_of(*c) is None,
    }
}

/// The identity of a command, whether or not it has been compacted. Rows that
/// were never compacted must still validate the complete original payload.
pub fn command_summary(c: &CommandColumns) -> (r: Result<CommandSummary, OutputError>)
    ensures
        command_summarized(c, r),
{
    if c.compacted {
        let s: CommandSummary = match &c.summary {
            Column::Value(s) => *s,
            _ => {
                return Err(OutputError::Corrupt);
            },
        };
        if s.version != 1 || s.deadline_unix_ms <= 0 || s.output_limit > MAX_OUTPUT || !is_empty_object(c.payload) {
            return Err(OutputError::Corrupt);
        }
        return Ok(s);
    }
    match c.command {
        Some(input) => CommandSummary::from_input(input, c.guest_accepts, c.digest),
        None => Err(OutputError::Corrupt),
    }
}

#[derive(Debug, Clone, Copy, PartialEq, Eq, Structural)]
pub enum Compaction {
    Idle,
    Completed(OperationId),
    /// Invalid stored evidence is preserved and deferred for operator review.
    Deferred(OperationId),
}

/// The columns of a request that its digest covers.
pub struct RequestColumns<'a> {
    pub kind: &'a str,
    pub initiator: &'a str,
    pub sandbox_id: SandboxId,
    pub target_operation_id: Option<OperationId>,
    pub payload: &'a Json,
    pub request_digest: &'a Vec<u8>,
    pub digest_version: i32,
}

pub open spec fn customer(initiator: Seq<char>) -> bool {
    initiator == "project"@ || initiator == "admin"@
}

pub open spec fn destroy_path(sandbox: SandboxId) -> Seq<char> {
    "/v1/sandboxes/"@ + id_text("sbx"@, sandbox.value) + "/destroy"@
}

pub open spec fn destroy_body(payload: Doc) -> Option<Doc> {
    match field(payload, "correlation_id"@) {
        Some(v) => Some(Doc::Object(Seq::<(Seq<char>, Doc)>::empty().push(("correlation_id"@, v)))),
        None => None,
    }
}

/// The method, target and body that a stored operation was admitted with.
pub open spec fn original_request(c: RequestColumns) -> Option<(Seq<char>, Seq<char>, Doc)> {
    if c.kind@ == "create"@ && customer(c.initiator@) {
        Some(("POST"@, "/v1/sandboxes"@, c.payload@))
    } else if c.kind@ == "execute"@ && customer(c.initiator@) {
        Some(("POST"@, execute_path(c.sandbox_id), c.payload@))
    } else if c.kind@ == "cancel"@ && c.initiator@ == "project"@ {
        match c.target_operation_id {
            Some(target) => Some(("POST"@, cancel_target_path(target), c.payload@)),
            None => None,
        }
    } else if c.kind@ == "destroy"@ && customer(c.initiator@) {
        match destroy_body(c.payload@) {
            Some(body) => Some(("POST"@, destroy_path(c.sandbox_id), body)),
            None => None,
        }
    } else if c.kind@ == "destroy"@ && c.initiator@ == "service"@ {
        Some(("SERVICE"@, "/allocation-cleanup"@, c.payload@))
    } else {
        None
    }
}

/// The stored payload still is what the stored digest was made of.
pub open spec fn request_intact(c: RequestColumns) -> bool {
    &&& c.digest_version == DIGEST_VERSION
    &&& (original_request(c) matches Some((method, target, body)) && c.request_digest@ == request_digest(
        method,
        target,
        body,
    )@)
}

fn matches_digest(c: &RequestColumns, method: &str, target: &str, body: &Json) -> (r: Result<(), OutputError>)
    requires
        c.digest_version == DIGEST_VERSION,
        original_request(*c) == Some((method@, target@, body@)),
    ensures
        r == output_outcome(if request_intact(*c) {
            None
        } else {
            Some(OutputError::Corrupt)
        }),
{
    let digest: RequestDigest = digest_request(method, target, body);
    if same_bytes(c.request_digest.as_slice(), digest.as_bytes().as_slice()) {
        Ok(())
    } else {
        Err(OutputError::Corrupt)
    }
}

/// What checking a stored request may come to.
pub open spec fn request_validated(c: &RequestColumns, r: Result<(), OutputError>) -> bool {
    r == output_outcome(if request_intact(*c) {
        None
    } else {
        Some(OutputError::Corrupt)
    })
}

pub fn validate_request(c: &RequestColumns) -> (r: Result<(), OutputError>)
    ensures
        request_validated(c, r),
{
    if c.digest_version != DIGEST_VERSION {
        return Err(OutputError::Corrupt);
    }
    let customer: bool = same_text(c.initiator, "project") || same_text(c.initiator, "admin");
    if same_text(c.kind, "create") && customer {
        return matches_digest(c, "POST", "/v1/sandboxes", c.payload);
    }
    if same_text(c.kind, "execute") && customer {
        let mut path: String = "/v1/sandboxes/".to_owned();
        path.append(c.sandbox_id.to_string().as_str());
        path.append("/execute");
        return matches_digest(c, "POST", path.as_str(), c.payload);
    }
    if same_text(c.kind, "cancel") && same_text(c.initiator, "project") {
        return match c.target_operation_id {
            Some(target) => {
                let mut path: String = "/v1/operations/".to_owned();
                path.append(target.to_string().as_str());
                path.append("/cancel");
                matches_digest(c, "POST", path.as_str(), c.payload)
            },
            None => Err(OutputError::Corrupt),
        };
    }
    if same_text(c.kind, "destroy") && customer {
        return match c.payload.get("correlation_id") {
            Some(v) => {
                let mut path: String = "/v1/sandboxes/".to_owned();
                path.append(c.sandbox_id.to_string().as_str());
                path.append("/destroy");
                let mut body: Members = Members::new();
                body.put("correlation_id", copy_json(v));
                matches_digest(c, "POST", path.as_str(), &body.object())
            },
            None => Err(OutputError::Corrupt),
        };
    }
    if same_text(c.kind, "destroy") && same_text(c.initiator, "service") {
        return matches_digest(c, "SERVICE", "/allocation-cleanup", c.payload);
    }
    Err(OutputError::Corrupt)
}

/// What compacting one expired operation does.
pub enum CompactionStep {
    /// Empty the bodies, keeping this summary of a command.
    Compact(Option<CommandSummary>),
    /// Leave everything and come back in an hour.
    Defer,
}

/// Why an expired operation keeps its bodies. `pending` is what the evidence of
/// an execution whose output was never collected came to, `cleanup` what
/// revalidating a completed cleanup came to.
pub open spec fn compaction_fault(
    request: RequestColumns,
    command: CommandColumns,
    output_status: Seq<char>,
    pending: Result<(), OutputError>,
    cleanup: Result<(), OutputError>,
) -> Option<OutputError> {
    if !request_intact(request) {
        Some(OutputError::Corrupt)
    } else if request.kind@ == "execute"@ && summary_of(command) is None {
        Some(OutputError::Corrupt)
    } else if output_status == "pending"@ && pending is Err {
        Some(pending->Err_0)
    } else if output_status == "expired"@ && cleanup is Err {
        Some(cleanup->Err_0)
    } else {
        None
    }
}

/// What compacting an expired response may come to.
pub open spec fn compaction_decided(
    request: &RequestColumns,
    command: &CommandColumns,
    output_status: &str,
    pending: Result<(), OutputError>,
    cleanup: Result<(), OutputError>,
    r: Result<CompactionStep, OutputError>,
) -> bool {
    let fault = compaction_fault(*request, *command, output_status@, pending, cleanup);
    match r {
        Ok(CompactionStep::Compact(s)) => fault is None && s == (if request.kind@ == "execute"@ {
            summary_of(*command)
        } else {
            None
        }),
        Ok(CompactionStep::Defer) => fault == Some(OutputError::Corrupt) || fault == Some(
            OutputError::BadEvidence,
        ),
        Err(e) => fault == Some(e) && e != OutputError::Corrupt && e != OutputError::BadEvidence,
    }
}

/// Decide one expired operation while holding its row lock. Corrupt rows are
/// deferred, so they cannot starve their peers.
pub fn compact_expired_response(
    request: &RequestColumns,
    command: &CommandColumns,
    output_status: &str,
    pending: Result<(), OutputError>,
    cleanup: Result<(), OutputError>,
) -> (r: Result<CompactionStep, OutputError>)
    ensures
        compaction_decided(request, command, output_status, pending, cleanup, r),
{
    if validate_request(request).is_err() {
        return Ok(CompactionStep::Defer);
    }
    let summary: Option<CommandSummary> = if same_text(request.kind, "execute") {
        match command_summary(command) {
            Ok(s) => Some(s),
            Err(_) => {
                return Ok(CompactionStep::Defer);
            },
        }
    } else {
        None
    };
    if same_text(output_status, "pending") {
        match pending {
            Ok(_) => {},
            Err(e) => {
                return match e {
                    OutputError::Corrupt => Ok(CompactionStep::Defer),
                    OutputError::BadEvidence => Ok(CompactionStep::Defer),
                    _ => Err(e),
                };
            },
        }
    }
    if same_text(output_status, "expired") {
        match cleanup {
            Ok(_) => {},
            Err(e) => {
                return match e {
                    OutputError::Corrupt => Ok(CompactionStep::Defer),
                    OutputError::BadEvidence => Ok(CompactionStep::Defer),
                    _ => Err(e),
                };
            },
        }
    }
    Ok(CompactionStep::Compact(summary))
}

/// Compaction keeps a command's identity: once it is compacted, with its payload
/// emptied and this summary beside it, the same summary is read.
pub proof fn compaction_keeps_the_command(before: CommandColumns, after: CommandColumns)
    requires
        !before.compacted,
        summary_of(before) is Some,
        before.command->0.deadline_unix_ms > 0,
        after.compacted,
        after.summary == Column::Value(summary_of(before)->0),
        after.payload@ == Doc::Object(Seq::<(Seq<char>, Doc)>::empty()),
    ensures
        summary_of(after) == summary_of(before),
{
}

} // verus!
