//! Commands and the host's evidence of them.
use crate::allocation_authority::same_digest;
use crate::api::CommandInput;
use crate::canonical::{in_key_order, member_views, sort_pairs};
use crate::guest as w;
use crate::guest_model::{copy_bytes, copy_texts, same_context, Context, Execute, Receipt, State};
use crate::guest_wire::receipt_written;
use crate::ids::OperationId;
use crate::supervisor::{CommandObservation, Ownership};
use vstd::prelude::*;
use vstd::string::*;

verus! {

pub const MAX_OUTPUT: u64 = 10485760;

pub const MAX_DURATION_MS: i64 = 21600000;

/// Leaves space in each allocation's 64-operation fence budget for lifecycle work.
pub const MAX_COMMANDS: usize = 32;

/// Why a command or its receipt was refused.
#[derive(Debug, Clone, Copy, PartialEq, Eq, Structural)]
pub enum CommandError {
    /// Output limit exceeds public cap.
    OutputLimit,
    /// The guest's own check of the command or the receipt failed.
    Shape,
    /// Command receipt does not match retained intent.
    Receipt,
}

/// The guest command for an input under an operation.
pub open spec fn command_for(input: CommandInput, operation_id: OperationId, c: Execute) -> bool {
    &&& c.operation_id == operation_id
    &&& c.argv@ == input.argv@
    &&& member_views(c.env@) == in_key_order(member_views(input.env@))
    &&& c.cwd@ == input.cwd@
    &&& c.deadline_unix_ms == input.deadline_unix_ms
    &&& c.output_limit == input.output_limit
}

/// What checking a command answers, where `guest_accepts` is the guest's own check.
pub open spec fn command_check(c: CommandInput, guest_accepts: bool) -> Result<(), CommandError> {
    if c.output_limit > MAX_OUTPUT {
        Err(CommandError::OutputLimit)
    } else if !guest_accepts {
        Err(CommandError::Shape)
    } else {
        Ok(())
    }
}

impl CommandInput {
    pub fn for_operation(&self, operation_id: OperationId) -> (r: Execute)
        ensures
            command_for(*self, operation_id, r),
            self.well_formed() ==> r.well_formed(),
    {
        Execute {
            operation_id,
            argv: copy_texts(&self.argv),
            env: sort_pairs(&self.env),
            cwd: self.cwd.clone(),
            deadline_unix_ms: self.deadline_unix_ms,
            output_limit: self.output_limit,
        }
    }

    /// Shape only. Database time checks a new deadline after idempotency lookup;
    /// retries retain their original handle even after the command deadline.
    /// `guest_accepts` is what the guest's own check of the command answers.
    pub fn validate(&self, guest_accepts: bool) -> (r: Result<(), CommandError>)
        ensures
            r == command_check(*self, guest_accepts),
    {
        if self.output_limit > MAX_OUTPUT {
            return Err(CommandError::OutputLimit);
        }
        if !guest_accepts {
            return Err(CommandError::Shape);
        }
        Ok(())
    }
}

/// Host-owned command evidence. Persisted before forwarding any guest Execute.
/// No command arguments or environment are retained in this host journal.
#[derive(Debug, PartialEq, Eq)]
pub struct CommandRecord {
    pub digest: [u8; 32],
    pub context: Option<Context>,
    pub deadline_unix_ms: i64,
    pub output_limit: u64,
    pub not_started: bool,
    pub receipt: Option<Receipt>,
}

impl Clone for CommandRecord {
    fn clone(&self) -> (r: Self)
        ensures
            r == *self,
    {
        CommandRecord {
            digest: self.digest,
            context: match &self.context {
                Some(x) => Some(x.clone()),
                None => None,
            },
            deadline_unix_ms: self.deadline_unix_ms,
            output_limit: self.output_limit,
            not_started: self.not_started,
            receipt: match &self.receipt {
                Some(x) => Some(x.clone()),
                None => None,
            },
        }
    }
}

/// A receipt that ends a command: the guest has confirmed the cleanup of one
/// that exited, timed out or was cancelled.
pub open spec fn terminal_receipt(r: Receipt) -> bool {
    r.cleanup_confirmed && (r.state == State::Exited || r.state == State::TimedOut || r.state == State::Cancelled)
}

pub open spec fn record_finished(r: CommandRecord) -> bool {
    r.not_started || (r.receipt matches Some(receipt) && terminal_receipt(receipt))
}

/// The receipt is for the command that the record retains.
pub open spec fn receipt_matches(record: CommandRecord, id: OperationId, r: Receipt) -> bool {
    &&& !record.not_started
    &&& r.operation_id == id
    &&& (record.context matches Some(context) && same_context(context, r.context))
    &&& record.digest@ == r.digest@
    &&& record.deadline_unix_ms == r.deadline_unix_ms
    &&& record.output_limit == r.output_limit
}

/// What a command is recorded as before it is started.
pub open spec fn command_recorded(
    command: Execute,
    context: Context,
    digest: Option<[u8; 32]>,
    r: Result<CommandRecord, CommandError>,
) -> bool {
    match digest {
        Some(d) => r == Ok::<CommandRecord, CommandError>(
            CommandRecord {
                digest: d,
                context: Some(context),
                deadline_unix_ms: command.deadline_unix_ms,
                output_limit: command.output_limit,
                not_started: false,
                receipt: None,
            },
        ),
        None => r == Err::<CommandRecord, CommandError>(CommandError::Shape),
    }
}

/// What holding a receipt against a record answers, where `receipt_valid` is the
/// receipt's own check.
pub open spec fn matching(record: CommandRecord, id: OperationId, receipt: Receipt, receipt_valid: bool) -> Result<
    (),
    CommandError,
> {
    if !receipt_valid {
        Err(CommandError::Shape)
    } else if !receipt_matches(record, id, receipt) {
        Err(CommandError::Receipt)
    } else {
        Ok(())
    }
}

/// What is reported of a record.
pub open spec fn command_reported(
    record: CommandRecord,
    owner: Ownership,
    simulated: bool,
    now: i64,
    r: CommandObservation,
) -> bool {
    &&& r.ownership == Some(owner)
    &&& r.simulated == simulated
    &&& r.observed_unix_ms == now
    &&& r.command_digest@ == record.digest@
    &&& r.not_started == record.not_started
    &&& match (record.receipt, r.receipt) {
        (Some(receipt), Some(v)) => receipt_written(receipt, v),
        (None, None) => true,
        _ => false,
    }
}

impl CommandRecord {
    /// A command that must never start.
    pub fn fenced(digest: [u8; 32]) -> (r: Self)
        ensures
            r == (CommandRecord {
                digest,
                context: None,
                deadline_unix_ms: 0,
                output_limit: 0,
                not_started: true,
                receipt: None,
            }),
            record_finished(r),
    {
        CommandRecord {
            digest,
            context: None,
            deadline_unix_ms: 0,
            output_limit: 0,
            not_started: true,
            receipt: None,
        }
    }

    /// A command about to be forwarded. `digest` is the guest's own digest of the
    /// command: `None` where the guest refuses the command.
    pub fn pending(command: &Execute, context: Context, digest: Option<[u8; 32]>) -> (r: Result<Self, CommandError>)
        ensures
            command_recorded(*command, context, digest, r),
    {
        match digest {
            Some(d) => Ok(
                CommandRecord {
                    digest: d,
                    context: Some(context),
                    deadline_unix_ms: command.deadline_unix_ms,
                    output_limit: command.output_limit,
                    not_started: false,
                    receipt: None,
                },
            ),
            None => Err(CommandError::Shape),
        }
    }

    pub fn finished(&self) -> (r: bool)
        ensures
            r == record_finished(*self),
    {
        if self.not_started {
            return true;
        }
        match &self.receipt {
            Some(r) => r.cleanup_confirmed && (r.state == State::Exited || r.state == State::TimedOut || r.state
                == State::Cancelled),
            None => false,
        }
    }

    /// `receipt_valid` is what the guest's own check of the receipt answers.
    pub fn validate_receipt(&self, id: OperationId, receipt: &Receipt, receipt_valid: bool) -> (r: Result<(), CommandError>)
        ensures
            r == matching(*self, id, *receipt, receipt_valid),
    {
        if !receipt_valid {
            return Err(CommandError::Shape);
        }
        let context: bool = match &self.context {
            Some(context) => context.same(&receipt.context),
            None => false,
        };
        if self.not_started || receipt.operation_id != id || !context || !same_digest(&self.digest, &receipt.digest)
            || self.deadline_unix_ms != receipt.deadline_unix_ms || self.output_limit != receipt.output_limit {
            return Err(CommandError::Receipt);
        }
        Ok(())
    }

    pub fn observation(&self, owner: Ownership, simulated: bool, now: i64) -> (r: CommandObservation)
        ensures
            command_reported(*self, owner, simulated, now, r),
    {
        CommandObservation {
            ownership: Some(owner),
            simulated,
            observed_unix_ms: now,
            command_digest: copy_bytes(self.digest.as_slice()),
            receipt: match &self.receipt {
                Some(receipt) => Some(w::Receipt::from_model(receipt)),
                None => None,
            },
            not_started: self.not_started,
        }
    }
}

/// A command that must never start accepts no receipt.
pub proof fn fenced_commands_accept_no_receipt(record: CommandRecord, id: OperationId, r: Receipt)
    requires
        record.not_started,
    ensures
        !receipt_matches(record, id, r),
        record_finished(record),
{
}

} // verus!
