//! What a host keeps of transfers and commands, and which receipts move it.
use crate::command::{receipt_matches, record_finished, CommandRecord};
use crate::file_wire::state_number;
use crate::files::{receipt_check, upload_digest, Receipt, State, Upload};
use crate::guest_model::Context;
use crate::guest_model::Receipt as CommandReceipt;
use crate::guest_model::State as CommandState;
use crate::ids::OperationId;
use crate::supervisor_files::{
    accepted_records_fit, fields_refusal, file_finished, observe_refusal, pending_record, record_check, with_file_state,
    FileRecord, FileRecordError,
};
use crate::text::byte_len;
use vstd::prelude::*;

verus! {

/// A kept transfer is whole: of at most eight MiB, in a known state. One that was
/// fenced before it began holds nothing else; one that began names a real boot, was
/// asked to commit if it did, and to abort if it did.
pub open spec fn record_whole(r: FileRecord) -> bool {
    &&& r.size <= 8388608
    &&& r.state <= 5
    &&& r.not_started ==> r.context is None && r.size == 0 && r.state == 0 && !r.commit_requested && !r.abort_requested
    &&& !r.not_started ==> {
        &&& r.context matches Some(c) && c.generation >= 1 && c.boot_id@.len() >= 1 && byte_len(c.boot_id@) <= 64
        &&& r.state == 2 || r.state == 3 ==> r.commit_requested
        &&& r.state == 5 ==> r.abort_requested
    }
}

/// A transfer is kept exactly where it is whole.
pub proof fn whole_records_are_kept(r: FileRecord)
    ensures
        record_check(r) is Ok <==> record_whole(r),
{
    if fields_refusal(r) is None {
        accepted_records_fit(r);
    }
}

/// The states of a transfer as they are numbered.
pub proof fn transfer_states_are_numbered(s: State)
    ensures
        s == State::Staging <==> state_number(s) == 1,
        s == State::CommitIntent <==> state_number(s) == 2,
        s == State::Committed <==> state_number(s) == 3,
        s == State::Unknown <==> state_number(s) == 4,
        s == State::Aborted <==> state_number(s) == 5,
{
}

/// A transfer is over where it never began, or was committed, lost or aborted.
pub proof fn transfers_end_in_their_last_states(r: FileRecord)
    ensures
        file_finished(r) <==> r.not_started || r.state == 3 || r.state == 4 || r.state == 5,
{
}

/// A guest's receipt of a transfer is taken exactly where it is accepted in itself, is
/// of this transfer's boot, upload and digest, does not change one that is over, and
/// commits or aborts only what was asked to; it changes nothing but the state.
pub proof fn receipts_move_their_own_transfer(r: FileRecord, upload: Upload, receipt: Receipt)
    requires
        receipt_check(receipt) is Ok,
    ensures
        observe_refusal(r, upload, receipt) is None <==> {
            let next = receipt.state;
            &&& !r.not_started
            &&& r.context matches Some(c) && c.allocation_id == receipt.context.allocation_id && c.generation
                == receipt.context.generation && c.boot_id@ == receipt.context.boot_id@
            &&& receipt.upload.operation_id == upload.operation_id && receipt.upload.path@ == upload.path@
                && receipt.upload.size == upload.size && receipt.upload.sha256@ == upload.sha256@ && receipt.upload.mode
                == upload.mode
            &&& r.digest@ == receipt.digest@
            &&& r.size == upload.size
            &&& r.state == 3 ==> next == State::Committed
            &&& r.state == 4 ==> next == State::Unknown
            &&& r.state == 5 ==> next == State::Aborted
            &&& next == State::CommitIntent || next == State::Committed ==> r.commit_requested
            &&& next == State::Aborted ==> r.abort_requested
        },
        ({
            let after = with_file_state(r, state_number(receipt.state) as u8);
            after.digest == r.digest && after.context == r.context && after.size == r.size && after.not_started
                == r.not_started && after.commit_requested == r.commit_requested && after.abort_requested
                == r.abort_requested && after.state == state_number(receipt.state)
        }),
{
}

/// A receipt that is not accepted in itself is refused for its own reason.
pub proof fn bad_receipts_move_nothing(r: FileRecord, upload: Upload, receipt: Receipt)
    requires
        receipt_check(receipt) is Err,
    ensures
        observe_refusal(r, upload, receipt) == Some(FileRecordError::File(receipt_check(receipt)->Err_0)),
{
}

/// A new transfer holds its upload's digest and size and the boot it goes to, and has
/// been asked for nothing.
pub proof fn new_transfers_hold_their_upload(upload: Upload, context: Context)
    requires
        upload_digest(upload) is Ok,
    ensures
        ({
            let r = pending_record(upload, context);
            r.digest == upload_digest(upload)->Ok_0 && r.context == Some(context) && r.size == upload.size
                && !r.not_started && !r.commit_requested && !r.abort_requested && r.state == 0
        }),
{
}

/// A guest's receipt of a command is the record's exactly where the command started and
/// they agree on the operation, the boot, the digest, the deadline and the limit.
pub proof fn command_receipts_are_of_their_record(record: CommandRecord, id: OperationId, r: CommandReceipt)
    ensures
        receipt_matches(record, id, r) <==> {
            &&& !record.not_started
            &&& r.operation_id == id
            &&& record.context matches Some(c) && c.allocation_id == r.context.allocation_id && c.generation
                == r.context.generation && c.boot_id@ == r.context.boot_id@
            &&& record.digest@ == r.digest@
            &&& record.deadline_unix_ms == r.deadline_unix_ms
            &&& record.output_limit == r.output_limit
        },
{
}

/// A command is over where it never started, or its receipt says, with its cleanup
/// confirmed, that it exited, timed out or was cancelled.
pub proof fn commands_end_with_a_confirmed_receipt(record: CommandRecord)
    ensures
        record_finished(record) <==> record.not_started || (record.receipt matches Some(r) && r.cleanup_confirmed && (
        r.state == CommandState::Exited || r.state == CommandState::TimedOut || r.state == CommandState::Cancelled)),
{
}

} // verus!
