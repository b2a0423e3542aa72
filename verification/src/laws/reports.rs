//! What a host records of its work, what it reports of it, and what it holds receipts
//! against.
use crate::api::CommandInput;
use crate::bootstrap::{bootstrap_check, device_body_of, device_read, served, Bootstrap, BootstrapError};
use crate::command::{
    command_check, command_recorded, command_reported, matching, receipt_matches, CommandError, CommandRecord,
};
use crate::files::{upload_digest, FileError, Upload};
use crate::guest_model::{Context, Execute, Receipt};
use crate::guest_wire::receipt_written;
use crate::ids::{id_text, OperationId};
use crate::supervisor::{CommandObservation, FileObservation, Ownership};
use crate::supervisor_files::{file_reported, identity_check, FileRecord, FileRecordError};
use vstd::prelude::*;

verus! {

/// A command is accepted where it asks for at most ten MiB of output and the guest
/// accepts it; too much output is the first reason to refuse it.
pub proof fn commands_ask_for_bounded_output(c: CommandInput, guest_accepts: bool)
    ensures
        c.output_limit > 10485760 <==> command_check(c, guest_accepts) == Err::<(), CommandError>(
            CommandError::OutputLimit,
        ),
        command_check(c, guest_accepts) is Ok <==> c.output_limit <= 10485760 && guest_accepts,
        c.output_limit <= 10485760 && !guest_accepts <==> command_check(c, guest_accepts) == Err::<(), CommandError>(
            CommandError::Shape,
        ),
{
}

/// A command is recorded with its own digest, boot, deadline and limit, as begun and
/// without a receipt; one without a digest is not recorded.
pub proof fn commands_are_recorded_before_they_start(
    command: Execute,
    context: Context,
    digest: Option<[u8; 32]>,
    r: Result<CommandRecord, CommandError>,
)
    requires
        command_recorded(command, context, digest, r),
    ensures
        r is Ok <==> digest is Some,
        r matches Ok(record) ==> {
            &&& Some(record.digest) == digest
            &&& record.context == Some(context)
            &&& record.deadline_unix_ms == command.deadline_unix_ms
            &&& record.output_limit == command.output_limit
            &&& !record.not_started
            &&& record.receipt is None
        },
        r matches Err(e) ==> e == CommandError::Shape,
{
}

/// What is reported of a command is its record's own digest and receipt, for the owner
/// that asked, at the time of asking.
pub proof fn commands_are_reported_as_recorded(
    record: CommandRecord,
    owner: Ownership,
    simulated: bool,
    now: i64,
    r: CommandObservation,
)
    requires
        command_reported(record, owner, simulated, now, r),
    ensures
        r.ownership == Some(owner) && r.simulated == simulated && r.observed_unix_ms == now,
        r.command_digest@ == record.digest@ && r.not_started == record.not_started,
        r.receipt is Some <==> record.receipt is Some,
        record.receipt is Some ==> receipt_written(record.receipt->0, r.receipt->0),
{
}

/// A receipt is taken exactly where it is whole in itself and of the record; that it is
/// not whole is the first reason to refuse it.
pub proof fn receipts_are_held_against_the_record(
    record: CommandRecord,
    id: OperationId,
    receipt: Receipt,
    receipt_valid: bool,
)
    ensures
        !receipt_valid <==> matching(record, id, receipt, receipt_valid) == Err::<(), CommandError>(CommandError::Shape),
        matching(record, id, receipt, receipt_valid) is Ok <==> receipt_valid && receipt_matches(record, id, receipt),
        receipt_valid && !receipt_matches(record, id, receipt) <==> matching(record, id, receipt, receipt_valid)
            == Err::<(), CommandError>(CommandError::Receipt),
{
}

/// What is reported of a transfer is its record's own digest, state and boot and what
/// is stored of it, for the owner that asked, at the time of asking.
pub proof fn transfers_are_reported_as_kept(
    record: FileRecord,
    owner: Ownership,
    simulated: bool,
    now: i64,
    stored: Option<u64>,
    r: FileObservation,
)
    requires
        file_reported(record, owner, simulated, now, stored, r),
    ensures
        r.ownership == Some(owner) && r.simulated == simulated && r.observed_unix_ms == now,
        r.upload_digest@ == record.digest@ && r.state == record.state && r.not_started == record.not_started,
        r.stored == stored,
        r.context is Some <==> record.context is Some,
        record.context is Some ==> r.context->0.allocation_id@ == id_text("alc"@, record.context->0.allocation_id.value)
            && r.context->0.generation == record.context->0.generation && r.context->0.boot_id@
            == record.context->0.boot_id@,
{
}

/// An upload is a kept transfer's own exactly where it is of the same operation and its
/// digest is the one that was kept; an upload that has no digest is refused for its own
/// reason.
pub proof fn transfers_are_known_by_their_digest(record: FileRecord, id: OperationId, upload: Upload, e: FileError)
    ensures
        identity_check(record, id, upload) is Ok <==> upload.operation_id == id && (upload_digest(upload) matches Ok(d)
            && d@ == record.digest@),
        upload.operation_id != id ==> identity_check(record, id, upload) == Err::<(), FileRecordError>(
            FileRecordError::Descriptor,
        ),
        upload.operation_id == id && upload_digest(upload) == Err::<[u8; 32], FileError>(e) ==> identity_check(
            record,
            id,
            upload,
        ) == Err::<(), FileRecordError>(FileRecordError::File(e)),
        upload.operation_id == id && upload_digest(upload) is Ok && identity_check(record, id, upload) is Err
            ==> identity_check(record, id, upload) == Err::<(), FileRecordError>(FileRecordError::Descriptor),
{
}

/// A bootstrap serves the guest's identity while it is valid and has not reached its
/// end.
pub proof fn bootstraps_serve_until_their_end(b: Bootstrap, now_ms: i64)
    ensures
        served(b, now_ms) is Ok <==> bootstrap_check(b) is Ok && now_ms < b.valid_until_unix_ms,
        bootstrap_check(b) is Err ==> served(b, now_ms) == bootstrap_check(b),
        bootstrap_check(b) is Ok && now_ms >= b.valid_until_unix_ms <==> bootstrap_check(b) is Ok && served(b, now_ms)
            == Err::<(), BootstrapError>(BootstrapError::Expired),
{
}

/// A device gives the bootstrap that its body says, where the device has a body, the
/// body says one and that one is valid.
pub proof fn devices_give_what_their_body_says(device: Seq<u8>, b: Bootstrap)
    ensures
        device_read(device, Some(b)) == Ok::<Bootstrap, BootstrapError>(b) <==> device_body_of(device) is Ok
            && bootstrap_check(b) is Ok,
        device_body_of(device) is Ok ==> device_read(device, None) == Err::<Bootstrap, BootstrapError>(
            BootstrapError::Body,
        ),
        device_body_of(device) matches Err(e) ==> device_read(device, Some(b)) == Err::<Bootstrap, BootstrapError>(e)
            && device_read(device, None) == Err::<Bootstrap, BootstrapError>(e),
        device_body_of(device) is Ok && bootstrap_check(b) is Err ==> device_read(device, Some(b)) == Err::<
            Bootstrap,
            BootstrapError,
        >(bootstrap_check(b)->Err_0),
{
}

} // verus!
