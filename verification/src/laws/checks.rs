//! What is refused before anything is done with it.
use crate::allocation_retirement::{forget_shape, forget_validity, Error as RetirementError, ForgetRequest};
use crate::bootstrap::{
    bootstrap_check, bootstrap_json, device_bytes, device_check, header_check, magic, Bootstrap, BootstrapError,
};
use crate::file_downloads::{read_scope_valid, ReadScope};
use crate::file_sources::{source_plan_valid, source_ref_valid, SourceRef};
use crate::file_wire::{id_read, operation_refusal, upload_written, FileWireError};
use crate::files::Upload;
use crate::guest as wire;
use crate::guest_model::{context_valid, Context};
use crate::guest_wire::{frame_header, frame_header_reads_back, lemma_id_text_injective};
use crate::ids::{id_text, is_id_text, version_of, OperationId};
use crate::output::{plan_valid, ref_valid, OutputRef};
use crate::text::{bounded_identity, byte_len, control};
use vstd::utf8::*;
use vstd::prelude::*;

verus! {

/// A header is read as the length of its device's body.
pub proof fn headers_carry_the_bodys_length(body: Seq<u8>)
    requires
        1 <= body.len() <= 65536,
    ensures
        header_check(device_bytes(body).take(12)) == Ok::<int, BootstrapError>(body.len() as int),
{
    let n = body.len() as u32;
    frame_header_reads_back(n);
    let h = frame_header(n);
    let d = device_bytes(body).take(12);
    assert(d.take(8) =~= magic());
    assert(d.subrange(8, 12) =~= h);
}

/// A header of another kind is refused, and so is one whose length is none or above
/// 64 KiB.
pub proof fn misfit_headers_are_refused(header: Seq<u8>)
    requires
        header.len() == 12,
    ensures
        ({
            let ours = header[0] == 72 && header[1] == 68 && header[2] == 83 && header[3] == 66 && header[4] == 79
                && header[5] == 79 && header[6] == 84 && header[7] == 49;
            let n = header[8] * 16777216 + header[9] * 65536 + header[10] * 256 + header[11];
            &&& !ours <==> header_check(header) == Err::<int, BootstrapError>(BootstrapError::Magic)
            &&& ours && !(1 <= n <= 65536) <==> header_check(header) == Err::<int, BootstrapError>(
                BootstrapError::BodySize,
            )
            &&& ours && 1 <= n <= 65536 <==> header_check(header) == Ok::<int, BootstrapError>(n)
        }),
{
    let t = header.take(8);
    let l = header.subrange(8, 12);
    assert(l[0] == header[8] && l[1] == header[9] && l[2] == header[10] && l[3] == header[11]);
    assert(t[0] == header[0] && t[1] == header[1] && t[2] == header[2] && t[3] == header[3] && t[4] == header[4] && t[5]
        == header[5] && t[6] == header[6] && t[7] == header[7]);
    if header[0] == 72 && header[1] == 68 && header[2] == 83 && header[3] == 66 && header[4] == 79 && header[5] == 79
        && header[6] == 84 && header[7] == 49 {
        assert(t =~= magic());
    } else {
        assert(magic()[0] == 72 && magic()[1] == 68 && magic()[2] == 83 && magic()[3] == 66 && magic()[4] == 79
            && magic()[5] == 79 && magic()[6] == 84 && magic()[7] == 49);
    }
}

/// A bootstrap is written to its device as it is encoded, where it is accepted and its
/// encoding is of at most 64 KiB.
pub proof fn devices_hold_the_written_bootstrap(b: Bootstrap)
    ensures
        bootstrap_check(b) is Err ==> device_check(b) == Err::<Seq<u8>, BootstrapError>(bootstrap_check(b)->Err_0),
        bootstrap_check(b) is Ok && encode_utf8(bootstrap_json(b)).len() > 65536 <==> device_check(b) == Err::<
            Seq<u8>,
            BootstrapError,
        >(BootstrapError::TooLarge) && bootstrap_check(b) is Ok,
        bootstrap_check(b) is Ok && encode_utf8(bootstrap_json(b)).len() <= 65536 ==> device_check(b) == Ok::<
            Seq<u8>,
            BootstrapError,
        >(device_bytes(encode_utf8(bootstrap_json(b)))),
{
}

/// A scope to read is of the first version, a real epoch and a real generation.
pub proof fn read_scopes_are_of_real_allocations(s: ReadScope)
    ensures
        read_scope_valid(s) <==> s.version == 1 && s.host_epoch >= 1 && s.generation >= 1,
{
}

/// A name that storage gives is there, of at most its limit in bytes, and holds no
/// character below the space and none from delete to the end of the second controls.
pub proof fn given_names_are_plain_and_bounded(text: Seq<char>, limit: int)
    ensures
        bounded_identity(text, limit) <==> text.len() >= 1 && byte_len(text) <= limit && forall|i: int|
            0 <= i < text.len() ==> (#[trigger] text[i]) as int >= 32 && !(127 <= text[i] as int <= 159),
{
    if !bounded_identity(text, limit) && text.len() >= 1 && byte_len(text) <= limit {
        let i = choose|i: int| 0 <= i < text.len() && control(#[trigger] text[i]);
        assert(!(text[i] as int >= 32 && !(127 <= text[i] as int <= 159)));
    }
    if bounded_identity(text, limit) {
        assert forall|i: int| 0 <= i < text.len() implies (#[trigger] text[i]) as int >= 32 && !(127 <= text[i] as int
            <= 159) by {
            assert(!control(text[i]));
        }
    }
}

/// A reference is of a good plan, and both its tag and its version, where it has one,
/// are names of at most 1024 bytes.
pub proof fn references_hold_names(r: OutputRef, s: SourceRef)
    ensures
        ref_valid(r) <==> plan_valid(r.plan) && bounded_identity(r.etag@, 1024) && (r.object_version is Some
            ==> bounded_identity(r.object_version->0@, 1024)),
        source_ref_valid(s) <==> source_plan_valid(s.plan) && bounded_identity(s.etag@, 1024) && (
        s.object_version is Some ==> bounded_identity(s.object_version->0@, 1024)),
{
}

/// A boot is of a real generation and named by one to 64 bytes.
pub proof fn boots_are_named(c: Context)
    ensures
        context_valid(c) <==> c.generation >= 1 && c.boot_id@.len() >= 1 && byte_len(c.boot_id@) <= 64,
{
}

/// What an upload is written as on the wire says all that it says.
pub proof fn uploads_are_told_on_the_wire(u: Upload, v: Upload, w: wire::FileUpload)
    requires
        upload_written(u, w),
        upload_written(v, w),
    ensures
        u == (Upload { path: u.path, sha256: u.sha256, ..v }),
        u.path@ == v.path@,
        u.sha256@ == v.sha256@,
        w.operation_id@ == id_text("op"@, u.operation_id.value),
        w.size == u.size && w.mode == u.mode && w.path@ == u.path@ && w.sha256@ == u.sha256@,
{
    lemma_id_text_injective("op"@, u.operation_id.value, v.operation_id.value);
}

/// An operation on a file is refused for a digest that is not of 32 bytes, then for an
/// identity that is none; the identity of any other is read as it was written.
pub proof fn file_operations_are_named(v: wire::FileOperation, id: OperationId, read: OperationId)
    ensures
        v.digest@.len() != 32 <==> operation_refusal(v) == Some(FileWireError::Digest),
        v.digest@.len() == 32 && v.operation_id@ == id_text("op"@, id.value) && version_of(id.value) == 7
            ==> operation_refusal(v) is None,
        v.operation_id@ == id_text("op"@, id.value) && id_read(v.operation_id@, read) ==> read.value == id.value,
        operation_refusal(v) is Some && v.digest@.len() == 32 ==> operation_refusal(v) == Some(FileWireError::Identity)
            && !is_id_text("op"@, v.operation_id@),
{
    if v.operation_id@ == id_text("op"@, id.value) && version_of(id.value) == 7 {
        assert(is_id_text("op"@, v.operation_id@));
    }
    if v.operation_id@ == id_text("op"@, id.value) && id_read(v.operation_id@, read) {
        lemma_id_text_injective("op"@, id.value, read.value);
    }
}

/// A request to forget counts exactly while its claim lives, at the host's own epoch,
/// where it is whole.
pub proof fn forget_requests_are_live(f: ForgetRequest, epoch: i64, now: i64)
    ensures
        !forget_shape(f) <==> forget_validity(f, epoch, now) == Err::<(), RetirementError>(RetirementError::Invalid),
        forget_validity(f, epoch, now) is Ok <==> forget_shape(f) && now >= 1 && f.claim.expires_unix_ms > now
            && f.claim.reporting_epoch == epoch,
        forget_shape(f) && forget_validity(f, epoch, now) is Err ==> forget_validity(f, epoch, now) == Err::<
            (),
            RetirementError,
        >(RetirementError::Claim),
{
}

} // verus!
