//! Reading a file out of a sandbox: what may be asked for, and which answers count.
use crate::file_downloads::{
    capture_request_scope, captured_refusal, chunk_refusal, handle_refusal, read_request_scope, release_request_scope,
    released_refusal, scope_matches, scope_of, DownloadError, ReadScope,
};
use crate::file_wire::{capture_refusal, handle_of, read_refusal, write_refusal};
use crate::files::path_check;
use crate::guest::{FileCapture, FileHandle, ReadFile, WriteFile};
use crate::ids::{id_text, is_id_text};
use crate::supervisor::{
    same_download, FileAccessObservation, FileAccessResult, FileCaptureRequest, FileDownloadHandle, FileDownloadRequest,
    FileReleaseRequest, Ownership,
};
use crate::text::byte_len;
use vstd::prelude::*;

verus! {

/// A file request is made in a real scope, spelled in at most 4096 bytes, for no more
/// than thirty seconds from now.
pub open spec fn scope_usable(size: int, parsed: Option<ReadScope>, expires: i64, now: i64) -> bool {
    &&& size <= 4096
    &&& now < expires <= now + 30000
    &&& parsed matches Some(s) && s.version == 1 && s.host_epoch >= 1 && s.generation >= 1
}

/// A scope is read exactly where it is usable, as it was parsed.
pub proof fn scopes_are_short_lived(size: int, parsed: Option<ReadScope>, expires: i64, now: i64)
    ensures
        scope_usable(size, parsed, expires, now) ==> scope_of(size, parsed, expires, now) == parsed,
        !scope_usable(size, parsed, expires, now) ==> scope_of(size, parsed, expires, now) is None,
{
}

/// A scope is an owner's exactly where they agree on the host and its epoch, the
/// project, the sandbox, the allocation and its generation.
pub proof fn scopes_are_of_one_allocation(s: ReadScope, o: Ownership)
    ensures
        scope_matches(s, o) <==> {
            &&& o.host_id@ == id_text("hst"@, s.host_id.value)
            &&& o.supervisor_epoch == s.host_epoch
            &&& o.project_id@ == id_text("prj"@, s.project_id.value)
            &&& o.sandbox_id@ == id_text("sbx"@, s.sandbox_id.value)
            &&& o.allocation_id@ == id_text("alc"@, s.allocation_id.value)
            &&& o.generation == s.generation
        },
{
}

/// A capture is described: it is named, its path is one that may be transferred, it is
/// of at most eight MiB, its digest is of 32 bytes, and it has an end.
pub open spec fn capture_described(c: FileCapture) -> bool {
    is_id_text("op"@, c.capture_id@) && path_check(c.path@) is Ok && c.sha256@.len() == 32 && c.size <= 8388608
        && c.expires_unix_ms >= 1
}

/// A handle is of this scope: it is named, of a boot of the scope's allocation and
/// generation, has an end, and describes a capture.
pub open spec fn handle_of_scope(h: FileDownloadHandle, s: ReadScope) -> bool {
    &&& is_id_text("op"@, h.id@)
    &&& h.context matches Some(c) && {
        &&& c.generation >= 1
        &&& c.generation == s.generation
        &&& c.allocation_id@ == id_text("alc"@, s.allocation_id.value)
        &&& is_id_text("alc"@, c.allocation_id@)
        &&& c.boot_id@.len() >= 1
        &&& byte_len(c.boot_id@) <= 64
    }
    &&& h.expires_unix_ms >= 1
    &&& h.capture matches Some(c) && capture_described(c)
}

/// A handle is accepted in a scope exactly where it is of that scope.
pub proof fn handles_are_of_their_scope(h: FileDownloadHandle, s: ReadScope)
    ensures
        handle_refusal(h, s) is None <==> handle_of_scope(h, s),
{
}

/// A capture is asked for exactly in a usable scope, of a path that may be transferred.
pub proof fn captures_are_asked_for_in_scope(r: FileCaptureRequest, parsed: Option<ReadScope>, now: i64)
    ensures
        ({
            let x = capture_request_scope(r, parsed, now);
            let usable = scope_usable(r.scope_json@.len() as int, parsed, r.expires_unix_ms, now);
            &&& x is Ok <==> usable && path_check(r.path@) is Ok
            &&& x matches Ok(s) ==> parsed == Some(s)
            &&& !usable ==> x == Err::<ReadScope, DownloadError>(DownloadError::Scope)
            &&& usable && path_check(r.path@) is Err ==> x == Err::<ReadScope, DownloadError>(
                DownloadError::Path(path_check(r.path@)->Err_0),
            )
        }),
{
}

/// A chunk is asked for exactly in a usable scope, of a handle of that scope, from no
/// further than its end, and of one byte to 32 KiB.
pub proof fn chunks_are_asked_for_in_range(r: FileDownloadRequest, parsed: Option<ReadScope>, now: i64)
    ensures
        ({
            let x = read_request_scope(r, parsed, now);
            let usable = scope_usable(r.scope_json@.len() as int, parsed, r.expires_unix_ms, now);
            &&& x is Ok <==> usable && (r.handle matches Some(h) && handle_of_scope(h, parsed->0) && r.offset
                <= h.capture->0.size) && 1 <= r.limit <= 32768
            &&& x matches Ok(s) ==> parsed == Some(s)
            &&& !usable ==> x == Err::<ReadScope, DownloadError>(DownloadError::Scope)
            &&& usable && r.handle is None ==> x == Err::<ReadScope, DownloadError>(DownloadError::MissingHandle)
        }),
{
}

/// A release is asked for exactly in a usable scope, of a handle of that scope.
pub proof fn releases_are_asked_for_in_scope(r: FileReleaseRequest, parsed: Option<ReadScope>, now: i64)
    ensures
        ({
            let x = release_request_scope(r, parsed, now);
            let usable = scope_usable(r.scope_json@.len() as int, parsed, r.expires_unix_ms, now);
            &&& x is Ok <==> usable && (r.handle matches Some(h) && handle_of_scope(h, parsed->0))
            &&& x matches Ok(s) ==> parsed == Some(s)
        }),
{
}

/// An answer is to this very request: of its scope byte for byte, simulated as the
/// caller expects, and dated within ten seconds of now.
pub open spec fn answered(scope: Seq<u8>, o: FileAccessObservation, simulated: bool, now: i64) -> bool {
    o.scope_json@ == scope && o.simulated == simulated && o.observed_unix_ms >= 1 && now - 10000 <= o.observed_unix_ms
        <= now + 10000
}

/// A capture is accepted exactly where it answers the request, is a handle of the
/// scope, of the path that was asked for, and ends later than now and no more than a
/// minute after it was made.
pub proof fn captures_are_of_the_asked_path(
    r: FileCaptureRequest,
    parsed: Option<ReadScope>,
    o: FileAccessObservation,
    simulated: bool,
    now: i64,
)
    requires
        capture_request_scope(r, parsed, now) is Ok,
    ensures
        captured_refusal(r, parsed, o, simulated, now) is None <==> {
            &&& answered(r.scope_json@, o, simulated, now)
            &&& o.result matches Some(FileAccessResult::Captured(h)) && handle_of_scope(h, parsed->0) && h.capture->0.path@
                == r.path@ && now < h.expires_unix_ms <= o.observed_unix_ms + 60000
        },
{
    captures_are_asked_for_in_scope(r, parsed, now);
    if let Some(FileAccessResult::Captured(h)) = o.result {
        handles_are_of_their_scope(h, parsed->0);
    }
}

/// A chunk is accepted exactly where it answers the request and is the asked part of
/// the capture: from the asked place, as many bytes as were asked for or as are left,
/// saying where the next begins and whether that was the end.
pub proof fn chunks_are_the_asked_part(
    r: FileDownloadRequest,
    parsed: Option<ReadScope>,
    o: FileAccessObservation,
    simulated: bool,
    now: i64,
)
    requires
        read_request_scope(r, parsed, now) is Ok,
    ensures
        chunk_refusal(r, parsed, o, simulated, now) is None <==> {
            let capture = r.handle->0.capture->0;
            &&& answered(r.scope_json@, o, simulated, now)
            &&& o.result matches Some(FileAccessResult::Chunk(c)) && {
                &&& c.handle matches Some(h) && h.capture_id@ == capture.capture_id@ && h.sha256@ == capture.sha256@
                &&& c.size == capture.size
                &&& c.offset == r.offset
                &&& r.offset + r.limit <= capture.size ==> c.data@.len() == r.limit
                &&& r.offset + r.limit > capture.size ==> c.data@.len() == capture.size - r.offset
                &&& c.next_offset == c.offset + c.data@.len()
                &&& c.at_end <==> c.next_offset == c.size
            }
        },
{
    chunks_are_asked_for_in_range(r, parsed, now);
}

/// A release is accepted exactly where it answers the request and names the very handle
/// that was to be released.
pub proof fn releases_are_of_the_asked_handle(
    r: FileReleaseRequest,
    parsed: Option<ReadScope>,
    o: FileAccessObservation,
    simulated: bool,
    now: i64,
)
    requires
        release_request_scope(r, parsed, now) is Ok,
    ensures
        released_refusal(r, parsed, o, simulated, now) is None <==> {
            &&& answered(r.scope_json@, o, simulated, now)
            &&& o.result matches Some(FileAccessResult::Released(h)) && same_download(h, r.handle->0)
        },
{
}

/// A write is accepted exactly where it names its upload and holds one byte to 32 KiB
/// that end within eight MiB.
pub proof fn writes_stay_within_the_file(v: WriteFile)
    ensures
        write_refusal(v) is None <==> {
            &&& v.operation matches Some(x) && x.digest@.len() == 32 && is_id_text("op"@, x.operation_id@)
            &&& 1 <= v.data@.len() <= 32768
            &&& v.offset + v.data@.len() <= 8388608
        },
{
}

/// A read is accepted exactly where it names its capture, begins within eight MiB and
/// asks for one byte to 32 KiB.
pub proof fn reads_stay_within_the_file(v: ReadFile)
    ensures
        read_refusal(v) is None <==> {
            &&& v.handle matches Some(x) && x.sha256@.len() == 32 && is_id_text("op"@, x.capture_id@)
            &&& 1 <= v.limit <= 32768
            &&& v.offset <= 8388608
        },
{
}

/// A capture is accepted exactly where it is described, and its handle names it.
pub proof fn captures_are_described(v: FileCapture, h: FileHandle)
    ensures
        capture_refusal(v) is None <==> capture_described(v),
        handle_of(v, h) <==> h.capture_id@ == v.capture_id@ && h.sha256@ == v.sha256@,
{
}

} // verus!
