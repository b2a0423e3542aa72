//! Authorized reads of workspace files through a host: request scopes and the
//! exact responses that answer them.
use crate::file_wire;
use crate::file_wire::{capture_refusal, handle_of, FileWireError};
use crate::files;
use crate::files::FileError;
use crate::guest;
use crate::guest::FileChunk;
use crate::guest_model::{same_bytes, Context};
use crate::guest_wire::{context_refusal, WireError};
use crate::ids::{
    id_text, is_id_text, read_id, AllocationId, HostId, Id, OperationId, ProjectId,
    SandboxId,
};
use crate::supervisor::{
    same_download, FileAccessObservation, FileAccessResult, FileCaptureRequest, FileDownloadHandle,
    FileDownloadRequest, FileReleaseRequest, Ownership,
};
use crate::text::{byte_length, same_text};
use vstd::prelude::*;
use vstd::string::*;

verus! {

/// Why a file read or its response was refused.
#[derive(Debug, Clone, Copy, PartialEq, Eq, Structural)]
pub enum DownloadError {
    /// Invalid file read deadline or scope.
    Scope,
    /// The path was refused.
    Path(FileError),
    /// Invalid capture identity.
    Identity,
    /// Missing context.
    MissingContext,
    /// The context was refused.
    Context(WireError),
    /// Invalid capture ownership.
    Ownership,
    /// Missing capture.
    MissingCapture,
    /// The capture was refused.
    Capture(FileWireError),
    /// Missing handle.
    MissingHandle,
    /// Invalid capture range.
    Range,
    /// File response scope, provenance or time changed.
    Response,
    /// Another kind of response is required.
    Kind,
    /// Capture identity or expiry changed.
    CaptureChanged,
    /// File chunk identity or range changed.
    ChunkChanged,
    /// Release handle changed.
    HandleChanged,
}

#[derive(Debug, Clone, Copy, PartialEq, Eq, Structural)]
pub struct ReadScope {
    pub version: u32,
    pub host_id: HostId,
    pub host_epoch: i64,
    pub project_id: ProjectId,
    pub sandbox_id: SandboxId,
    pub allocation_id: AllocationId,
    pub generation: i64,
}

pub open spec fn read_scope_valid(s: ReadScope) -> bool {
    s.version == 1 && s.host_epoch > 0 && s.generation > 0
}

/// The ownership names the scope's host, epoch, project, sandbox, allocation and
/// generation.
pub open spec fn scope_matches(s: ReadScope, o: Ownership) -> bool {
    &&& id_text("hst"@, s.host_id.value) == o.host_id@
    &&& s.host_epoch == o.supervisor_epoch
    &&& id_text("prj"@, s.project_id.value) == o.project_id@
    &&& id_text("sbx"@, s.sandbox_id.value) == o.sandbox_id@
    &&& id_text("alc"@, s.allocation_id.value) == o.allocation_id@
    &&& s.generation == o.generation
}

impl ReadScope {
    pub fn validate(&self) -> (r: Result<(), DownloadError>)
        ensures
            r == (if read_scope_valid(*self) {
                Ok::<(), DownloadError>(())
            } else {
                Err(DownloadError::Scope)
            }),
    {
        if self.version == 1 && self.host_epoch > 0 && self.generation > 0 {
            Ok(())
        } else {
            Err(DownloadError::Scope)
        }
    }

    pub fn matches_owner(&self, o: &Ownership) -> (r: bool)
        ensures
            r == scope_matches(*self, *o),
    {
        same_text(self.host_id.to_string().as_str(), o.host_id.as_str()) && self.host_epoch == o.supervisor_epoch
            && same_text(self.project_id.to_string().as_str(), o.project_id.as_str()) && same_text(
            self.sandbox_id.to_string().as_str(),
            o.sandbox_id.as_str(),
        ) && same_text(self.allocation_id.to_string().as_str(), o.allocation_id.as_str()) && self.generation
            == o.generation
    }
}

/// Longest encoding of a scope, in bytes.
pub const MAX_SCOPE_BYTES: usize = 4096;

/// The scope that a request carries: bounded in size, well formed, and expiring
/// within thirty seconds.
pub open spec fn scope_of(size: int, parsed: Option<ReadScope>, expires: i64, now: i64) -> Option<ReadScope> {
    if size <= MAX_SCOPE_BYTES && 1 <= expires - now <= 30000 {
        match parsed {
            Some(s) => if read_scope_valid(s) {
                Some(s)
            } else {
                None
            },
            None => None,
        }
    } else {
        None
    }
}

/// Accept `parsed`, what `bytes` hold as the JSON of a read scope: `None` where
/// they hold none.
pub fn scope(bytes: &[u8], parsed: Option<ReadScope>, expires: i64, now: i64) -> (r: Result<ReadScope, DownloadError>)
    ensures
        match r {
            Ok(s) => scope_of(bytes@.len() as int, parsed, expires, now) == Some(s),
            Err(e) => scope_of(bytes@.len() as int, parsed, expires, now) is None && e == DownloadError::Scope,
        },
{
    let left: i128 = expires as i128 - now as i128;
    if bytes.len() > MAX_SCOPE_BYTES || left < 1 || left > 30000 {
        return Err(DownloadError::Scope);
    }
    match parsed {
        Some(s) => match s.validate() {
            Ok(_) => Ok(s),
            Err(e) => Err(e),
        },
        None => Err(DownloadError::Scope),
    }
}

/// What a capture handle is refused for under a scope, if it is.
pub open spec fn handle_refusal(h: FileDownloadHandle, s: ReadScope) -> Option<DownloadError> {
    if !is_id_text("op"@, h.id@) {
        Some(DownloadError::Identity)
    } else if h.context is None {
        Some(DownloadError::MissingContext)
    } else if context_refusal(h.context->0) is Some {
        Some(DownloadError::Context(context_refusal(h.context->0)->0))
    } else if h.context->0.allocation_id@ != id_text("alc"@, s.allocation_id.value) || h.context->0.generation
        != s.generation || h.context->0.boot_id@.len() == 0 || h.expires_unix_ms <= 0 {
        Some(DownloadError::Ownership)
    } else if h.capture is None {
        Some(DownloadError::MissingCapture)
    } else if capture_refusal(h.capture->0) is Some {
        Some(DownloadError::Capture(capture_refusal(h.capture->0)->0))
    } else {
        None
    }
}

pub open spec fn answer(e: Option<DownloadError>) -> Result<(), DownloadError> {
    match e {
        Some(error) => Err(error),
        None => Ok(()),
    }
}

pub fn handle(h: &FileDownloadHandle, s: &ReadScope) -> (r: Result<(), DownloadError>)
    ensures
        r == answer(handle_refusal(*h, *s)),
{
    if read_id::<OperationId>(h.id.as_str()).is_none() {
        return Err(DownloadError::Identity);
    }
    let c: Context = match &h.context {
        None => {
            return Err(DownloadError::MissingContext);
        },
        Some(c) => match Context::from_wire(c.clone()) {
            Ok(c) => c,
            Err(e) => {
                return Err(DownloadError::Context(e));
            },
        },
    };
    proof {
        if h.context->0.allocation_id@ == id_text("alc"@, s.allocation_id.value) {
            crate::guest_wire::lemma_id_text_injective("alc"@, c.allocation_id.value, s.allocation_id.value);
        }
    }
    if c.allocation_id != s.allocation_id || c.generation != s.generation || c.boot_id.as_str().is_empty()
        || byte_length(c.boot_id.as_str()) > 64 || h.expires_unix_ms <= 0 {
        return Err(DownloadError::Ownership);
    }
    match &h.capture {
        None => Err(DownloadError::MissingCapture),
        Some(capture) => match file_wire::validate_capture(capture) {
            Ok(_) => Ok(()),
            Err(e) => Err(DownloadError::Capture(e)),
        },
    }
}

/// What a capture request is accepted as.
pub open spec fn capture_request_scope(r: FileCaptureRequest, parsed: Option<ReadScope>, now: i64) -> Result<
    ReadScope,
    DownloadError,
> {
    match scope_of(r.scope_json@.len() as int, parsed, r.expires_unix_ms, now) {
        None => Err(DownloadError::Scope),
        Some(s) => match files::path_error(r.path@) {
            Some(e) => Err(DownloadError::Path(e)),
            None => Ok(s),
        },
    }
}

pub fn capture_request(r: &FileCaptureRequest, parsed: Option<ReadScope>, now: i64) -> (result: Result<
    ReadScope,
    DownloadError,
>)
    ensures
        result == capture_request_scope(*r, parsed, now),
{
    let s: ReadScope = match scope(r.scope_json.as_slice(), parsed, r.expires_unix_ms, now) {
        Ok(s) => s,
        Err(e) => {
            return Err(e);
        },
    };
    match files::validate_path(r.path.as_str()) {
        Ok(_) => Ok(s),
        Err(e) => Err(DownloadError::Path(e)),
    }
}

/// What a read request is accepted as.
pub open spec fn read_request_scope(r: FileDownloadRequest, parsed: Option<ReadScope>, now: i64) -> Result<
    ReadScope,
    DownloadError,
> {
    match scope_of(r.scope_json@.len() as int, parsed, r.expires_unix_ms, now) {
        None => Err(DownloadError::Scope),
        Some(s) => match r.handle {
            None => Err(DownloadError::MissingHandle),
            Some(h) => match handle_refusal(h, s) {
                Some(e) => Err(e),
                None => if r.limit < 1 || r.limit > files::MAX_CHUNK_BYTES || r.offset > h.capture->0.size {
                    Err(DownloadError::Range)
                } else {
                    Ok(s)
                },
            },
        },
    }
}

pub fn read_request(r: &FileDownloadRequest, parsed: Option<ReadScope>, now: i64) -> (result: Result<
    ReadScope,
    DownloadError,
>)
    ensures
        result == read_request_scope(*r, parsed, now),
{
    let s: ReadScope = match scope(r.scope_json.as_slice(), parsed, r.expires_unix_ms, now) {
        Ok(s) => s,
        Err(e) => {
            return Err(e);
        },
    };
    let h: &FileDownloadHandle = match &r.handle {
        None => {
            return Err(DownloadError::MissingHandle);
        },
        Some(h) => h,
    };
    match handle(h, &s) {
        Ok(_) => {},
        Err(e) => {
            return Err(e);
        },
    }
    match &h.capture {
        None => Err(DownloadError::MissingCapture),
        Some(capture) => if r.limit < 1 || r.limit as usize > files::MAX_CHUNK_BYTES || r.offset > capture.size {
            Err(DownloadError::Range)
        } else {
            Ok(s)
        },
    }
}

/// What a release request is accepted as.
pub open spec fn release_request_scope(r: FileReleaseRequest, parsed: Option<ReadScope>, now: i64) -> Result<
    ReadScope,
    DownloadError,
> {
    match scope_of(r.scope_json@.len() as int, parsed, r.expires_unix_ms, now) {
        None => Err(DownloadError::Scope),
        Some(s) => match r.handle {
            None => Err(DownloadError::MissingHandle),
            Some(h) => match handle_refusal(h, s) {
                Some(e) => Err(e),
                None => Ok(s),
            },
        },
    }
}

pub fn release_request(r: &FileReleaseRequest, parsed: Option<ReadScope>, now: i64) -> (result: Result<
    ReadScope,
    DownloadError,
>)
    ensures
        result == release_request_scope(*r, parsed, now),
{
    let s: ReadScope = match scope(r.scope_json.as_slice(), parsed, r.expires_unix_ms, now) {
        Ok(s) => s,
        Err(e) => {
            return Err(e);
        },
    };
    match &r.handle {
        None => Err(DownloadError::MissingHandle),
        Some(h) => match handle(h, &s) {
            Ok(_) => Ok(s),
            Err(e) => Err(e),
        },
    }
}

/// The response answers the request's own scope, has the expected provenance,
/// and was made within ten seconds of now.
pub open spec fn observation_fits(scope: Seq<u8>, o: FileAccessObservation, simulated: bool, now: i64) -> bool {
    &&& o.scope_json@ == scope
    &&& o.simulated == simulated
    &&& o.observed_unix_ms > 0
    &&& -10000 <= o.observed_unix_ms - now <= 10000
}

fn observation(scope: &[u8], o: &FileAccessObservation, simulated: bool, now: i64) -> (r: Result<(), DownloadError>)
    ensures
        r == (if observation_fits(scope@, *o, simulated, now) {
            Ok::<(), DownloadError>(())
        } else {
            Err(DownloadError::Response)
        }),
{
    let apart: i128 = o.observed_unix_ms as i128 - now as i128;
    if same_bytes(o.scope_json.as_slice(), scope) && o.simulated == simulated && o.observed_unix_ms > 0 && -10000
        <= apart && apart <= 10000 {
        Ok(())
    } else {
        Err(DownloadError::Response)
    }
}

/// What a response to a capture request is refused for, if it is.
pub open spec fn captured_refusal(
    r: FileCaptureRequest,
    parsed: Option<ReadScope>,
    o: FileAccessObservation,
    simulated: bool,
    now: i64,
) -> Option<DownloadError> {
    match capture_request_scope(r, parsed, now) {
        Err(e) => Some(e),
        Ok(s) => if !observation_fits(r.scope_json@, o, simulated, now) {
            Some(DownloadError::Response)
        } else {
            match o.result {
                Some(FileAccessResult::Captured(h)) => if handle_refusal(h, s) is Some {
                    handle_refusal(h, s)
                } else if h.capture->0.path@ != r.path@ || h.expires_unix_ms <= now || h.expires_unix_ms
                    > o.observed_unix_ms + 60000 {
                    Some(DownloadError::CaptureChanged)
                } else {
                    None
                },
                _ => Some(DownloadError::Kind),
            }
        },
    }
}

pub fn captured(
    r: &FileCaptureRequest,
    parsed: Option<ReadScope>,
    o: &FileAccessObservation,
    simulated: bool,
    now: i64,
) -> (result: Result<FileDownloadHandle, DownloadError>)
    ensures
        match result {
            Ok(h) => captured_refusal(*r, parsed, *o, simulated, now) is None && same_download(
                h,
                o.result->0->Captured_0,
            ),
            Err(e) => captured_refusal(*r, parsed, *o, simulated, now) == Some(e),
        },
{
    let s: ReadScope = match capture_request(r, parsed, now) {
        Ok(s) => s,
        Err(e) => {
            return Err(e);
        },
    };
    match observation(r.scope_json.as_slice(), o, simulated, now) {
        Ok(_) => {},
        Err(e) => {
            return Err(e);
        },
    }
    let h: &FileDownloadHandle = match &o.result {
        Some(FileAccessResult::Captured(h)) => h,
        _ => {
            return Err(DownloadError::Kind);
        },
    };
    match handle(h, &s) {
        Ok(_) => {},
        Err(e) => {
            return Err(e);
        },
    }
    let path: bool = match &h.capture {
        Some(c) => same_text(c.path.as_str(), r.path.as_str()),
        None => false,
    };
    if !path || h.expires_unix_ms <= now || h.expires_unix_ms as i128 > o.observed_unix_ms as i128 + 60000 {
        return Err(DownloadError::CaptureChanged);
    }
    Ok(h.clone())
}

/// How many bytes a read returns: what is left of the file, at most the limit.
pub open spec fn chunk_length(size: u64, offset: u64, limit: u32) -> int {
    if size - offset < limit {
        size - offset
    } else {
        limit as int
    }
}

/// The chunk is exactly the requested range of the captured file.
pub open spec fn chunk_fits(r: FileDownloadRequest, c: FileChunk) -> bool {
    let capture = r.handle->0.capture->0;
    let expected = chunk_length(capture.size, r.offset, r.limit);
    &&& c.handle is Some && handle_of(capture, c.handle->0)
    &&& c.offset == r.offset
    &&& c.size == capture.size
    &&& c.data@.len() == expected
    &&& c.next_offset == r.offset + expected
    &&& c.at_end == (r.offset + expected == capture.size)
}

/// What a response to a read request is refused for, if it is.
pub open spec fn chunk_refusal(
    r: FileDownloadRequest,
    parsed: Option<ReadScope>,
    o: FileAccessObservation,
    simulated: bool,
    now: i64,
) -> Option<DownloadError> {
    match read_request_scope(r, parsed, now) {
        Err(e) => Some(e),
        Ok(s) => if !observation_fits(r.scope_json@, o, simulated, now) {
            Some(DownloadError::Response)
        } else {
            match o.result {
                Some(FileAccessResult::Chunk(c)) => if chunk_fits(r, c) {
                    None
                } else {
                    Some(DownloadError::ChunkChanged)
                },
                _ => Some(DownloadError::Kind),
            }
        },
    }
}

pub fn chunk(
    r: &FileDownloadRequest,
    parsed: Option<ReadScope>,
    o: &FileAccessObservation,
    simulated: bool,
    now: i64,
) -> (result: Result<FileChunk, DownloadError>)
    ensures
        match result {
            Ok(c) => chunk_refusal(*r, parsed, *o, simulated, now) is None && guest::same_chunk(c, o.result->0->Chunk_0),
            Err(e) => chunk_refusal(*r, parsed, *o, simulated, now) == Some(e),
        },
{
    match read_request(r, parsed, now) {
        Ok(_) => {},
        Err(e) => {
            return Err(e);
        },
    }
    match observation(r.scope_json.as_slice(), o, simulated, now) {
        Ok(_) => {},
        Err(e) => {
            return Err(e);
        },
    }
    let capture: &guest::FileCapture = match &r.handle {
        Some(h) => match &h.capture {
            Some(capture) => capture,
            None => {
                return Err(DownloadError::MissingCapture);
            },
        },
        None => {
            return Err(DownloadError::MissingHandle);
        },
    };
    let c: &FileChunk = match &o.result {
        Some(FileAccessResult::Chunk(c)) => c,
        _ => {
            return Err(DownloadError::Kind);
        },
    };
    let left: u64 = capture.size - r.offset;
    let expected: u64 = if left < r.limit as u64 {
        left
    } else {
        r.limit as u64
    };
    let next: u64 = r.offset + expected;
    let wanted: guest::FileHandle = match file_wire::handle(capture) {
        Ok(h) => h,
        Err(e) => {
            return Err(DownloadError::Capture(e));
        },
    };
    let handles: bool = match &c.handle {
        Some(h) => h.same(&wanted),
        None => false,
    };
    if !handles || c.offset != r.offset || c.size != capture.size || c.data.len() as u64 != expected || c.next_offset
        != next || c.at_end != (next == capture.size) {
        return Err(DownloadError::ChunkChanged);
    }
    Ok(c.clone())
}

/// What a response to a release request is refused for, if it is.
pub open spec fn released_refusal(
    r: FileReleaseRequest,
    parsed: Option<ReadScope>,
    o: FileAccessObservation,
    simulated: bool,
    now: i64,
) -> Option<DownloadError> {
    match release_request_scope(r, parsed, now) {
        Err(e) => Some(e),
        Ok(s) => if !observation_fits(r.scope_json@, o, simulated, now) {
            Some(DownloadError::Response)
        } else {
            match o.result {
                Some(FileAccessResult::Released(h)) => if same_download(h, r.handle->0) {
                    None
                } else {
                    Some(DownloadError::HandleChanged)
                },
                _ => Some(DownloadError::Kind),
            }
        },
    }
}

pub fn released(
    r: &FileReleaseRequest,
    parsed: Option<ReadScope>,
    o: &FileAccessObservation,
    simulated: bool,
    now: i64,
) -> (result: Result<(), DownloadError>)
    ensures
        result == answer(released_refusal(*r, parsed, *o, simulated, now)),
{
    match release_request(r, parsed, now) {
        Ok(_) => {},
        Err(e) => {
            return Err(e);
        },
    }
    match observation(r.scope_json.as_slice(), o, simulated, now) {
        Ok(_) => {},
        Err(e) => {
            return Err(e);
        },
    }
    let h: &FileDownloadHandle = match &o.result {
        Some(FileAccessResult::Released(h)) => h,
        _ => {
            return Err(DownloadError::Kind);
        },
    };
    match &r.handle {
        Some(wanted) => if h.same(wanted) {
            Ok(())
        } else {
            Err(DownloadError::HandleChanged)
        },
        None => Err(DownloadError::MissingHandle),
    }
}

/// Reading from the start, each accepted chunk's next offset is where the next
/// read begins: an accepted chunk never reaches past the file, makes progress
/// unless the file is at its end, and says truly whether it is.
pub proof fn accepted_chunks_advance(
    r: FileDownloadRequest,
    parsed: Option<ReadScope>,
    o: FileAccessObservation,
    simulated: bool,
    now: i64,
)
    requires
        chunk_refusal(r, parsed, o, simulated, now) is None,
    ensures
        ({
            let c = o.result->0->Chunk_0;
            let size = r.handle->0.capture->0.size;
            &&& r.offset <= c.next_offset <= size
            &&& c.next_offset == r.offset + c.data@.len()
            &&& c.at_end == (c.next_offset == size)
            &&& r.offset < size ==> c.next_offset > r.offset
            &&& c.data@.len() <= files::MAX_CHUNK_BYTES
        }),
{
}

// Requests and responses may contain customer paths, digests or bytes: their forms
// for a log line say nothing but what they are.

impl FileDownloadHandle {
    pub fn debug_text(&self) -> (r: String)
        ensures
            r@ == "FileDownloadHandle { .. }"@,
    {
        "FileDownloadHandle { .. }".to_owned()
    }
}

impl FileCaptureRequest {
    pub fn debug_text(&self) -> (r: String)
        ensures
            r@ == "FileCaptureRequest { .. }"@,
    {
        "FileCaptureRequest { .. }".to_owned()
    }
}

impl FileDownloadRequest {
    pub fn debug_text(&self) -> (r: String)
        ensures
            r@ == "FileDownloadRequest { .. }"@,
    {
        "FileDownloadRequest { .. }".to_owned()
    }
}

impl FileReleaseRequest {
    pub fn debug_text(&self) -> (r: String)
        ensures
            r@ == "FileReleaseRequest { .. }"@,
    {
        "FileReleaseRequest { .. }".to_owned()
    }
}

impl FileAccessObservation {
    pub fn debug_text(&self) -> (r: String)
        ensures
            r@ == "FileAccessObservation { .. }"@,
    {
        "FileAccessObservation { .. }".to_owned()
    }
}

impl FileAccessResult {
    pub fn debug_text(&self) -> (r: String)
        ensures
            r@ == (match *self {
                FileAccessResult::Captured(_) => "Captured { .. }"@,
                FileAccessResult::Chunk(_) => "Chunk { .. }"@,
                FileAccessResult::Released(_) => "Released { .. }"@,
            }),
    {
        match self {
            FileAccessResult::Captured(_) => "Captured { .. }".to_owned(),
            FileAccessResult::Chunk(_) => "Chunk { .. }".to_owned(),
            FileAccessResult::Released(_) => "Released { .. }".to_owned(),
        }
    }
}

} // verus!
