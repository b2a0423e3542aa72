//! Strict conversion and bounds for untrusted guest file messages.
use crate::files as m;
use crate::files::FileError;
use crate::guest as w;
use crate::guest_model::{copy_bytes, digest_of, same_context, Context};
use crate::guest_wire::{
    context_refusal, context_written, lemma_id_text_injective, written_context_reads_back, WireError,
};
use crate::ids::{id_text, is_id_text, read_id, version_of, Id, OperationId};

use vstd::prelude::*;
use vstd::string::*;

verus! {

pub const CAPTURE_TTL_SECS: u64 = 60;

/// Why a guest file message was refused.
#[derive(Debug, Clone, Copy, PartialEq, Eq, Structural)]
pub enum FileWireError {
    /// Invalid file digest length.
    Digest,
    /// Invalid operation or capture identity.
    Identity,
    /// Missing file context.
    MissingContext,
    /// The context was refused.
    Context(WireError),
    /// Missing upload descriptor.
    MissingUpload,
    /// The file descriptor was refused.
    File(FileError),
    /// Unspecified or unknown file state.
    State,
    /// Missing upload operation.
    MissingOperation,
    /// Invalid upload chunk.
    Chunk,
    /// Invalid file capture.
    Capture,
    /// Missing capture handle.
    MissingHandle,
    /// Invalid file read range.
    Range,
}

pub fn digest(bytes: &Vec<u8>) -> (r: Result<[u8; 32], FileWireError>)
    ensures
        match r {
            Ok(d) => d@ == bytes@,
            Err(e) => bytes@.len() != 32 && e == FileWireError::Digest,
        },
{
    match digest_of(bytes.as_slice()) {
        Some(d) => Ok(d),
        None => Err(FileWireError::Digest),
    }
}

/// The wire form of an upload.
pub open spec fn upload_written(u: m::Upload, v: w::FileUpload) -> bool {
    &&& v.operation_id@ == id_text("op"@, u.operation_id.value)
    &&& v.path@ == u.path@
    &&& v.size == u.size
    &&& v.sha256@ == u.sha256@
    &&& v.mode == u.mode
}

/// What a wire upload is refused for, if it is.
pub open spec fn upload_refusal(v: w::FileUpload) -> Option<FileWireError> {
    if !is_id_text("op"@, v.operation_id@) {
        Some(FileWireError::Identity)
    } else if v.sha256@.len() != 32 {
        Some(FileWireError::Digest)
    } else {
        match m::upload_fields_check(v.path@, v.size, v.mode) {
            Err(e) => Some(FileWireError::File(e)),
            Ok(_) => None,
        }
    }
}

impl w::FileUpload {
    pub fn from_model(v: &m::Upload) -> (r: Self)
        ensures
            upload_written(*v, r),
    {
        w::FileUpload {
            operation_id: v.operation_id.to_string(),
            path: v.path.clone(),
            size: v.size,
            sha256: copy_bytes(v.sha256.as_slice()),
            mode: v.mode,
        }
    }
}

impl m::Upload {
    pub fn from_wire(v: w::FileUpload) -> (r: Result<Self, FileWireError>)
        ensures
            match r {
                Ok(u) => upload_refusal(v) is None && upload_written(u, v) && version_of(u.operation_id.value) == 7,
                Err(e) => upload_refusal(v) == Some(e),
            },
    {
        let operation_id: OperationId = match read_id::<OperationId>(v.operation_id.as_str()) {
            Some(id) => id,
            None => {
                return Err(FileWireError::Identity);
            },
        };
        let sha256: [u8; 32] = match digest(&v.sha256) {
            Ok(d) => d,
            Err(e) => {
                return Err(e);
            },
        };
        let result: m::Upload = m::Upload { operation_id, path: v.path, size: v.size, sha256, mode: v.mode };
        match result.validate() {
            Ok(_) => Ok(result),
            Err(e) => Err(FileWireError::File(e)),
        }
    }
}

/// The number of a file state on the wire.
pub open spec fn state_number(s: m::State) -> int {
    match s {
        m::State::Staging => 1,
        m::State::CommitIntent => 2,
        m::State::Committed => 3,
        m::State::Unknown => 4,
        m::State::Aborted => 5,
    }
}

impl m::State {
    /// The number of the state on the wire.
    pub fn number(self) -> (r: u8)
        ensures
            r == state_number(self),
    {
        match self {
            m::State::Staging => 1,
            m::State::CommitIntent => 2,
            m::State::Committed => 3,
            m::State::Unknown => 4,
            m::State::Aborted => 5,
        }
    }

    /// The state with the given number, if there is one.
    pub fn from_number(number: i32) -> (r: Option<m::State>)
        ensures
            match r {
                Some(s) => state_number(s) == number,
                None => number < 1 || number > 5,
            },
    {
        match number {
            1 => Some(m::State::Staging),
            2 => Some(m::State::CommitIntent),
            3 => Some(m::State::Committed),
            4 => Some(m::State::Unknown),
            5 => Some(m::State::Aborted),
            _ => None,
        }
    }
}

/// The wire form of a file receipt.
pub open spec fn file_receipt_written(r: m::Receipt, v: w::FileReceipt) -> bool {
    &&& v.version == r.version
    &&& v.context is Some && context_written(r.context, v.context->0)
    &&& v.upload is Some && upload_written(r.upload, v.upload->0)
    &&& v.digest@ == r.digest@
    &&& v.state == state_number(r.state)
}

/// What a wire file receipt is refused for before its own check, if it is.
pub open spec fn file_receipt_refusal(v: w::FileReceipt) -> Option<FileWireError> {
    if v.context is None {
        Some(FileWireError::MissingContext)
    } else if context_refusal(v.context->0) is Some {
        Some(FileWireError::Context(context_refusal(v.context->0)->0))
    } else if v.upload is None {
        Some(FileWireError::MissingUpload)
    } else if upload_refusal(v.upload->0) is Some {
        upload_refusal(v.upload->0)
    } else if v.digest@.len() != 32 {
        Some(FileWireError::Digest)
    } else if v.state < 1 || v.state > 5 {
        Some(FileWireError::State)
    } else {
        None
    }
}

impl w::FileReceipt {
    pub fn from_model(v: &m::Receipt) -> (r: Self)
        ensures
            file_receipt_written(*v, r),
    {
        w::FileReceipt {
            version: v.version,
            context: Some(w::Context::from_model(&v.context)),
            upload: Some(w::FileUpload::from_model(&v.upload)),
            digest: copy_bytes(v.digest.as_slice()),
            state: v.state.number() as i32,
        }
    }
}

impl m::Receipt {
    pub fn from_wire(v: w::FileReceipt) -> (r: Result<Self, FileWireError>)
        ensures
            match r {
                Ok(receipt) => file_receipt_refusal(v) is None && file_receipt_written(receipt, v) && m::receipt_check(
                    receipt,
                ) is Ok,
                Err(e) => match file_receipt_refusal(v) {
                    Some(refusal) => e == refusal,
                    None => exists|receipt: m::Receipt| #[trigger]
                        file_receipt_written(receipt, v) && m::receipt_check(receipt) is Err && e == FileWireError::File(
                            m::receipt_check(receipt)->Err_0,
                        ),
                },
            },
    {
        let context: Context = match v.context {
            None => {
                return Err(FileWireError::MissingContext);
            },
            Some(c) => match Context::from_wire(c) {
                Ok(context) => context,
                Err(e) => {
                    return Err(FileWireError::Context(e));
                },
            },
        };
        let upload: m::Upload = match v.upload {
            None => {
                return Err(FileWireError::MissingUpload);
            },
            Some(u) => match m::Upload::from_wire(u) {
                Ok(upload) => upload,
                Err(e) => {
                    return Err(e);
                },
            },
        };
        let digest: [u8; 32] = match digest(&v.digest) {
            Ok(d) => d,
            Err(e) => {
                return Err(e);
            },
        };
        let state: m::State = match m::State::from_number(v.state) {
            Some(s) => s,
            None => {
                return Err(FileWireError::State);
            },
        };
        let result: m::Receipt = m::Receipt { version: v.version, context, upload, digest, state };
        assert(file_receipt_written(result, v));
        match result.validate() {
            Ok(_) => Ok(result),
            Err(e) => Err(FileWireError::File(e)),
        }
    }
}

/// The same file receipt, field by field.
pub open spec fn same_file_receipt(a: m::Receipt, b: m::Receipt) -> bool {
    &&& a.version == b.version
    &&& same_context(a.context, b.context)
    &&& m::same_upload(a.upload, b.upload)
    &&& a.digest@ == b.digest@
    &&& a.state == b.state
}

/// A valid file receipt of version 7 identities survives the wire.
pub proof fn written_file_receipt_reads_back(r: m::Receipt, v: w::FileReceipt, read: m::Receipt)
    requires
        m::receipt_check(r) is Ok,
        version_of(r.context.allocation_id.value) == 7,
        version_of(r.upload.operation_id.value) == 7,
        file_receipt_written(r, v),
    ensures
        file_receipt_refusal(v) is None,
        file_receipt_written(read, v) ==> same_file_receipt(read, r) && m::receipt_check(read) is Ok,
{
    written_context_reads_back(r.context, v.context->0, read.context);
    assert(v.upload->0.operation_id@ == id_text("op"@, r.upload.operation_id.value));
    if file_receipt_written(read, v) {
        lemma_id_text_injective("op"@, read.upload.operation_id.value, r.upload.operation_id.value);
        assert(m::upload_json(read.upload) == m::upload_json(r.upload)) by {
            reveal(m::upload_json);
        }
    }
}

/// The wire form of the operation that an upload belongs to.
pub fn operation(upload: &m::Upload) -> (r: Result<w::FileOperation, FileError>)
    ensures
        match r {
            Ok(v) => m::upload_digest(*upload) is Ok && v.digest@ == (m::upload_digest(*upload)->Ok_0)@
                && v.operation_id@ == id_text("op"@, upload.operation_id.value),
            Err(e) => m::upload_digest(*upload) == Err::<[u8; 32], FileError>(e),
        },
{
    match upload.digest() {
        Ok(d) => Ok(w::FileOperation { operation_id: upload.operation_id.to_string(), digest: copy_bytes(d.as_slice()) }),
        Err(e) => Err(e),
    }
}

/// What a file operation is refused for, if it is.
pub open spec fn operation_refusal(v: w::FileOperation) -> Option<FileWireError> {
    if v.digest@.len() != 32 {
        Some(FileWireError::Digest)
    } else if !is_id_text("op"@, v.operation_id@) {
        Some(FileWireError::Identity)
    } else {
        None
    }
}

/// The identity was read from the text.
pub open spec fn id_read(text: Seq<char>, id: OperationId) -> bool {
    text == id_text("op"@, id.value) && version_of(id.value) == 7
}

pub fn validate_operation(v: &w::FileOperation) -> (r: Result<OperationId, FileWireError>)
    ensures
        match r {
            Ok(id) => operation_refusal(*v) is None && id_read(v.operation_id@, id),
            Err(e) => operation_refusal(*v) == Some(e),
        },
{
    if v.digest.len() != 32 {
        return Err(FileWireError::Digest);
    }
    match read_id::<OperationId>(v.operation_id.as_str()) {
        Some(id) => Ok(id),
        None => Err(FileWireError::Identity),
    }
}

/// What a write is refused for, if it is: a chunk is not empty, fits the chunk
/// limit and ends within the file limit.
pub open spec fn write_refusal(v: w::WriteFile) -> Option<FileWireError> {
    if v.operation is None {
        Some(FileWireError::MissingOperation)
    } else if operation_refusal(v.operation->0) is Some {
        operation_refusal(v.operation->0)
    } else if v.data@.len() == 0 || v.data@.len() > m::MAX_CHUNK_BYTES || v.offset + v.data@.len() > m::MAX_FILE_BYTES {
        Some(FileWireError::Chunk)
    } else {
        None
    }
}

pub fn validate_write(v: &w::WriteFile) -> (r: Result<OperationId, FileWireError>)
    ensures
        match r {
            Ok(id) => write_refusal(*v) is None && id_read(v.operation->0.operation_id@, id),
            Err(e) => write_refusal(*v) == Some(e),
        },
{
    let id: OperationId = match &v.operation {
        None => {
            return Err(FileWireError::MissingOperation);
        },
        Some(operation) => match validate_operation(operation) {
            Ok(id) => id,
            Err(e) => {
                return Err(e);
            },
        },
    };
    if v.data.len() == 0 || v.data.len() > m::MAX_CHUNK_BYTES {
        return Err(FileWireError::Chunk);
    }
    match v.offset.checked_add(v.data.len() as u64) {
        Some(end) => if end <= m::MAX_FILE_BYTES {
            Ok(id)
        } else {
            Err(FileWireError::Chunk)
        },
        None => Err(FileWireError::Chunk),
    }
}

/// What a capture handle is refused for, if it is.
pub open spec fn handle_refusal(v: w::FileHandle) -> Option<FileWireError> {
    if v.sha256@.len() != 32 {
        Some(FileWireError::Digest)
    } else if !is_id_text("op"@, v.capture_id@) {
        Some(FileWireError::Identity)
    } else {
        None
    }
}

pub fn validate_handle(v: &w::FileHandle) -> (r: Result<OperationId, FileWireError>)
    ensures
        match r {
            Ok(id) => handle_refusal(*v) is None && id_read(v.capture_id@, id),
            Err(e) => handle_refusal(*v) == Some(e),
        },
{
    if v.sha256.len() != 32 {
        return Err(FileWireError::Digest);
    }
    match read_id::<OperationId>(v.capture_id.as_str()) {
        Some(id) => Ok(id),
        None => Err(FileWireError::Identity),
    }
}

/// What a capture is refused for, if it is.
pub open spec fn capture_refusal(v: w::FileCapture) -> Option<FileWireError> {
    if !is_id_text("op"@, v.capture_id@) {
        Some(FileWireError::Identity)
    } else if m::path_error(v.path@) is Some {
        Some(FileWireError::File(m::path_error(v.path@)->0))
    } else if v.sha256@.len() != 32 || v.size > m::MAX_FILE_BYTES || v.expires_unix_ms <= 0 {
        Some(FileWireError::Capture)
    } else {
        None
    }
}

pub open spec fn refused(e: Option<FileWireError>) -> Result<(), FileWireError> {
    match e {
        Some(error) => Err(error),
        None => Ok(()),
    }
}

pub fn validate_capture(v: &w::FileCapture) -> (r: Result<(), FileWireError>)
    ensures
        r == refused(capture_refusal(*v)),
{
    if read_id::<OperationId>(v.capture_id.as_str()).is_none() {
        return Err(FileWireError::Identity);
    }
    match m::validate_path(v.path.as_str()) {
        Ok(_) => {},
        Err(e) => {
            return Err(FileWireError::File(e));
        },
    }
    if v.sha256.len() != 32 || v.size > m::MAX_FILE_BYTES || v.expires_unix_ms <= 0 {
        return Err(FileWireError::Capture);
    }
    Ok(())
}

/// The handle of a capture: its identity and digest.
pub open spec fn handle_of(v: w::FileCapture, h: w::FileHandle) -> bool {
    h.capture_id@ == v.capture_id@ && h.sha256@ == v.sha256@
}

pub fn handle(v: &w::FileCapture) -> (r: Result<w::FileHandle, FileWireError>)
    ensures
        match r {
            Ok(h) => capture_refusal(*v) is None && handle_of(*v, h) && handle_refusal(h) is None,
            Err(e) => capture_refusal(*v) == Some(e),
        },
{
    match validate_capture(v) {
        Ok(_) => Ok(w::FileHandle { capture_id: v.capture_id.clone(), sha256: copy_bytes(v.sha256.as_slice()) }),
        Err(e) => Err(e),
    }
}

/// What a read is refused for, if it is.
pub open spec fn read_refusal(v: w::ReadFile) -> Option<FileWireError> {
    if v.handle is None {
        Some(FileWireError::MissingHandle)
    } else if handle_refusal(v.handle->0) is Some {
        handle_refusal(v.handle->0)
    } else if v.limit < 1 || v.limit > m::MAX_CHUNK_BYTES || v.offset > m::MAX_FILE_BYTES {
        Some(FileWireError::Range)
    } else {
        None
    }
}

pub fn validate_read(v: &w::ReadFile) -> (r: Result<OperationId, FileWireError>)
    ensures
        match r {
            Ok(id) => read_refusal(*v) is None && id_read(v.handle->0.capture_id@, id),
            Err(e) => read_refusal(*v) == Some(e),
        },
{
    let id: OperationId = match &v.handle {
        None => {
            return Err(FileWireError::MissingHandle);
        },
        Some(handle) => match validate_handle(handle) {
            Ok(id) => id,
            Err(e) => {
                return Err(e);
            },
        },
    };
    if v.limit < 1 || v.limit as usize > m::MAX_CHUNK_BYTES || v.offset > m::MAX_FILE_BYTES {
        return Err(FileWireError::Range);
    }
    Ok(id)
}

impl w::WriteFile {
    pub fn debug_text(&self) -> (r: String)
        ensures
            r@ == m::transfer_line("WriteFile"@, self.offset, self.data@.len()),
    {
        m::transfer_text("WriteFile", self.offset, self.data.len() as u64)
    }
}

impl w::FileChunk {
    pub fn debug_text(&self) -> (r: String)
        ensures
            r@ == m::transfer_line("FileChunk"@, self.offset, self.data@.len()),
    {
        m::transfer_text("FileChunk", self.offset, self.data.len() as u64)
    }
}

} // verus!
