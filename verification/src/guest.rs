//! Versioned guest wire messages, as plain values. Treat all guest reports as
//! untrusted.
use crate::canonical::keys_once;
use crate::guest_model::{copy_bytes, copy_text, same_bytes};
use crate::text::same_text;
use vstd::prelude::*;
use vstd::string::*;

verus! {

pub struct Context {
    pub allocation_id: String,
    pub generation: i64,
    pub boot_id: String,
}

impl Clone for Context {
    fn clone(&self) -> (r: Self)
        ensures
            r == *self,
    {
        Context {
            allocation_id: self.allocation_id.clone(),
            generation: self.generation,
            boot_id: self.boot_id.clone(),
        }
    }
}

pub open spec fn same_context(a: Context, b: Context) -> bool {
    a.allocation_id@ == b.allocation_id@ && a.generation == b.generation && a.boot_id@ == b.boot_id@
}

impl Context {
    pub fn same(&self, other: &Context) -> (r: bool)
        ensures
            r == same_context(*self, *other),
    {
        same_text(self.allocation_id.as_str(), other.allocation_id.as_str()) && self.generation == other.generation
            && same_text(self.boot_id.as_str(), other.boot_id.as_str())
    }
}

/// A command on the wire. The environment comes in no particular order, and no
/// variable of it is set twice.
pub struct Execute {
    pub operation_id: String,
    pub argv: Vec<String>,
    pub env: Vec<(String, String)>,
    pub cwd: String,
    pub deadline_unix_ms: i64,
    pub output_limit: u64,
}

impl Execute {
    pub open spec fn well_formed(&self) -> bool {
        keys_once(self.env@)
    }
}

#[derive(Debug, Clone, Copy, PartialEq, Eq, Structural)]
pub struct OutputStats {
    pub seen: u64,
    pub stored: u64,
    pub truncated: bool,
}

#[derive(Debug, Clone, Copy, PartialEq, Eq, Structural)]
pub enum State {
    Unspecified,
    LaunchIntent,
    Exited,
    TimedOut,
    Cancelled,
    Unknown,
}

/// A command receipt on the wire. `state` is `None` where the number on the wire
/// names no state.
pub struct Receipt {
    pub version: u32,
    pub context: Option<Context>,
    pub operation_id: String,
    pub digest: Vec<u8>,
    pub state: Option<State>,
    pub deadline_unix_ms: i64,
    pub output_limit: u64,
    pub cancel_requested: bool,
    pub cleanup_confirmed: bool,
    pub exit_code: Option<i32>,
    pub signal: Option<i32>,
    pub stdout: Option<OutputStats>,
    pub stderr: Option<OutputStats>,
    pub reason: Option<String>,
}

/// The same receipt, field by field.
pub open spec fn same_receipt(a: Receipt, b: Receipt) -> bool {
    a == (Receipt { digest: a.digest, ..b }) && a.digest@ == b.digest@
}

impl Clone for Receipt {
    fn clone(&self) -> (r: Self)
        ensures
            same_receipt(r, *self),
    {
        Receipt {
            version: self.version,
            context: match &self.context {
                Some(c) => Some(c.clone()),
                None => None,
            },
            operation_id: self.operation_id.clone(),
            digest: copy_bytes(self.digest.as_slice()),
            state: self.state,
            deadline_unix_ms: self.deadline_unix_ms,
            output_limit: self.output_limit,
            cancel_requested: self.cancel_requested,
            cleanup_confirmed: self.cleanup_confirmed,
            exit_code: self.exit_code,
            signal: self.signal,
            stdout: self.stdout,
            stderr: self.stderr,
            reason: copy_text(&self.reason),
        }
    }
}

/// A chunk of a command's output.
pub struct OutputChunk {
    pub data: Vec<u8>,
}

pub struct FileUpload {
    pub operation_id: String,
    pub path: String,
    pub size: u64,
    pub sha256: Vec<u8>,
    pub mode: u32,
}

/// A file receipt on the wire. `state` is the number of a file state.
pub struct FileReceipt {
    pub version: u32,
    pub context: Option<Context>,
    pub upload: Option<FileUpload>,
    pub digest: Vec<u8>,
    pub state: i32,
}

pub struct FileOperation {
    pub operation_id: String,
    pub digest: Vec<u8>,
}

pub struct WriteFile {
    pub operation: Option<FileOperation>,
    pub offset: u64,
    pub data: Vec<u8>,
}

pub struct FileHandle {
    pub capture_id: String,
    pub sha256: Vec<u8>,
}

pub open spec fn same_handle(a: FileHandle, b: FileHandle) -> bool {
    a.capture_id@ == b.capture_id@ && a.sha256@ == b.sha256@
}

impl FileHandle {
    pub fn same(&self, other: &FileHandle) -> (r: bool)
        ensures
            r == same_handle(*self, *other),
    {
        same_text(self.capture_id.as_str(), other.capture_id.as_str()) && same_bytes(
            self.sha256.as_slice(),
            other.sha256.as_slice(),
        )
    }
}

impl Clone for FileHandle {
    fn clone(&self) -> (r: Self)
        ensures
            same_handle(r, *self),
    {
        FileHandle { capture_id: self.capture_id.clone(), sha256: copy_bytes(self.sha256.as_slice()) }
    }
}

pub struct FileCapture {
    pub capture_id: String,
    pub path: String,
    pub size: u64,
    pub sha256: Vec<u8>,
    pub expires_unix_ms: i64,
}

pub open spec fn same_capture(a: FileCapture, b: FileCapture) -> bool {
    a.capture_id@ == b.capture_id@ && a.path@ == b.path@ && a.size == b.size && a.sha256@ == b.sha256@
        && a.expires_unix_ms == b.expires_unix_ms
}

impl FileCapture {
    pub fn same(&self, other: &FileCapture) -> (r: bool)
        ensures
            r == same_capture(*self, *other),
    {
        same_text(self.capture_id.as_str(), other.capture_id.as_str()) && same_text(
            self.path.as_str(),
            other.path.as_str(),
        ) && self.size == other.size && same_bytes(self.sha256.as_slice(), other.sha256.as_slice())
            && self.expires_unix_ms == other.expires_unix_ms
    }
}

impl Clone for FileCapture {
    fn clone(&self) -> (r: Self)
        ensures
            same_capture(r, *self),
    {
        FileCapture {
            capture_id: self.capture_id.clone(),
            path: self.path.clone(),
            size: self.size,
            sha256: copy_bytes(self.sha256.as_slice()),
            expires_unix_ms: self.expires_unix_ms,
        }
    }
}

pub struct ReadFile {
    pub handle: Option<FileHandle>,
    pub offset: u64,
    pub limit: u32,
}

pub struct FileChunk {
    pub handle: Option<FileHandle>,
    pub offset: u64,
    pub size: u64,
    pub data: Vec<u8>,
    pub next_offset: u64,
    pub at_end: bool,
}

/// The same chunk, field by field.
pub open spec fn same_chunk(a: FileChunk, b: FileChunk) -> bool {
    &&& match (a.handle, b.handle) {
        (Some(x), Some(y)) => same_handle(x, y),
        (None, None) => true,
        _ => false,
    }
    &&& a.offset == b.offset
    &&& a.size == b.size
    &&& a.data@ == b.data@
    &&& a.next_offset == b.next_offset
    &&& a.at_end == b.at_end
}

impl Clone for FileChunk {
    fn clone(&self) -> (r: Self)
        ensures
            same_chunk(r, *self),
    {
        FileChunk {
            handle: match &self.handle {
                Some(h) => Some(h.clone()),
                None => None,
            },
            offset: self.offset,
            size: self.size,
            data: copy_bytes(self.data.as_slice()),
            next_offset: self.next_offset,
            at_end: self.at_end,
        }
    }
}

} // verus!
