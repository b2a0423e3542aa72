//! Versioned guest file-transfer descriptors. Guest reports are not host security evidence.
use crate::allocation_authority::{bytes_json, bytes_text, same_digest};
use crate::digest::{sha256, sha256_of};
use crate::guest_model::{context_valid, Context};
use crate::ids::{Id, OperationId};
use crate::json::{decimal, decimal_text, id_json, json_string, quoted};
use crate::text::{byte_len, byte_length, extend, pieces, same_text, split, texts};
use vstd::prelude::*;
use vstd::string::*;
use vstd::utf8::*;

verus! {

pub const MAX_FILE_BYTES: u64 = 8388608;

pub const MAX_CHUNK_BYTES: usize = 32768;

pub const MAX_TRANSFERS: usize = 128;

pub const MAX_RESERVED_BYTES: u64 = 67108864;

/// The workspace directory that holds the transfers' own state.
pub const STATE_DIRECTORY: &'static str = ".hudson-transfers";

/// Why a file descriptor or receipt was refused.
#[derive(Debug, Clone, Copy, PartialEq, Eq, Structural)]
pub enum FileError {
    /// Invalid file path length.
    PathLength,
    /// Invalid workspace-relative file path.
    Path,
    /// File exceeds transfer limit.
    Size,
    /// Invalid file mode.
    Mode,
    /// Invalid file receipt context.
    ReceiptContext,
    /// Invalid file receipt digest.
    ReceiptDigest,
}

/// A character that no path may hold: a control character or a backslash.
pub open spec fn path_breaker(c: char) -> bool {
    c < ' ' || c == '\u{7f}' || c == '\\'
}

/// A path segment that names an entry, and only one in its own directory.
pub open spec fn plain_segment(segment: Seq<char>) -> bool {
    segment.len() > 0 && segment != "."@ && segment != ".."@ && byte_len(segment) <= 255
}

/// Why a path is refused, if it is: it must be a canonical path relative to the
/// workspace that does not start in the transfers' own directory.
pub open spec fn path_error(path: Seq<char>) -> Option<FileError> {
    if path.len() == 0 || byte_len(path) > 4096 {
        Some(FileError::PathLength)
    } else if (exists|i: int| 0 <= i < path.len() && path_breaker(#[trigger] path[i])) || !(forall|k: int|
        0 <= k < pieces(path, '/').len() ==> plain_segment(#[trigger] pieces(path, '/')[k])) || pieces(path, '/')[0]
        == STATE_DIRECTORY@ {
        Some(FileError::Path)
    } else {
        None
    }
}

fn has_breaker(path: &str) -> (r: bool)
    ensures
        r == (exists|i: int| 0 <= i < path@.len() && path_breaker(#[trigger] path@[i])),
{
    for c in it: path.chars()
        invariant
            it.seq() == path@,
            forall|j: int| 0 <= j < it.index() ==> !path_breaker(#[trigger] path@[j]),
    {
        if c < ' ' || c == '\u{7f}' || c == '\\' {
            assert(path_breaker(path@[it.index()]));
            return true;
        }
    }
    false
}

/// What checking a path answers.
pub open spec fn path_check(path: Seq<char>) -> Result<(), FileError> {
    match path_error(path) {
        Some(e) => Err(e),
        None => Ok(()),
    }
}

/// Canonical UTF-8 path relative to the configured workspace; no shell expansion.
pub fn validate_path(path: &str) -> (r: Result<(), FileError>)
    ensures
        r == path_check(path@),
{
    if path.is_empty() || byte_length(path) > 4096 {
        return Err(FileError::PathLength);
    }
    if has_breaker(path) {
        return Err(FileError::Path);
    }
    let segments: Vec<String> = split(path, '/');
    let ghost all = pieces(path@, '/');
    assert(texts(segments@) == all);
    assert(segments@.len() == all.len());
    let mut k: usize = 0;
    while k < segments.len()
        invariant
            texts(segments@) == all,
            all == pieces(path@, '/'),
            segments@.len() == all.len(),
            k <= all.len(),
            path@.len() > 0,
            byte_len(path@) <= 4096,
            forall|j: int| 0 <= j < k ==> plain_segment(#[trigger] all[j]),
        decreases all.len() - k,
    {
        let segment: &str = segments[k].as_str();
        assert(texts(segments@)[k as int] == segment@);
        if segment.is_empty() || same_text(segment, ".") || same_text(segment, "..") || byte_length(segment) > 255 {
            assert(!plain_segment(all[k as int]));
            return Err(FileError::Path);
        }
        k = k + 1;
    }
    proof {
        crate::text::lemma_pieces_nonempty(path@, '/');
        assert(texts(segments@)[0] == segments@[0]@);
    }
    if same_text(segments[0].as_str(), STATE_DIRECTORY) {
        return Err(FileError::Path);
    }
    Ok(())
}

#[derive(Debug, PartialEq, Eq)]
pub struct Upload {
    pub operation_id: OperationId,
    pub path: String,
    pub size: u64,
    pub sha256: [u8; 32],
    /// Only ordinary 0644 or executable 0755 files are supported.
    pub mode: u32,
}

pub open spec fn same_upload(a: Upload, b: Upload) -> bool {
    a.operation_id == b.operation_id && a.path@ == b.path@ && a.size == b.size && a.sha256@ == b.sha256@ && a.mode
        == b.mode
}

/// What checking an upload's path, size and mode answers.
pub open spec fn upload_fields_check(path: Seq<char>, size: u64, mode: u32) -> Result<(), FileError> {
    if path_error(path) is Some {
        Err(path_error(path)->0)
    } else if size > MAX_FILE_BYTES {
        Err(FileError::Size)
    } else if mode != 0o644 && mode != 0o755 {
        Err(FileError::Mode)
    } else {
        Ok(())
    }
}

/// What checking an upload answers.
pub open spec fn upload_check(u: Upload) -> Result<(), FileError> {
    upload_fields_check(u.path@, u.size, u.mode)
}

/// The typed encoding of an upload: its fields in declaration order.
#[verifier::opaque]
pub open spec fn upload_json(u: Upload) -> Seq<char> {
    "{\"operation_id\":"@ + id_json("op"@, u.operation_id.value) + ",\"path\":"@ + json_string(u.path@) + ",\"size\":"@
        + decimal(u.size as nat) + ",\"sha256\":"@ + bytes_json(u.sha256@) + ",\"mode\":"@ + decimal(u.mode as nat)
        + "}"@
}

/// What is hashed for an upload.
pub open spec fn upload_preimage(u: Upload) -> Seq<u8> {
    encode_utf8("hudson-file-upload-v1\0"@) + encode_utf8(upload_json(u))
}

/// What `Upload::digest` answers.
pub open spec fn upload_digest(u: Upload) -> Result<[u8; 32], FileError> {
    match upload_check(u) {
        Ok(_) => Ok(sha256_of(upload_preimage(u))),
        Err(e) => Err(e),
    }
}

impl Clone for Upload {
    fn clone(&self) -> (r: Self)
        ensures
            r == *self,
    {
        Upload {
            operation_id: self.operation_id,
            path: self.path.clone(),
            size: self.size,
            sha256: self.sha256,
            mode: self.mode,
        }
    }
}

impl Upload {
    pub fn same(&self, other: &Upload) -> (r: bool)
        ensures
            r == same_upload(*self, *other),
    {
        self.operation_id == other.operation_id && same_text(self.path.as_str(), other.path.as_str()) && self.size
            == other.size && same_digest(&self.sha256, &other.sha256) && self.mode == other.mode
    }

    pub fn validate(&self) -> (r: Result<(), FileError>)
        ensures
            r == upload_check(*self),
    {
        match validate_path(self.path.as_str()) {
            Ok(_) => {},
            Err(e) => {
                return Err(e);
            },
        }
        if self.size > MAX_FILE_BYTES {
            return Err(FileError::Size);
        }
        if self.mode != 0o644 && self.mode != 0o755 {
            return Err(FileError::Mode);
        }
        Ok(())
    }

    pub(crate) fn render(&self) -> (r: String)
        ensures
            r@ == upload_json(*self),
    {
        proof {
            reveal(upload_json);
        }
        let mut out: String = "{\"operation_id\":".to_owned();
        out.append(quoted(self.operation_id.to_string().as_str()).as_str());
        out.append(",\"path\":");
        out.append(quoted(self.path.as_str()).as_str());
        out.append(",\"size\":");
        out.append(decimal_text(self.size).as_str());
        out.append(",\"sha256\":");
        out.append(bytes_text(self.sha256.as_slice()).as_str());
        out.append(",\"mode\":");
        out.append(decimal_text(self.mode as u64).as_str());
        out.append("}");
        out
    }

    pub fn digest(&self) -> (r: Result<[u8; 32], FileError>)
        ensures
            r == upload_digest(*self),
    {
        match self.validate() {
            Ok(_) => {},
            Err(e) => {
                return Err(e);
            },
        }
        let mut input: Vec<u8> = "hudson-file-upload-v1\0".as_bytes_vec();
        extend(&mut input, self.render().as_str().as_bytes());
        Ok(sha256(input.as_slice()))
    }
}

#[derive(Debug, Clone, Copy, PartialEq, Eq, Structural)]
pub enum State {
    Staging,
    CommitIntent,
    Committed,
    Unknown,
    Aborted,
}

#[derive(Debug, PartialEq, Eq)]
pub struct Receipt {
    pub version: u32,
    pub context: Context,
    pub upload: Upload,
    pub digest: [u8; 32],
    pub state: State,
}

/// What checking a receipt answers.
pub open spec fn receipt_check(r: Receipt) -> Result<(), FileError> {
    if r.version != 1 || !context_valid(r.context) {
        Err(FileError::ReceiptContext)
    } else {
        match upload_digest(r.upload) {
            Err(e) => Err(e),
            Ok(digest) => if r.digest@ == digest@ {
                Ok(())
            } else {
                Err(FileError::ReceiptDigest)
            },
        }
    }
}

impl Clone for Receipt {
    fn clone(&self) -> (r: Self)
        ensures
            r == *self,
    {
        Receipt {
            version: self.version,
            context: self.context.clone(),
            upload: self.upload.clone(),
            digest: self.digest,
            state: self.state,
        }
    }
}

impl Receipt {
    pub fn validate(&self) -> (r: Result<(), FileError>)
        ensures
            r == receipt_check(*self),
    {
        if self.version != 1 || !self.context.is_valid() {
            return Err(FileError::ReceiptContext);
        }
        match self.upload.digest() {
            Err(e) => Err(e),
            Ok(digest) => if same_digest(&self.digest, &digest) {
                Ok(())
            } else {
                Err(FileError::ReceiptDigest)
            },
        }
    }
}

/// The form for a log line of a message that carries file bytes: where and how
/// much, never the bytes.
pub open spec fn transfer_line(name: Seq<char>, offset: u64, length: nat) -> Seq<char> {
    name + " { offset: "@ + decimal(offset as nat) + ", length: "@ + decimal(length) + ", .. }"@
}

pub fn transfer_text(name: &str, offset: u64, length: u64) -> (r: String)
    ensures
        r@ == transfer_line(name@, offset, length as nat),
{
    let mut out: String = name.to_owned();
    out.append(" { offset: ");
    out.append(decimal_text(offset).as_str());
    out.append(", length: ");
    out.append(decimal_text(length).as_str());
    out.append(", .. }");
    out
}

} // verus!
