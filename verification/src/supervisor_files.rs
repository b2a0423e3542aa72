//! Compact host-owned file evidence. File paths and bytes are never retained here.
use crate::allocation_authority::{bytes_json, bytes_text, same_digest};
use crate::allocation_retirement::{bool_json, bool_text};
use crate::file_wire::state_number;
use crate::files as m;
use crate::files::FileError;
use crate::guest as w;
use crate::guest_model::{context_valid, copy_bytes, same_context, Context};
use crate::guest_wire::context_written;
use crate::ids::{Id, OperationId};
use crate::json::{
    compact, decimal, decimal_text, id_json, json_string, lemma_compact_bytes, lemma_compact_cat,
    lemma_encode_cat, lemma_id_json_compact, lemma_json_string_bytes, lemma_numeral_compact, quoted,
    signed_decimal, signed_text,
};
use crate::supervisor::{FileObservation, FileWriteRequest, Ownership};
use crate::text::byte_len;
use vstd::prelude::*;
use vstd::string::*;
use vstd::utf8::*;

verus! {

pub const MAX_FILES: usize = 16;

pub const MAX_HOST_FILES: usize = 1024;

pub const MAX_RECORD_BYTES: usize = 2048;

/// Why a file record or receipt was refused.
#[derive(Debug, Clone, Copy, PartialEq, Eq, Structural)]
pub enum FileRecordError {
    /// Invalid retained file bounds.
    Bounds,
    /// Invalid file absence fence.
    Fence,
    /// Missing file context.
    MissingContext,
    /// Invalid file context.
    Context,
    /// File committed without host intent.
    Committed,
    /// File aborted without host intent.
    Aborted,
    /// File record exceeds bound.
    Size,
    /// The upload or the receipt was refused.
    File(FileError),
    /// File receipt differs from original intent.
    Receipt,
    /// Terminal file receipt changed.
    Terminal,
    /// Unsolicited file commit.
    UnsolicitedCommit,
    /// Unsolicited file abort.
    UnsolicitedAbort,
    /// File descriptor changed.
    Descriptor,
}

#[derive(Debug)]
pub struct FileRecord {
    pub digest: [u8; 32],
    pub context: Option<Context>,
    pub size: u64,
    pub not_started: bool,
    pub commit_requested: bool,
    pub abort_requested: bool,
    /// 0 means no observation; 1..=5 are the guest file state numbers. Numeric encoding
    /// keeps subsequent observations the same size; retained file updates cannot grow it.
    pub state: u8,
}

impl Clone for FileRecord {
    fn clone(&self) -> (r: Self)
        ensures
            r == *self,
    {
        FileRecord {
            digest: self.digest,
            context: match &self.context {
                Some(c) => Some(c.clone()),
                None => None,
            },
            size: self.size,
            not_started: self.not_started,
            commit_requested: self.commit_requested,
            abort_requested: self.abort_requested,
            state: self.state,
        }
    }
}

#[verifier::opaque]
pub open spec fn context_json(c: Context) -> Seq<char> {
    "{\"allocation_id\":"@ + id_json("alc"@, c.allocation_id.value) + ",\"generation\":"@ + signed_decimal(
        c.generation as int,
    ) + ",\"boot_id\":"@ + json_string(c.boot_id@) + "}"@
}

pub open spec fn optional_context_json(c: Option<Context>) -> Seq<char> {
    match c {
        Some(context) => context_json(context),
        None => "null"@,
    }
}

/// The typed encoding of a record: its fields in declaration order.
#[verifier::opaque]
pub open spec fn record_json(r: FileRecord) -> Seq<char> {
    "{\"digest\":"@ + bytes_json(r.digest@) + ",\"context\":"@ + optional_context_json(r.context) + ",\"size\":"@
        + decimal(r.size as nat) + ",\"not_started\":"@ + bool_json(r.not_started) + ",\"commit_requested\":"@
        + bool_json(r.commit_requested) + ",\"abort_requested\":"@ + bool_json(r.abort_requested) + ",\"state\":"@
        + decimal(r.state as nat) + "}"@
}

/// What a record's fields are refused for, if they are.
pub open spec fn fields_refusal(r: FileRecord) -> Option<FileRecordError> {
    if r.size > m::MAX_FILE_BYTES || r.state > 5 {
        Some(FileRecordError::Bounds)
    } else if r.not_started {
        if r.context is Some || r.size != 0 || r.state != 0 || r.commit_requested || r.abort_requested {
            Some(FileRecordError::Fence)
        } else {
            None
        }
    } else if r.context is None {
        Some(FileRecordError::MissingContext)
    } else if !context_valid(r.context->0) {
        Some(FileRecordError::Context)
    } else if (r.state == 2 || r.state == 3) && !r.commit_requested {
        Some(FileRecordError::Committed)
    } else if r.state == 5 && !r.abort_requested {
        Some(FileRecordError::Aborted)
    } else {
        None
    }
}

/// What checking a record answers.
pub open spec fn record_check(r: FileRecord) -> Result<(), FileRecordError> {
    if fields_refusal(r) is Some {
        Err(fields_refusal(r)->0)
    } else if byte_len(record_json(r)) > MAX_RECORD_BYTES {
        Err(FileRecordError::Size)
    } else {
        Ok(())
    }
}

/// A record that no observation changes any more.
pub open spec fn file_finished(r: FileRecord) -> bool {
    r.not_started || 3 <= r.state <= 5
}

/// The record of an upload about to be forwarded.
pub open spec fn pending_record(upload: m::Upload, context: Context) -> FileRecord {
    FileRecord {
        digest: m::upload_digest(upload)->Ok_0,
        context: Some(context),
        size: upload.size,
        not_started: false,
        commit_requested: false,
        abort_requested: false,
        state: 0,
    }
}

/// The receipt is for the transfer that the record retains.
pub open spec fn receipt_fits(r: FileRecord, upload: m::Upload, receipt: m::Receipt) -> bool {
    &&& !r.not_started
    &&& (r.context matches Some(context) && same_context(context, receipt.context))
    &&& m::same_upload(receipt.upload, upload)
    &&& r.digest@ == receipt.digest@
    &&& r.size == upload.size
}

pub open spec fn with_file_state(r: FileRecord, state: u8) -> FileRecord {
    FileRecord { state, ..r }
}

/// What a receipt is refused for, if it is, before the record changes.
pub open spec fn observe_refusal(r: FileRecord, upload: m::Upload, receipt: m::Receipt) -> Option<FileRecordError> {
    let next = state_number(receipt.state);
    if m::receipt_check(receipt) is Err {
        Some(FileRecordError::File(m::receipt_check(receipt)->Err_0))
    } else if !receipt_fits(r, upload, receipt) {
        Some(FileRecordError::Receipt)
    } else if file_finished(r) && r.state != next {
        Some(FileRecordError::Terminal)
    } else if (next == 2 || next == 3) && !r.commit_requested {
        Some(FileRecordError::UnsolicitedCommit)
    } else if next == 5 && !r.abort_requested {
        Some(FileRecordError::UnsolicitedAbort)
    } else {
        None
    }
}

fn context_text(c: &Context) -> (r: String)
    ensures
        r@ == context_json(*c),
{
    proof {
        reveal(context_json);
    }
    let mut out: String = "{\"allocation_id\":".to_owned();
    out.append(quoted(c.allocation_id.to_string().as_str()).as_str());
    out.append(",\"generation\":");
    out.append(signed_text(c.generation).as_str());
    out.append(",\"boot_id\":");
    out.append(quoted(c.boot_id.as_str()).as_str());
    out.append("}");
    out
}

/// What is reported of a kept transfer.
pub open spec fn file_reported(
    record: FileRecord,
    owner: Ownership,
    simulated: bool,
    now: i64,
    stored: Option<u64>,
    r: FileObservation,
) -> bool {
    &&& r.ownership == Some(owner)
    &&& r.simulated == simulated
    &&& r.observed_unix_ms == now
    &&& r.upload_digest@ == record.digest@
    &&& r.state == record.state
    &&& r.not_started == record.not_started
    &&& r.stored == stored
    &&& match (record.context, r.context) {
        (Some(c), Some(v)) => context_written(c, v),
        (None, None) => true,
        _ => false,
    }
}

/// What holding an upload against a kept transfer answers.
pub open spec fn identity_check(record: FileRecord, id: OperationId, upload: m::Upload) -> Result<(), FileRecordError> {
    if upload.operation_id != id {
        Err(FileRecordError::Descriptor)
    } else {
        match m::upload_digest(upload) {
            Err(e) => Err(FileRecordError::File(e)),
            Ok(d) => if d@ == record.digest@ {
                Ok(())
            } else {
                Err(FileRecordError::Descriptor)
            },
        }
    }
}

impl FileRecord {
    /// A transfer that must never start.
    pub fn fenced(digest: [u8; 32]) -> (r: Self)
        ensures
            r == (FileRecord {
                digest,
                context: None,
                size: 0,
                not_started: true,
                commit_requested: false,
                abort_requested: false,
                state: 0,
            }),
            record_check(r) is Ok,
    {
        let r: FileRecord = FileRecord {
            digest,
            context: None,
            size: 0,
            not_started: true,
            commit_requested: false,
            abort_requested: false,
            state: 0,
        };
        proof {
            accepted_records_fit(r);
        }
        r
    }

    pub fn pending(upload: &m::Upload, context: Context) -> (r: Result<Self, FileRecordError>)
        ensures
            match r {
                Ok(record) => m::upload_digest(*upload) is Ok && context_valid(context) && record == pending_record(
                    *upload,
                    context,
                ) && record_check(record) is Ok,
                Err(e) => if m::upload_digest(*upload) is Err {
                    e == FileRecordError::File(m::upload_digest(*upload)->Err_0)
                } else {
                    !context_valid(context) && e == FileRecordError::Context
                },
            },
    {
        let digest: [u8; 32] = match upload.digest() {
            Ok(d) => d,
            Err(e) => {
                return Err(FileRecordError::File(e));
            },
        };
        let record: FileRecord = FileRecord {
            digest,
            context: Some(context),
            size: upload.size,
            not_started: false,
            commit_requested: false,
            abort_requested: false,
            state: 0,
        };
        proof {
            if fields_refusal(record) is None {
                accepted_records_fit(record);
            }
        }
        match record.validate() {
            Ok(_) => Ok(record),
            Err(e) => Err(e),
        }
    }

    /// The record's encoding.
    pub fn render(&self) -> (r: String)
        ensures
            r@ == record_json(*self),
    {
        proof {
            reveal(record_json);
        }
        let mut out: String = "{\"digest\":".to_owned();
        out.append(bytes_text(self.digest.as_slice()).as_str());
        out.append(",\"context\":");
        match &self.context {
            Some(c) => {
                out.append(context_text(c).as_str());
            },
            None => {
                out.append("null");
            },
        }
        out.append(",\"size\":");
        out.append(decimal_text(self.size).as_str());
        out.append(",\"not_started\":");
        out.append(bool_text(self.not_started));
        out.append(",\"commit_requested\":");
        out.append(bool_text(self.commit_requested));
        out.append(",\"abort_requested\":");
        out.append(bool_text(self.abort_requested));
        out.append(",\"state\":");
        out.append(decimal_text(self.state as u64).as_str());
        out.append("}");
        out
    }

    pub fn validate(&self) -> (r: Result<(), FileRecordError>)
        ensures
            r == record_check(*self),
    {
        if self.size > m::MAX_FILE_BYTES || self.state > 5 {
            return Err(FileRecordError::Bounds);
        }
        if self.not_started {
            if self.context.is_some() || self.size != 0 || self.state != 0 || self.commit_requested
                || self.abort_requested {
                return Err(FileRecordError::Fence);
            }
        } else {
            match &self.context {
                None => {
                    return Err(FileRecordError::MissingContext);
                },
                Some(context) => {
                    if !context.is_valid() {
                        return Err(FileRecordError::Context);
                    }
                },
            }
            if (self.state == 2 || self.state == 3) && !self.commit_requested {
                return Err(FileRecordError::Committed);
            }
            if self.state == 5 && !self.abort_requested {
                return Err(FileRecordError::Aborted);
            }
        }
        if self.render().as_str().as_bytes().len() > MAX_RECORD_BYTES {
            return Err(FileRecordError::Size);
        }
        Ok(())
    }

    pub fn finished(&self) -> (r: bool)
        ensures
            r == file_finished(*self),
    {
        self.not_started || (3 <= self.state && self.state <= 5)
    }

    /// Take a guest receipt into the record. A valid record stays valid, and
    /// takes every receipt that is not refused.
    pub fn observe(&mut self, upload: &m::Upload, receipt: &m::Receipt) -> (r: Result<(), FileRecordError>)
        ensures
            match observe_refusal(*old(self), *upload, *receipt) {
                Some(e) => r == Err::<(), FileRecordError>(e) && *final(self) == *old(self),
                None => r == record_check(*final(self)) && *final(self) == with_file_state(
                    *old(self),
                    state_number(receipt.state) as u8,
                ),
            },
            record_check(*old(self)) is Ok ==> record_check(*final(self)) is Ok,
    {
        match receipt.validate() {
            Ok(_) => {},
            Err(e) => {
                return Err(FileRecordError::File(e));
            },
        }
        let context: bool = match &self.context {
            Some(c) => c.same(&receipt.context),
            None => false,
        };
        if self.not_started || !context || !receipt.upload.same(upload) || !same_digest(&self.digest, &receipt.digest)
            || self.size != upload.size {
            return Err(FileRecordError::Receipt);
        }
        let next: u8 = receipt.state.number();
        if self.finished() && self.state != next {
            return Err(FileRecordError::Terminal);
        }
        if (next == 2 || next == 3) && !self.commit_requested {
            return Err(FileRecordError::UnsolicitedCommit);
        }
        if next == 5 && !self.abort_requested {
            return Err(FileRecordError::UnsolicitedAbort);
        }
        self.state = next;
        proof {
            if fields_refusal(*self) is None {
                accepted_records_fit(*self);
            }
        }
        self.validate()
    }

    pub fn observation(&self, owner: Ownership, simulated: bool, now: i64, stored: Option<u64>) -> (r: FileObservation)
        ensures
            file_reported(*self, owner, simulated, now, stored, r),
    {
        FileObservation {
            ownership: Some(owner),
            simulated,
            observed_unix_ms: now,
            upload_digest: copy_bytes(self.digest.as_slice()),
            context: match &self.context {
                Some(c) => Some(w::Context::from_model(c)),
                None => None,
            },
            state: self.state as i32,
            not_started: self.not_started,
            stored,
        }
    }

    pub fn validate_identity(&self, id: OperationId, upload: &m::Upload) -> (r: Result<(), FileRecordError>)
        ensures
            r == identity_check(*self, id, *upload),
    {
        if upload.operation_id != id {
            return Err(FileRecordError::Descriptor);
        }
        match upload.digest() {
            Err(e) => Err(FileRecordError::File(e)),
            Ok(d) => if same_digest(&d, &self.digest) {
                Ok(())
            } else {
                Err(FileRecordError::Descriptor)
            },
        }
    }
}

impl FileWriteRequest {
    pub fn debug_text(&self) -> (r: String)
        ensures
            r@ == m::transfer_line("FileWriteRequest"@, self.offset, self.data@.len()),
    {
        m::transfer_text("FileWriteRequest", self.offset, self.data.len() as u64)
    }
}

spec fn record_head(r: FileRecord) -> Seq<char> {
    "{\"digest\":"@ + bytes_json(r.digest@) + ",\"context\":"@
}

spec fn record_tail(r: FileRecord) -> Seq<char> {
    ",\"size\":"@ + decimal(r.size as nat) + ",\"not_started\":"@ + bool_json(r.not_started)
        + ",\"commit_requested\":"@ + bool_json(r.commit_requested) + ",\"abort_requested\":"@ + bool_json(
        r.abort_requested,
    ) + ",\"state\":"@ + decimal(r.state as nat) + "}"@
}

proof fn lemma_record_parts(r: FileRecord)
    ensures
        record_json(r) == record_head(r) + optional_context_json(r.context) + record_tail(r),
{
    reveal(record_json);
    assert(record_json(r) =~= record_head(r) + optional_context_json(r.context) + record_tail(r));
}

proof fn lemma_head_compact(r: FileRecord)
    ensures
        compact(record_head(r), 151),
{
    assert(compact("{\"digest\":"@, 10)) by {
        reveal_strlit("{\"digest\":");
        reveal(compact);
    }
    crate::allocation_authority::lemma_bytes_json_compact(r.digest@);
    assert(compact(",\"context\":"@, 11)) by {
        reveal_strlit(",\"context\":");
        reveal(compact);
    }
    let a0 = "{\"digest\":"@;
    let a1 = a0 + bytes_json(r.digest@);
    lemma_compact_cat(a0, 10, bytes_json(r.digest@), 130);
    let a2 = a1 + ",\"context\":"@;
    lemma_compact_cat(a1, 140, ",\"context\":"@, 11);
}

proof fn lemma_tail_compact(r: FileRecord)
    ensures
        compact(record_tail(r), 127),
{
    assert(compact(",\"size\":"@, 8)) by {
        reveal_strlit(",\"size\":");
        reveal(compact);
    }
    lemma_numeral_compact(r.size as int);
    assert(compact(",\"not_started\":"@, 15)) by {
        reveal_strlit(",\"not_started\":");
        reveal(compact);
    }
    crate::allocation_retirement::lemma_bool_compact(r.not_started);
    assert(compact(",\"commit_requested\":"@, 20)) by {
        reveal_strlit(",\"commit_requested\":");
        reveal(compact);
    }
    crate::allocation_retirement::lemma_bool_compact(r.commit_requested);
    assert(compact(",\"abort_requested\":"@, 19)) by {
        reveal_strlit(",\"abort_requested\":");
        reveal(compact);
    }
    crate::allocation_retirement::lemma_bool_compact(r.abort_requested);
    assert(compact(",\"state\":"@, 9)) by {
        reveal_strlit(",\"state\":");
        reveal(compact);
    }
    lemma_numeral_compact(r.state as int);
    assert(compact("}"@, 1)) by {
        reveal_strlit("}");
        reveal(compact);
    }
    let a0 = ",\"size\":"@;
    let a1 = a0 + decimal(r.size as nat);
    lemma_compact_cat(a0, 8, decimal(r.size as nat), 20);
    let a2 = a1 + ",\"not_started\":"@;
    lemma_compact_cat(a1, 28, ",\"not_started\":"@, 15);
    let a3 = a2 + bool_json(r.not_started);
    lemma_compact_cat(a2, 43, bool_json(r.not_started), 5);
    let a4 = a3 + ",\"commit_requested\":"@;
    lemma_compact_cat(a3, 48, ",\"commit_requested\":"@, 20);
    let a5 = a4 + bool_json(r.commit_requested);
    lemma_compact_cat(a4, 68, bool_json(r.commit_requested), 5);
    let a6 = a5 + ",\"abort_requested\":"@;
    lemma_compact_cat(a5, 73, ",\"abort_requested\":"@, 19);
    let a7 = a6 + bool_json(r.abort_requested);
    lemma_compact_cat(a6, 92, bool_json(r.abort_requested), 5);
    let a8 = a7 + ",\"state\":"@;
    lemma_compact_cat(a7, 97, ",\"state\":"@, 9);
    let a9 = a8 + decimal(r.state as nat);
    lemma_compact_cat(a8, 106, decimal(r.state as nat), 20);
    let a10 = a9 + "}"@;
    lemma_compact_cat(a9, 126, "}"@, 1);
}

spec fn context_head(c: Context) -> Seq<char> {
    "{\"allocation_id\":"@ + id_json("alc"@, c.allocation_id.value) + ",\"generation\":"@ + signed_decimal(
        c.generation as int,
    ) + ",\"boot_id\":"@
}

proof fn lemma_context_bytes(c: Context)
    requires
        byte_len(c.boot_id@) <= 64,
    ensures
        byte_len(context_json(c)) <= 600,
{
    assert(compact(context_head(c), 104)) by {
        assert(compact("{\"allocation_id\":"@, 17)) by {
            reveal_strlit("{\"allocation_id\":");
            reveal(compact);
        }
        lemma_id_json_compact("alc"@, c.allocation_id.value);
        assert(compact(",\"generation\":"@, 14)) by {
            reveal_strlit(",\"generation\":");
            reveal(compact);
        }
        lemma_numeral_compact(c.generation as int);
        assert(compact(",\"boot_id\":"@, 11)) by {
            reveal_strlit(",\"boot_id\":");
            reveal(compact);
        }
        let a0 = "{\"allocation_id\":"@;
        let a1 = a0 + id_json("alc"@, c.allocation_id.value);
        lemma_compact_cat(a0, 17, id_json("alc"@, c.allocation_id.value), 42);
        let a2 = a1 + ",\"generation\":"@;
        lemma_compact_cat(a1, 59, ",\"generation\":"@, 14);
        let a3 = a2 + signed_decimal(c.generation as int);
        lemma_compact_cat(a2, 73, signed_decimal(c.generation as int), 20);
        let a4 = a3 + ",\"boot_id\":"@;
        lemma_compact_cat(a3, 93, ",\"boot_id\":"@, 11);
    }
    assert(context_json(c) == context_head(c) + json_string(c.boot_id@) + "}"@) by {
        reveal(context_json);
    }
    lemma_compact_bytes(context_head(c), 104);
    lemma_json_string_bytes(c.boot_id@);
    assert(compact("}"@, 1)) by {
        reveal_strlit("}");
        reveal(compact);
    }
    lemma_compact_bytes("}"@, 1);
    lemma_encode_cat(context_head(c), json_string(c.boot_id@));
    lemma_encode_cat(context_head(c) + json_string(c.boot_id@), "}"@);
}

/// Every record whose fields are accepted fits the space reserved for it.
pub proof fn accepted_records_fit(r: FileRecord)
    requires
        fields_refusal(r) is None,
    ensures
        byte_len(record_json(r)) <= MAX_RECORD_BYTES,
        record_check(r) is Ok,
{
    lemma_record_parts(r);
    lemma_head_compact(r);
    lemma_tail_compact(r);
    lemma_compact_bytes(record_head(r), 151);
    lemma_compact_bytes(record_tail(r), 127);
    match r.context {
        Some(c) => {
            lemma_context_bytes(c);
        },
        None => {
            assert(compact("null"@, 4)) by {
                reveal_strlit("null");
                reveal(compact);
            }
            lemma_compact_bytes("null"@, 4);
        },
    }
    lemma_encode_cat(record_head(r), optional_context_json(r.context));
    lemma_encode_cat(record_head(r) + optional_context_json(r.context), record_tail(r));
}

/// An observation does not change the size of a record: one digit replaces
/// another.
pub proof fn observations_keep_the_size(r: FileRecord, state: u8)
    requires
        r.state <= 5,
        state <= 5,
    ensures
        byte_len(record_json(with_file_state(r, state))) == byte_len(record_json(r)),
{
    let s = with_file_state(r, state);
    lemma_record_parts(r);
    lemma_record_parts(s);
    lemma_tail_compact(r);
    lemma_tail_compact(s);
    assert(record_tail(r).len() == record_tail(s).len());
    let front = record_head(r) + optional_context_json(r.context);
    lemma_encode_cat(front, record_tail(r));
    lemma_encode_cat(front, record_tail(s));
    assert(is_ascii_chars(record_tail(r)) && is_ascii_chars(record_tail(s))) by {
        reveal(compact);
    }
    is_ascii_chars_encode_utf8(record_tail(r));
    is_ascii_chars_encode_utf8(record_tail(s));
}

/// A finished transfer keeps its state: a terminal receipt can be repeated, and
/// no other receipt is accepted.
pub proof fn finished_transfers_do_not_change(r: FileRecord, upload: m::Upload, receipt: m::Receipt)
    requires
        file_finished(r),
        observe_refusal(r, upload, receipt) is None,
    ensures
        with_file_state(r, state_number(receipt.state) as u8) == r,
{
}

/// Nothing is committed that the host did not ask to commit, and nothing aborted
/// that it did not ask to abort.
pub proof fn outcomes_are_solicited(r: FileRecord)
    requires
        record_check(r) is Ok,
    ensures
        r.state == 3 ==> r.commit_requested,
        r.state == 5 ==> r.abort_requested,
        r.not_started ==> r.state == 0 && !r.commit_requested && !r.abort_requested,
{
}

/// A transfer that must never start accepts no guest evidence.
pub proof fn fenced_transfers_accept_no_receipt(r: FileRecord, upload: m::Upload, receipt: m::Receipt)
    requires
        r.not_started,
    ensures
        observe_refusal(r, upload, receipt) is Some,
{
}

} // verus!
