//! The guest's own model of contexts, commands and their receipts. Guest reports
//! are not host security evidence.
use crate::canonical::{key_ordered, keys_once, member_views};
use crate::ids::{AllocationId, OperationId};
use crate::text::{byte_len, byte_length, same_text};
use vstd::prelude::*;
use vstd::string::*;

verus! {

/// One boot of one allocation's guest.
#[derive(Debug, PartialEq, Eq)]
pub struct Context {
    pub allocation_id: AllocationId,
    pub generation: i64,
    pub boot_id: String,
}

pub open spec fn same_context(a: Context, b: Context) -> bool {
    a.allocation_id == b.allocation_id && a.generation == b.generation && a.boot_id@ == b.boot_id@
}

/// A context that names a positive generation and a boot of bounded length.
pub open spec fn context_valid(c: Context) -> bool {
    c.generation > 0 && c.boot_id@.len() > 0 && byte_len(c.boot_id@) <= 64
}

impl Clone for Context {
    fn clone(&self) -> (r: Self)
        ensures
            r == *self,
    {
        Context { allocation_id: self.allocation_id, generation: self.generation, boot_id: self.boot_id.clone() }
    }
}

impl Context {
    pub fn same(&self, other: &Context) -> (r: bool)
        ensures
            r == same_context(*self, *other),
    {
        self.allocation_id == other.allocation_id && self.generation == other.generation && same_text(
            self.boot_id.as_str(),
            other.boot_id.as_str(),
        )
    }

    /// Whether the context names a positive generation and a bounded boot.
    pub fn is_valid(&self) -> (r: bool)
        ensures
            r == context_valid(*self),
    {
        self.generation > 0 && !self.boot_id.as_str().is_empty() && byte_length(self.boot_id.as_str()) <= 64
    }
}

/// A command as the guest runs it. The environment is kept in key order, and no
/// variable of it is set twice.
pub struct Execute {
    pub operation_id: OperationId,
    pub argv: Vec<String>,
    pub env: Vec<(String, String)>,
    pub cwd: String,
    pub deadline_unix_ms: i64,
    pub output_limit: u64,
}

impl Execute {
    pub open spec fn well_formed(&self) -> bool {
        keys_once(self.env@) && key_ordered(member_views(self.env@))
    }
}

/// How much of a stream was seen and stored.
#[derive(Debug, Clone, Copy, PartialEq, Eq, Structural)]
pub struct Output {
    pub seen: u64,
    pub stored: u64,
    pub truncated: bool,
}

#[derive(Debug, Clone, Copy, PartialEq, Eq, Structural)]
pub enum State {
    LaunchIntent,
    Exited,
    TimedOut,
    Cancelled,
    Unknown,
}

/// What the guest reports of a command.
#[derive(Debug, PartialEq, Eq)]
pub struct Receipt {
    pub version: u32,
    pub context: Context,
    pub operation_id: OperationId,
    pub digest: [u8; 32],
    pub state: State,
    pub deadline_unix_ms: i64,
    pub output_limit: u64,
    pub cancel_requested: bool,
    pub cleanup_confirmed: bool,
    pub exit_code: Option<i32>,
    pub signal: Option<i32>,
    pub stdout: Output,
    pub stderr: Output,
    pub reason: Option<String>,
}

/// A copy of optional text.
pub fn copy_text(value: &Option<String>) -> (r: Option<String>)
    ensures
        r == *value,
{
    match value {
        Some(text) => Some(text.clone()),
        None => None,
    }
}

/// A copy of a list of texts.
pub fn copy_texts(values: &Vec<String>) -> (r: Vec<String>)
    ensures
        r@ == values@,
{
    let mut out: Vec<String> = Vec::new();
    let mut i: usize = 0;
    while i < values.len()
        invariant
            i <= values@.len(),
            out@ == values@.take(i as int),
        decreases values@.len() - i,
    {
        out.push(values[i].clone());
        i = i + 1;
        assert(out@ =~= values@.take(i as int));
    }
    assert(values@.take(i as int) =~= values@);
    out
}

/// A copy of a list of pairs of texts.
pub fn copy_pairs(values: &Vec<(String, String)>) -> (r: Vec<(String, String)>)
    ensures
        r@ == values@,
{
    let mut out: Vec<(String, String)> = Vec::new();
    let mut i: usize = 0;
    while i < values.len()
        invariant
            i <= values@.len(),
            out@ == values@.take(i as int),
        decreases values@.len() - i,
    {
        out.push((values[i].0.clone(), values[i].1.clone()));
        i = i + 1;
        assert(out@ =~= values@.take(i as int));
    }
    assert(values@.take(i as int) =~= values@);
    out
}

/// A copy of a list of plain values.
pub fn copy_items<T: Copy>(values: &Vec<T>) -> (r: Vec<T>)
    ensures
        r@ == values@,
{
    let mut out: Vec<T> = Vec::new();
    let mut i: usize = 0;
    while i < values.len()
        invariant
            i <= values@.len(),
            out@ == values@.take(i as int),
        decreases values@.len() - i,
    {
        out.push(values[i]);
        i = i + 1;
        assert(out@ =~= values@.take(i as int));
    }
    assert(values@.take(i as int) =~= values@);
    out
}

/// A copy of a byte string.
pub fn copy_bytes(values: &[u8]) -> (r: Vec<u8>)
    ensures
        r@ == values@,
{
    let mut out: Vec<u8> = Vec::new();
    let mut i: usize = 0;
    while i < values.len()
        invariant
            i <= values@.len(),
            out@ == values@.take(i as int),
        decreases values@.len() - i,
    {
        out.push(values[i]);
        i = i + 1;
        assert(out@ =~= values@.take(i as int));
    }
    assert(values@.take(i as int) =~= values@);
    out
}

/// Equality of byte strings.
pub fn same_bytes(a: &[u8], b: &[u8]) -> (r: bool)
    ensures
        r == (a@ == b@),
{
    if a.len() != b.len() {
        return false;
    }
    let mut i: usize = 0;
    while i < a.len()
        invariant
            i <= a@.len(),
            a@.len() == b@.len(),
            forall|j: int| 0 <= j < i ==> a@[j] == b@[j],
        decreases a@.len() - i,
    {
        if a[i] != b[i] {
            return false;
        }
        i = i + 1;
    }
    assert(a@ =~= b@);
    true
}

/// Read a digest of exactly thirty-two bytes.
pub fn digest_of(bytes: &[u8]) -> (r: Option<[u8; 32]>)
    ensures
        match r {
            Some(d) => d@ == bytes@,
            None => bytes@.len() != 32,
        },
{
    if bytes.len() != 32 {
        return None;
    }
    let mut out: [u8; 32] = [0u8; 32];
    let mut i: usize = 0;
    while i < 32
        invariant
            i <= 32,
            bytes@.len() == 32,
            forall|j: int| 0 <= j < i ==> out@[j] == bytes@[j],
        decreases 32 - i,
    {
        out[i] = bytes[i];
        i = i + 1;
    }
    assert(out@ =~= bytes@);
    Some(out)
}

impl Clone for Execute {
    fn clone(&self) -> (r: Self)
        ensures
            r.operation_id == self.operation_id,
            r.argv@ == self.argv@,
            r.env@ == self.env@,
            r.cwd == self.cwd,
            r.deadline_unix_ms == self.deadline_unix_ms,
            r.output_limit == self.output_limit,
    {
        Execute {
            operation_id: self.operation_id,
            argv: copy_texts(&self.argv),
            env: copy_pairs(&self.env),
            cwd: self.cwd.clone(),
            deadline_unix_ms: self.deadline_unix_ms,
            output_limit: self.output_limit,
        }
    }
}

impl Clone for Receipt {
    fn clone(&self) -> (r: Self)
        ensures
            r == *self,
    {
        Receipt {
            version: self.version,
            context: self.context.clone(),
            operation_id: self.operation_id,
            digest: self.digest,
            state: self.state,
            deadline_unix_ms: self.deadline_unix_ms,
            output_limit: self.output_limit,
            cancel_requested: self.cancel_requested,
            cleanup_confirmed: self.cleanup_confirmed,
            exit_code: self.exit_code,
            signal: self.signal,
            stdout: self.stdout,
            stderr: self.stderr,
            reason: copy_text(&self.reason),
        }
    }
}

} // verus!
