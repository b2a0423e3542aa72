//! Framing and strict model conversion for the guest transport.
use crate::canonical::{in_key_order, member_views, sort_pairs};
use crate::digest::{sha256, sha256_of};
use crate::guest as w;
use crate::guest_model as m;
use crate::guest_model::{copy_bytes, copy_pairs, copy_text, copy_texts, digest_of, same_bytes};
use crate::ids::{
    hyphenated, hyphenated_is_injective, id_text, is_id_text, read_id, version_of, AllocationId, Id, OperationId,
};
use crate::text::{byte_len, byte_length};
use vstd::prelude::*;
use vstd::string::*;
use vstd::utf8::*;

verus! {

pub const VERSION: u32 = 1;

pub const MAX_FRAME: usize = 131072;

pub const MAX_CHUNK: u32 = 32768;

/// Seconds that one frame may take.
pub const IO_TIMEOUT_SECONDS: u64 = 5;

/// Seconds that one connection may take.
pub const CONNECTION_TIMEOUT_SECONDS: u64 = 15;

pub const MAX_CONNECTIONS: usize = 32;

/// The protocol name that both ends must have agreed on.
pub const ALPN: &'static str = "hudson-guest/1";

/// Why a guest message or peer was refused.
#[derive(Debug, Clone, Copy, PartialEq, Eq, Structural)]
pub enum WireError {
    /// Invalid guest frame size.
    FrameSize,
    /// Missing peer certificate.
    MissingPeer,
    /// Guest peer identity or protocol mismatch.
    Peer,
    /// Invalid guest context.
    Context,
    /// Invalid allocation or operation identity.
    Identity,
    /// Missing receipt context.
    MissingContext,
    /// Invalid receipt digest.
    Digest,
    /// Unspecified or unknown receipt state.
    State,
    /// Missing output statistics.
    MissingStats,
    /// The guest's own check of the message failed.
    Shape,
}

/// A frame holds between one byte and the limit.
pub open spec fn frame_size_valid(n: int) -> bool {
    0 < n <= MAX_FRAME
}

/// The length of a frame as it stands in front of it, most significant first.
pub open spec fn frame_header(n: u32) -> Seq<u8> {
    seq![
        ((n >> 24u32) & 0xff) as u8,
        ((n >> 16u32) & 0xff) as u8,
        ((n >> 8u32) & 0xff) as u8,
        (n & 0xff) as u8,
    ]
}

/// The header of a frame of `len` bytes.
pub fn write_frame_header(len: usize) -> (r: Result<[u8; 4], WireError>)
    ensures
        match r {
            Ok(header) => frame_size_valid(len as int) && header@ == frame_header(len as u32),
            Err(e) => !frame_size_valid(len as int) && e == WireError::FrameSize,
        },
{
    if len == 0 || len > MAX_FRAME {
        return Err(WireError::FrameSize);
    }
    let n: u32 = len as u32;
    let header: [u8; 4] = [
        ((n >> 24u32) & 0xff) as u8,
        ((n >> 16u32) & 0xff) as u8,
        ((n >> 8u32) & 0xff) as u8,
        (n & 0xff) as u8,
    ];
    assert(header@ =~= frame_header(n));
    Ok(header)
}

/// The number that four bytes stand for, most significant first.
pub open spec fn header_length(header: Seq<u8>) -> int {
    header[0] * 0x1000000 + header[1] * 0x10000 + header[2] * 0x100 + header[3]
}

/// The size of the frame behind a header.
pub fn read_frame_header(header: &[u8; 4]) -> (r: Result<usize, WireError>)
    ensures
        match r {
            Ok(len) => len == header_length(header@) && frame_size_valid(len as int),
            Err(e) => !frame_size_valid(header_length(header@)) && e == WireError::FrameSize,
        },
{
    let len: u64 = header[0] as u64 * 0x1000000 + header[1] as u64 * 0x10000 + header[2] as u64 * 0x100 + header[3] as u64;
    if len == 0 || len > MAX_FRAME as u64 {
        return Err(WireError::FrameSize);
    }
    Ok(len as usize)
}

/// The size written in front of a frame is the size read from it.
pub proof fn frame_header_reads_back(n: u32)
    ensures
        header_length(frame_header(n)) == n,
{
    assert((((n >> 24u32) & 0xff) as u8) * 0x1000000 + (((n >> 16u32) & 0xff) as u8) * 0x10000 + (((n >> 8u32) & 0xff) as u8)
        * 0x100 + ((n & 0xff) as u8) == n) by (bit_vector);
}

/// The name that a guest's certificate must carry.
pub open spec fn guest_name_text(allocation: AllocationId) -> Seq<char> {
    "allocation-"@ + hyphenated(allocation.value) + ".sandbox.internal"@
}

pub fn guest_name(allocation: AllocationId) -> (r: String)
    ensures
        r@ == guest_name_text(allocation),
{
    let mut out: String = "allocation-".to_owned();
    out.append(crate::ids::uuid_text(allocation.uuid()).as_str());
    out.append(".sandbox.internal");
    out
}

/// No two allocations share a guest name.
pub proof fn guest_names_are_unique(a: AllocationId, b: AllocationId)
    requires
        guest_name_text(a) == guest_name_text(b),
    ensures
        a == b,
{
    let n = "allocation-"@.len() as int;
    let x = guest_name_text(a);
    let y = guest_name_text(b);
    assert(x.subrange(n, n + 36) =~= hyphenated(a.value));
    assert(y.subrange(n, n + 36) =~= hyphenated(b.value));
    hyphenated_is_injective(a.value, b.value);
}

/// The peer presented the pinned certificate and agreed on the protocol.
pub open spec fn peer_check(certificate: Option<Seq<u8>>, pin: [u8; 32], alpn: Option<Seq<u8>>) -> Result<(), WireError> {
    match certificate {
        None => Err(WireError::MissingPeer),
        Some(first) => if sha256_of(first)@ == pin@ && alpn == Some(encode_utf8(ALPN@)) {
            Ok(())
        } else {
            Err(WireError::Peer)
        },
    }
}

pub open spec fn bytes_view(value: Option<&[u8]>) -> Option<Seq<u8>> {
    match value {
        Some(bytes) => Some(bytes@),
        None => None,
    }
}

/// Check the first certificate of the peer's chain and the agreed protocol.
pub fn peer(certificate: Option<&[u8]>, expected: &[u8; 32], alpn: Option<&[u8]>) -> (r: Result<(), WireError>)
    ensures
        r == peer_check(bytes_view(certificate), *expected, bytes_view(alpn)),
{
    match certificate {
        None => Err(WireError::MissingPeer),
        Some(first) => {
            let actual: [u8; 32] = sha256(first);
            let agreed: bool = match alpn {
                Some(name) => same_bytes(name, ALPN.as_bytes()),
                None => false,
            };
            if same_bytes(actual.as_slice(), expected.as_slice()) && agreed {
                Ok(())
            } else {
                Err(WireError::Peer)
            }
        },
    }
}

/// The wire form of a context.
pub open spec fn context_written(c: m::Context, v: w::Context) -> bool {
    v.allocation_id@ == id_text("alc"@, c.allocation_id.value) && v.generation == c.generation && v.boot_id@ == c.boot_id@
}

/// What a wire context is refused for, if it is.
pub open spec fn context_refusal(v: w::Context) -> Option<WireError> {
    if v.generation <= 0 || byte_len(v.boot_id@) > 64 {
        Some(WireError::Context)
    } else if !is_id_text("alc"@, v.allocation_id@) {
        Some(WireError::Identity)
    } else {
        None
    }
}

impl w::Context {
    pub fn from_model(v: &m::Context) -> (r: Self)
        ensures
            context_written(*v, r),
    {
        w::Context { allocation_id: v.allocation_id.to_string(), generation: v.generation, boot_id: v.boot_id.clone() }
    }
}

impl m::Context {
    pub fn from_wire(v: w::Context) -> (r: Result<Self, WireError>)
        ensures
            match r {
                Ok(c) => context_refusal(v) is None && context_written(c, v) && version_of(c.allocation_id.value) == 7,
                Err(e) => context_refusal(v) == Some(e),
            },
    {
        if v.generation <= 0 || byte_length(v.boot_id.as_str()) > 64 {
            return Err(WireError::Context);
        }
        match read_id::<AllocationId>(v.allocation_id.as_str()) {
            Some(allocation_id) => Ok(m::Context { allocation_id, generation: v.generation, boot_id: v.boot_id }),
            None => Err(WireError::Identity),
        }
    }
}

/// Equal identity texts are equal identities.
pub proof fn lemma_id_text_injective(prefix: Seq<char>, a: u128, b: u128)
    requires
        id_text(prefix, a) == id_text(prefix, b),
    ensures
        a == b,
{
    assert(id_text(prefix, a).skip(prefix.len() as int + 1) =~= hyphenated(a));
    assert(id_text(prefix, b).skip(prefix.len() as int + 1) =~= hyphenated(b));
    hyphenated_is_injective(a, b);
}

/// A context that names a positive generation, a bounded boot and a version 7
/// allocation survives the wire: what was written is accepted, and reads as the
/// same context.
pub proof fn written_context_reads_back(c: m::Context, v: w::Context, read: m::Context)
    requires
        c.generation > 0,
        byte_len(c.boot_id@) <= 64,
        version_of(c.allocation_id.value) == 7,
        context_written(c, v),
    ensures
        context_refusal(v) is None,
        context_written(read, v) ==> m::same_context(read, c),
{
    assert(v.allocation_id@ == id_text("alc"@, c.allocation_id.value));
    if context_written(read, v) {
        lemma_id_text_injective("alc"@, read.allocation_id.value, c.allocation_id.value);
    }
}

/// The wire form of a command. The environment is a set of pairs.
pub open spec fn execute_written(c: m::Execute, v: w::Execute) -> bool {
    &&& v.operation_id@ == id_text("op"@, c.operation_id.value)
    &&& v.argv@ == c.argv@
    &&& v.env@ == c.env@
    &&& v.cwd@ == c.cwd@
    &&& v.deadline_unix_ms == c.deadline_unix_ms
    &&& v.output_limit == c.output_limit
}

/// The model of a wire command: the environment in key order.
pub open spec fn execute_read(v: w::Execute, c: m::Execute) -> bool {
    &&& v.operation_id@ == id_text("op"@, c.operation_id.value)
    &&& version_of(c.operation_id.value) == 7
    &&& v.argv@ == c.argv@
    &&& member_views(c.env@) == in_key_order(member_views(v.env@))
    &&& v.cwd@ == c.cwd@
    &&& v.deadline_unix_ms == c.deadline_unix_ms
    &&& v.output_limit == c.output_limit
}

impl w::Execute {
    pub fn from_model(v: &m::Execute) -> (r: Self)
        ensures
            execute_written(*v, r),
    {
        w::Execute {
            operation_id: v.operation_id.to_string(),
            argv: copy_texts(&v.argv),
            env: copy_pairs(&v.env),
            cwd: v.cwd.clone(),
            deadline_unix_ms: v.deadline_unix_ms,
            output_limit: v.output_limit,
        }
    }

    /// The form for a log line: nothing of the command.
    pub fn debug_text(&self) -> (r: String)
        ensures
            r@ == "Execute { .. }"@,
    {
        "Execute { .. }".to_owned()
    }
}

impl w::OutputChunk {
    /// The form for a log line: nothing of the output.
    pub fn debug_text(&self) -> (r: String)
        ensures
            r@ == "OutputChunk { .. }"@,
    {
        "OutputChunk { .. }".to_owned()
    }
}

impl m::Execute {
    /// The command that a wire message stands for. The guest's own check of the
    /// command comes after it.
    pub fn from_wire(v: w::Execute) -> (r: Result<Self, WireError>)
        ensures
            match r {
                Ok(c) => execute_read(v, c) && (v.well_formed() ==> c.well_formed()),
                Err(e) => !is_id_text("op"@, v.operation_id@) && e == WireError::Identity,
            },
    {
        match read_id::<OperationId>(v.operation_id.as_str()) {
            Some(operation_id) => Ok(
                m::Execute {
                    operation_id,
                    argv: v.argv,
                    env: sort_pairs(&v.env),
                    cwd: v.cwd,
                    deadline_unix_ms: v.deadline_unix_ms,
                    output_limit: v.output_limit,
                },
            ),
            None => Err(WireError::Identity),
        }
    }
}

impl w::OutputStats {
    pub fn from_model(v: &m::Output) -> (r: Self)
        ensures
            r == (w::OutputStats { seen: v.seen, stored: v.stored, truncated: v.truncated }),
    {
        w::OutputStats { seen: v.seen, stored: v.stored, truncated: v.truncated }
    }
}

impl m::Output {
    pub fn from_wire(v: w::OutputStats) -> (r: Self)
        ensures
            r == (m::Output { seen: v.seen, stored: v.stored, truncated: v.truncated }),
    {
        m::Output { seen: v.seen, stored: v.stored, truncated: v.truncated }
    }
}

/// The wire name of a command state.
pub open spec fn state_written(s: m::State) -> w::State {
    match s {
        m::State::LaunchIntent => w::State::LaunchIntent,
        m::State::Exited => w::State::Exited,
        m::State::TimedOut => w::State::TimedOut,
        m::State::Cancelled => w::State::Cancelled,
        m::State::Unknown => w::State::Unknown,
    }
}

pub open spec fn stats_written(o: m::Output) -> w::OutputStats {
    w::OutputStats { seen: o.seen, stored: o.stored, truncated: o.truncated }
}

pub open spec fn text_view(t: Option<String>) -> Option<Seq<char>> {
    match t {
        Some(s) => Some(s@),
        None => None,
    }
}

/// The wire form of a receipt.
pub open spec fn receipt_written(r: m::Receipt, v: w::Receipt) -> bool {
    &&& v.version == r.version
    &&& v.context is Some && context_written(r.context, v.context->0)
    &&& v.operation_id@ == id_text("op"@, r.operation_id.value)
    &&& v.digest@ == r.digest@
    &&& v.state == Some(state_written(r.state))
    &&& v.deadline_unix_ms == r.deadline_unix_ms
    &&& v.output_limit == r.output_limit
    &&& v.cancel_requested == r.cancel_requested
    &&& v.cleanup_confirmed == r.cleanup_confirmed
    &&& v.exit_code == r.exit_code
    &&& v.signal == r.signal
    &&& v.stdout == Some(stats_written(r.stdout))
    &&& v.stderr == Some(stats_written(r.stderr))
    &&& text_view(v.reason) == text_view(r.reason)
}

/// What a wire receipt is refused for, if it is.
pub open spec fn receipt_refusal(v: w::Receipt) -> Option<WireError> {
    if v.context is None {
        Some(WireError::MissingContext)
    } else if context_refusal(v.context->0) is Some {
        context_refusal(v.context->0)
    } else if !is_id_text("op"@, v.operation_id@) {
        Some(WireError::Identity)
    } else if v.digest@.len() != 32 {
        Some(WireError::Digest)
    } else if v.state is None || v.state == Some(w::State::Unspecified) {
        Some(WireError::State)
    } else if v.stdout is None || v.stderr is None {
        Some(WireError::MissingStats)
    } else {
        None
    }
}

impl w::Receipt {
    pub fn from_model(v: &m::Receipt) -> (r: Self)
        ensures
            receipt_written(*v, r),
    {
        w::Receipt {
            version: v.version,
            context: Some(w::Context::from_model(&v.context)),
            operation_id: v.operation_id.to_string(),
            digest: copy_bytes(v.digest.as_slice()),
            state: Some(
                match v.state {
                    m::State::LaunchIntent => w::State::LaunchIntent,
                    m::State::Exited => w::State::Exited,
                    m::State::TimedOut => w::State::TimedOut,
                    m::State::Cancelled => w::State::Cancelled,
                    m::State::Unknown => w::State::Unknown,
                },
            ),
            deadline_unix_ms: v.deadline_unix_ms,
            output_limit: v.output_limit,
            cancel_requested: v.cancel_requested,
            cleanup_confirmed: v.cleanup_confirmed,
            exit_code: v.exit_code,
            signal: v.signal,
            stdout: Some(w::OutputStats::from_model(&v.stdout)),
            stderr: Some(w::OutputStats::from_model(&v.stderr)),
            reason: copy_text(&v.reason),
        }
    }
}

impl m::Receipt {
    /// The receipt that a wire message stands for. The guest's own check of the
    /// receipt comes after it.
    pub fn from_wire(v: w::Receipt) -> (r: Result<Self, WireError>)
        ensures
            match r {
                Ok(receipt) => receipt_refusal(v) is None && receipt_written(receipt, v) && version_of(
                    receipt.operation_id.value,
                ) == 7 && version_of(receipt.context.allocation_id.value) == 7,
                Err(e) => receipt_refusal(v) == Some(e),
            },
    {
        let context: m::Context = match v.context {
            None => {
                return Err(WireError::MissingContext);
            },
            Some(c) => match m::Context::from_wire(c) {
                Ok(context) => context,
                Err(e) => {
                    return Err(e);
                },
            },
        };
        let operation_id: OperationId = match read_id::<OperationId>(v.operation_id.as_str()) {
            Some(id) => id,
            None => {
                return Err(WireError::Identity);
            },
        };
        let digest: [u8; 32] = match digest_of(v.digest.as_slice()) {
            Some(digest) => digest,
            None => {
                return Err(WireError::Digest);
            },
        };
        let state: m::State = match v.state {
            Some(w::State::LaunchIntent) => m::State::LaunchIntent,
            Some(w::State::Exited) => m::State::Exited,
            Some(w::State::TimedOut) => m::State::TimedOut,
            Some(w::State::Cancelled) => m::State::Cancelled,
            Some(w::State::Unknown) => m::State::Unknown,
            Some(w::State::Unspecified) => {
                return Err(WireError::State);
            },
            None => {
                return Err(WireError::State);
            },
        };
        match (v.stdout, v.stderr) {
            (Some(stdout), Some(stderr)) => Ok(
                m::Receipt {
                    version: v.version,
                    context,
                    operation_id,
                    digest,
                    state,
                    deadline_unix_ms: v.deadline_unix_ms,
                    output_limit: v.output_limit,
                    cancel_requested: v.cancel_requested,
                    cleanup_confirmed: v.cleanup_confirmed,
                    exit_code: v.exit_code,
                    signal: v.signal,
                    stdout: m::Output::from_wire(stdout),
                    stderr: m::Output::from_wire(stderr),
                    reason: v.reason,
                },
            ),
            _ => Err(WireError::MissingStats),
        }
    }
}

/// The same receipt, field by field.
pub open spec fn same_receipt(a: m::Receipt, b: m::Receipt) -> bool {
    &&& a.version == b.version
    &&& m::same_context(a.context, b.context)
    &&& a.operation_id == b.operation_id
    &&& a.digest@ == b.digest@
    &&& a.state == b.state
    &&& a.deadline_unix_ms == b.deadline_unix_ms
    &&& a.output_limit == b.output_limit
    &&& a.cancel_requested == b.cancel_requested
    &&& a.cleanup_confirmed == b.cleanup_confirmed
    &&& a.exit_code == b.exit_code
    &&& a.signal == b.signal
    &&& a.stdout == b.stdout
    &&& a.stderr == b.stderr
    &&& text_view(a.reason) == text_view(b.reason)
}

/// A receipt of version 7 identities with a positive generation and a bounded
/// boot survives the wire.
pub proof fn written_receipt_reads_back(r: m::Receipt, v: w::Receipt, read: m::Receipt)
    requires
        r.context.generation > 0,
        byte_len(r.context.boot_id@) <= 64,
        version_of(r.context.allocation_id.value) == 7,
        version_of(r.operation_id.value) == 7,
        receipt_written(r, v),
    ensures
        receipt_refusal(v) is None,
        receipt_written(read, v) ==> same_receipt(read, r),
{
    written_context_reads_back(r.context, v.context->0, read.context);
    assert(is_id_text("op"@, v.operation_id@)) by {
        assert(v.operation_id@ == id_text("op"@, r.operation_id.value));
    }
    if receipt_written(read, v) {
        lemma_id_text_injective("op"@, read.operation_id.value, r.operation_id.value);
        assert(stats_written(read.stdout) == stats_written(r.stdout));
        assert(stats_written(read.stderr) == stats_written(r.stderr));
    }
}

} // verus!
