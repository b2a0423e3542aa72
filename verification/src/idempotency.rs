//! Idempotency keys and request digests.
//!
//! The client supplies a key to identify one logical mutation before the first
//! response exists. The server stores a digest of the normalized request
//! alongside it, so a retry carrying different content conflicts instead of
//! quietly running something else under a key the caller believes is settled.
//!
//! The digest is versioned. Normalization will change — a new optional field,
//! a different default — and without a version an upgrade would silently
//! reinterpret keys issued before it.
use crate::canonical::{canonical, canonical_text, Json};
use crate::digest::{hex_encode, hex_text, sha256, sha256_of};
use crate::text::{byte_len, extend};
use vstd::prelude::*;
use vstd::slice::slice_subrange;
use vstd::string::*;
use vstd::utf8::*;

verus! {

/// The normalization this build produces. Bump when the rules below change.
pub const DIGEST_VERSION: i32 = 1;

/// Shortest key accepted.
pub const MIN_KEY_LEN: usize = 16;

/// Longest key accepted.
pub const MAX_KEY_LEN: usize = 128;

/// Why a key was not accepted.
#[derive(Debug, Clone, Copy, PartialEq, Eq, Structural)]
pub enum KeyError {
    /// Shorter than the documented minimum.
    TooShort,
    /// Longer than the documented maximum.
    TooLong,
    /// Contains something outside the accepted alphabet.
    BadCharacter,
}

/// A caller's key for one logical mutation.
///
/// Opaque and case-sensitive. The alphabet is narrow so a key cannot carry
/// user text, and therefore cannot leak anything through a log line or an
/// audit record.
#[derive(Debug, PartialEq, Eq, PartialOrd, Ord, Hash)]
pub struct IdempotencyKey(String);

impl Clone for IdempotencyKey {
    fn clone(&self) -> (r: Self)
        ensures
            r == *self,
    {
        IdempotencyKey(self.0.clone())
    }
}

/// Letters, digits, `.`, `_` and `-`.
pub open spec fn key_char(c: char) -> bool {
    ('a' <= c && c <= 'z') || ('A' <= c && c <= 'Z') || ('0' <= c && c <= '9') || c == '.' || c == '_' || c == '-'
}

pub open spec fn key_text(text: Seq<char>) -> bool {
    forall|i: int| 0 <= i < text.len() ==> key_char(#[trigger] text[i])
}

/// Why a key is refused, if it is.
pub open spec fn key_error(text: Seq<char>) -> Option<KeyError> {
    if byte_len(text) < MIN_KEY_LEN {
        Some(KeyError::TooShort)
    } else if byte_len(text) > MAX_KEY_LEN {
        Some(KeyError::TooLong)
    } else if !key_text(text) {
        Some(KeyError::BadCharacter)
    } else {
        None
    }
}

impl View for IdempotencyKey {
    type V = Seq<char>;

    closed spec fn view(&self) -> Seq<char> {
        self.0@
    }
}

impl IdempotencyKey {
    /// Validate a key presented by a caller.
    ///
    /// A refused key is a `400`: the caller can fix it, and retrying unchanged
    /// cannot succeed.
    pub fn parse(value: &str) -> (r: Result<Self, KeyError>)
        ensures
            match r {
                Ok(key) => key@ == value@ && key_error(value@) is None,
                Err(e) => key_error(value@) == Some(e),
            },
    {
        let n: usize = value.as_bytes().len();
        if n < MIN_KEY_LEN {
            return Err(KeyError::TooShort);
        }
        if n > MAX_KEY_LEN {
            return Err(KeyError::TooLong);
        }
        for c in it: value.chars()
            invariant
                it.seq() == value@,
                MIN_KEY_LEN <= byte_len(value@) <= MAX_KEY_LEN,
                forall|j: int| 0 <= j < it.index() ==> key_char(#[trigger] value@[j]),
        {
            if !(('a' <= c && c <= 'z') || ('A' <= c && c <= 'Z') || ('0' <= c && c <= '9') || c == '.' || c == '_'
                || c == '-') {
                assert(!key_char(value@[it.index()]));
                return Err(KeyError::BadCharacter);
            }
        }
        Ok(IdempotencyKey(value.to_owned()))
    }

    /// The key as stored.
    #[must_use]
    pub fn as_str(&self) -> (r: &str)
        ensures
            r@ == self@,
    {
        self.0.as_str()
    }
}

/// A digest of the normalized request a key was first used for.
#[derive(Clone, Copy, PartialEq, Eq)]
pub struct RequestDigest {
    pub bytes: [u8; 32],
}

/// The `i`-th byte of a number, most significant first.
pub open spec fn byte_at(n: u64, i: int) -> u8 {
    ((n >> ((8 * (7 - i)) as u64)) & 0xff) as u8
}

/// Eight bytes, most significant first.
pub open spec fn be_bytes(n: u64) -> Seq<u8> {
    Seq::new(8, |i: int| byte_at(n, i))
}

fn push_be(out: &mut Vec<u8>, n: u64)
    ensures
        final(out)@ == old(out)@ + be_bytes(n),
{
    let mut i: usize = 0;
    let ghost before = out@;
    while i < 8
        invariant
            i <= 8,
            out@ == before + be_bytes(n).take(i as int),
        decreases 8 - i,
    {
        let shift: u64 = (8 * (7 - i)) as u64;
        let b: u8 = ((n >> shift) & 0xff) as u8;
        out.push(b);
        i = i + 1;
        assert(out@ =~= before + be_bytes(n).take(i as int));
    }
    assert(be_bytes(n).take(8) =~= be_bytes(n));
}

/// A part behind its length.
pub open spec fn framed(part: Seq<u8>) -> Seq<u8> {
    be_bytes(part.len() as u64) + part
}

/// What is hashed for a request: method, target and canonical payload, each
/// behind its length, so that the parts cannot be confused for each other.
pub open spec fn preimage(method: Seq<char>, target: Seq<char>, payload: Seq<char>) -> Seq<u8> {
    framed(encode_utf8(method)) + framed(encode_utf8(target)) + framed(encode_utf8(payload))
}

fn push_framed(out: &mut Vec<u8>, part: &[u8])
    ensures
        final(out)@ == old(out)@ + framed(part@),
{
    let ghost before = out@;
    push_be(out, part.len() as u64);
    extend(out, part);
    assert(out@ =~= before + framed(part@));
}

impl RequestDigest {
    /// Compute the digest for a request.
    ///
    /// Covers the method, the canonical resource target, and the validated
    /// payload. Object keys are sorted so field order in the caller's JSON is
    /// not significant; array order and string contents are preserved, because
    /// reordering a command's arguments changes what runs.
    pub fn compute(method: &str, target: &str, payload: &Json) -> (r: Self)
        ensures
            r.bytes == sha256_of(preimage(method@, target@, canonical(*payload))),
    {
        let text: String = canonical_text(payload);
        let mut input: Vec<u8> = Vec::new();
        push_framed(&mut input, method.as_bytes());
        push_framed(&mut input, target.as_bytes());
        push_framed(&mut input, text.as_str().as_bytes());
        assert(input@ =~= preimage(method@, target@, canonical(*payload)));
        RequestDigest { bytes: sha256(input.as_slice()) }
    }

    /// Read a digest back from the database.
    #[must_use]
    pub fn from_bytes(bytes: [u8; 32]) -> (r: Self)
        ensures
            r.bytes == bytes,
    {
        RequestDigest { bytes }
    }

    /// The raw digest, for a `bytea` column.
    #[must_use]
    pub fn as_bytes(&self) -> (r: &[u8; 32])
        ensures
            *r == self.bytes,
    {
        &self.bytes
    }

    /// The form for a log line. Short prefix: enough to correlate two log lines,
    /// not enough to reconstruct a payload by comparing digests against guesses.
    pub fn debug_text(&self) -> (r: String)
        ensures
            r@ == "RequestDigest("@ + hex_text(self.bytes@.take(4)) + ")"@,
    {
        let prefix: &[u8] = slice_subrange(self.bytes.as_slice(), 0, 4);
        let mut out: String = "RequestDigest(".to_owned();
        out.append(hex_encode(prefix).as_str());
        out.append(")");
        assert(prefix@ =~= self.bytes@.take(4));
        out
    }
}

proof fn lemma_be_injective(m: u64, n: u64)
    requires
        be_bytes(m) == be_bytes(n),
    ensures
        m == n,
{
    assert(be_bytes(m)[0] == byte_at(m, 0) && be_bytes(n)[0] == byte_at(n, 0));
    assert(be_bytes(m)[1] == byte_at(m, 1) && be_bytes(n)[1] == byte_at(n, 1));
    assert(be_bytes(m)[2] == byte_at(m, 2) && be_bytes(n)[2] == byte_at(n, 2));
    assert(be_bytes(m)[3] == byte_at(m, 3) && be_bytes(n)[3] == byte_at(n, 3));
    assert(be_bytes(m)[4] == byte_at(m, 4) && be_bytes(n)[4] == byte_at(n, 4));
    assert(be_bytes(m)[5] == byte_at(m, 5) && be_bytes(n)[5] == byte_at(n, 5));
    assert(be_bytes(m)[6] == byte_at(m, 6) && be_bytes(n)[6] == byte_at(n, 6));
    assert(be_bytes(m)[7] == byte_at(m, 7) && be_bytes(n)[7] == byte_at(n, 7));
    assert(m == n) by (bit_vector)
        requires
            ((m >> 56u64) & 0xff) as u8 == ((n >> 56u64) & 0xff) as u8,
            ((m >> 48u64) & 0xff) as u8 == ((n >> 48u64) & 0xff) as u8,
            ((m >> 40u64) & 0xff) as u8 == ((n >> 40u64) & 0xff) as u8,
            ((m >> 32u64) & 0xff) as u8 == ((n >> 32u64) & 0xff) as u8,
            ((m >> 24u64) & 0xff) as u8 == ((n >> 24u64) & 0xff) as u8,
            ((m >> 16u64) & 0xff) as u8 == ((n >> 16u64) & 0xff) as u8,
            ((m >> 8u64) & 0xff) as u8 == ((n >> 8u64) & 0xff) as u8,
            ((m >> 0u64) & 0xff) as u8 == ((n >> 0u64) & 0xff) as u8,
    ;
}

/// The first of several framed parts, and what follows it, can be told apart.
proof fn lemma_framed_prefix(a: Seq<u8>, x: Seq<u8>, b: Seq<u8>, y: Seq<u8>)
    requires
        a.len() <= u64::MAX,
        b.len() <= u64::MAX,
        framed(a) + x == framed(b) + y,
    ensures
        a == b,
        x == y,
{
    let whole = framed(a) + x;
    assert(whole.take(8) =~= be_bytes(a.len() as u64));
    assert((framed(b) + y).take(8) =~= be_bytes(b.len() as u64));
    lemma_be_injective(a.len() as u64, b.len() as u64);
    assert(whole.subrange(8, 8 + a.len() as int) =~= a);
    assert((framed(b) + y).subrange(8, 8 + b.len() as int) =~= b);
    assert(whole.skip(8 + a.len() as int) =~= x);
    assert((framed(b) + y).skip(8 + b.len() as int) =~= y);
}

/// Requests that differ in method, target or canonical payload are hashed as
/// different byte strings: method and target cannot be confused for each other.
pub proof fn preimages_are_unambiguous(
    method: Seq<char>,
    target: Seq<char>,
    payload: Seq<char>,
    other_method: Seq<char>,
    other_target: Seq<char>,
    other_payload: Seq<char>,
)
    requires
        byte_len(method) <= u64::MAX,
        byte_len(target) <= u64::MAX,
        byte_len(payload) <= u64::MAX,
        byte_len(other_method) <= u64::MAX,
        byte_len(other_target) <= u64::MAX,
        byte_len(other_payload) <= u64::MAX,
        preimage(method, target, payload) == preimage(other_method, other_target, other_payload),
    ensures
        method == other_method,
        target == other_target,
        payload == other_payload,
{
    let (m, t, p) = (encode_utf8(method), encode_utf8(target), encode_utf8(payload));
    let (n, u, q) = (encode_utf8(other_method), encode_utf8(other_target), encode_utf8(other_payload));
    assert(preimage(method, target, payload) =~= framed(m) + (framed(t) + (framed(p) + Seq::empty())));
    assert(preimage(other_method, other_target, other_payload) =~= framed(n) + (framed(u) + (framed(q) + Seq::empty())));
    lemma_framed_prefix(m, framed(t) + (framed(p) + Seq::empty()), n, framed(u) + (framed(q) + Seq::empty()));
    lemma_framed_prefix(t, framed(p) + Seq::empty(), u, framed(q) + Seq::empty());
    lemma_framed_prefix(p, Seq::empty(), q, Seq::empty());
    crate::text::lemma_utf8_injective(method, other_method);
    crate::text::lemma_utf8_injective(target, other_target);
    crate::text::lemma_utf8_injective(payload, other_payload);
}

} // verus!
