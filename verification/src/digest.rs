//! Hashing, hexadecimal text, constant-time comparison and randomness.
use crate::ids::hex_digit;
use sha2::Digest;
use subtle::ConstantTimeEq;
use vstd::prelude::*;
use vstd::string::*;
use vstd::utf8::*;

verus! {

/// The SHA-256 digest of a byte string.
pub uninterp spec fn sha256_of(bytes: Seq<u8>) -> [u8; 32];

/// `sha2::Sha256::digest`: the digest of the bytes, a function of them alone.
#[verifier::external_body]
pub(crate) fn sha256(bytes: &[u8]) -> (r: [u8; 32])
    ensures
        r == sha256_of(bytes@),
{
    sha2::Sha256::digest(bytes).into()
}

/// Two lowercase hexadecimal digits for each byte, high digit first.
pub open spec fn hex_text(bytes: Seq<u8>) -> Seq<char> {
    Seq::new(
        2 * bytes.len(),
        |i: int|
            if i % 2 == 0 {
                hex_digit(bytes[i / 2] as int / 16)
            } else {
                hex_digit(bytes[i / 2] as int % 16)
            },
    )
}

/// `hex::encode`: lowercase, two digits for each byte.
#[verifier::external_body]
pub(crate) fn hex_encode(bytes: &[u8]) -> (r: String)
    ensures
        r@ == hex_text(bytes@),
{
    hex::encode(bytes)
}

/// The value of a hexadecimal digit of either case, if the byte is one.
pub open spec fn hex_value(b: u8) -> Option<int> {
    if 48 <= b <= 57 {
        Some(b - 48)
    } else if 97 <= b <= 102 {
        Some(b - 87)
    } else if 65 <= b <= 70 {
        Some(b - 55)
    } else {
        None
    }
}

/// The bytes that hexadecimal text of either case stands for, if its length is
/// even and every byte of it is a digit.
pub open spec fn hex_bytes(text: Seq<u8>) -> Option<Seq<u8>> {
    if text.len() % 2 == 0 && forall|i: int| 0 <= i < text.len() ==> hex_value(#[trigger] text[i]) is Some {
        Some(
            Seq::new(
                text.len() / 2,
                |i: int| (hex_value(text[2 * i])->0 * 16 + hex_value(text[2 * i + 1])->0) as u8,
            ),
        )
    } else {
        None
    }
}

/// `hex::decode`: succeeds exactly on an even number of digits of either case,
/// with the byte that each pair stands for.
#[verifier::external_body]
pub(crate) fn hex_decode(text: &str) -> (r: Option<Vec<u8>>)
    ensures
        match r {
            Some(bytes) => hex_bytes(encode_utf8(text@)) == Some(bytes@),
            None => hex_bytes(encode_utf8(text@)) is None,
        },
{
    hex::decode(text).ok()
}

/// `subtle::ConstantTimeEq::ct_eq` on two digests: whether they are equal.
#[verifier::external_body]
pub(crate) fn constant_time_eq(a: &[u8; 32], b: &[u8; 32]) -> (r: bool)
    ensures
        r == (a@ == b@),
{
    a.ct_eq(b).into()
}

/// `getrandom::fill` on a fresh array: what the system's entropy source gives,
/// or `None` where it failed. Of the bytes nothing is promised.
#[verifier::external_body]
pub(crate) fn random_bytes<const N: usize>() -> (r: Option<[u8; N]>) {
    let mut out = [0u8; N];
    getrandom::fill(&mut out).ok()?;
    Some(out)
}

/// Decoding hexadecimal text gives back the bytes it was rendered from.
pub proof fn hex_text_decodes(bytes: Seq<u8>)
    ensures
        hex_bytes(encode_utf8(hex_text(bytes))) == Some(bytes),
        encode_utf8(hex_text(bytes)).len() == 2 * bytes.len(),
{
    let t = hex_text(bytes);
    assert forall|i: int| 0 <= i < t.len() implies (t[i] as u32) < 128 by {
        let b = bytes[i / 2];
        assert(0 <= b as int / 16 < 16);
        assert(0 <= b as int % 16 < 16);
    }
    assert(is_ascii_chars(t));
    is_ascii_chars_encode_utf8(t);
    let u = encode_utf8(t);
    assert forall|i: int| 0 <= i < u.len() implies hex_value(#[trigger] u[i]) == Some(
        if i % 2 == 0 {
            bytes[i / 2] as int / 16
        } else {
            bytes[i / 2] as int % 16
        },
    ) by {
        assert(u[i] == t[i] as u8);
        let b = bytes[i / 2];
        assert(0 <= b as int / 16 < 16);
        assert(0 <= b as int % 16 < 16);
    }
    let d = hex_bytes(u)->0;
    assert forall|i: int| 0 <= i < bytes.len() implies d[i] == bytes[i] by {
        assert((2 * i) / 2 == i && (2 * i) % 2 == 0);
        assert((2 * i + 1) / 2 == i && (2 * i + 1) % 2 == 1);
        assert(hex_value(u[2 * i]) == Some(bytes[i] as int / 16));
        assert(hex_value(u[2 * i + 1]) == Some(bytes[i] as int % 16));
    }
    assert(d =~= bytes);
}

/// Hexadecimal text determines the bytes it was rendered from.
pub proof fn hex_text_is_injective(a: Seq<u8>, b: Seq<u8>)
    requires
        hex_text(a) == hex_text(b),
    ensures
        a == b,
{
    hex_text_decodes(a);
    hex_text_decodes(b);
}

} // verus!
