//! Identities, tokens, keys and images: exactly which texts they are.
use crate::digest::{hex_bytes, hex_text};
use crate::idempotency::{key_char, key_error, key_text, KeyError};
use crate::ids::{
    hex_digit, hyphenated, id_text, nibble, AllocationId, HostId, Id, OperationId, ProjectId, SandboxId, SnapshotId,
};
use crate::images::{accepted_policy_is_bounded, image_digest, policy_check, policy_scan, ImagePolicyError};
use crate::text::{byte_len, lemma_pieces_nonempty, lower_hex, lower_hex_text, pieces};
use crate::token::{token_of, token_reading, TokenParseError};
use vstd::string::*;
use vstd::utf8::*;
use vstd::prelude::*;

verus! {

/// Every resource has a prefix of its own.
pub proof fn resources_have_their_own_prefix()
    ensures
        ProjectId::prefix_text() == "prj"@,
        SandboxId::prefix_text() == "sbx"@,
        OperationId::prefix_text() == "op"@,
        AllocationId::prefix_text() == "alc"@,
        HostId::prefix_text() == "hst"@,
        SnapshotId::prefix_text() == "snp"@,
{
}

/// The public text of an identity is its prefix, an underscore, and the thirty-two
/// lower-case digits of its value from the highest, with hyphens after the eighth, the
/// twelfth, the sixteenth and the twentieth.
pub proof fn identities_are_spelled_out(prefix: Seq<char>, v: u128)
    ensures
        ({
            let t = id_text(prefix, v);
            let n = prefix.len() as int;
            &&& t.len() == n + 37
            &&& t.take(n) == prefix
            &&& t[n] == '_'
            &&& t[n + 9] == '-' && t[n + 14] == '-' && t[n + 19] == '-' && t[n + 24] == '-'
            &&& forall|i: int| 0 <= i < 8 ==> #[trigger] t[n + 1 + i] == hex_digit(nibble(v, i) as int)
            &&& forall|i: int| 8 <= i < 12 ==> #[trigger] t[n + 2 + i] == hex_digit(nibble(v, i) as int)
            &&& forall|i: int| 12 <= i < 16 ==> #[trigger] t[n + 3 + i] == hex_digit(nibble(v, i) as int)
            &&& forall|i: int| 16 <= i < 20 ==> #[trigger] t[n + 4 + i] == hex_digit(nibble(v, i) as int)
            &&& forall|i: int| 20 <= i < 32 ==> #[trigger] t[n + 5 + i] == hex_digit(nibble(v, i) as int)
        }),
{
    let t = id_text(prefix, v);
    let n = prefix.len() as int;
    assert(t.take(n) =~= prefix);
    assert forall|i: int| 0 <= i < 36 implies #[trigger] hyphenated(v)[i] == t[n + 1 + i] by {}
    assert(hyphenated(v)[8] == t[n + 9] && hyphenated(v)[13] == t[n + 14] && hyphenated(v)[18] == t[n + 19]
        && hyphenated(v)[23] == t[n + 24]);
    assert forall|i: int| 0 <= i < 8 implies #[trigger] t[n + 1 + i] == hex_digit(nibble(v, i) as int) by {
        assert(hyphenated(v)[i] == t[n + 1 + i]);
    }
    assert forall|i: int| 8 <= i < 12 implies #[trigger] t[n + 2 + i] == hex_digit(nibble(v, i) as int) by {
        assert(hyphenated(v)[i + 1] == t[n + 1 + (i + 1)]);
    }
    assert forall|i: int| 12 <= i < 16 implies #[trigger] t[n + 3 + i] == hex_digit(nibble(v, i) as int) by {
        assert(hyphenated(v)[i + 2] == t[n + 1 + (i + 2)]);
    }
    assert forall|i: int| 16 <= i < 20 implies #[trigger] t[n + 4 + i] == hex_digit(nibble(v, i) as int) by {
        assert(hyphenated(v)[i + 3] == t[n + 1 + (i + 3)]);
    }
    assert forall|i: int| 20 <= i < 32 implies #[trigger] t[n + 5 + i] == hex_digit(nibble(v, i) as int) by {
        assert(hyphenated(v)[i + 4] == t[n + 1 + (i + 4)]);
    }
}

/// A digit below ten is its numeral, and the others are the letters from a.
pub proof fn digits_are_lower_case(n: int)
    requires
        0 <= n < 16,
    ensures
        n < 10 ==> hex_digit(n) as int == '0' as int + n,
        n >= 10 ==> hex_digit(n) as int == 'a' as int + n - 10,
        lower_hex(hex_digit(n)),
{
}

/// Bytes are spelled with two lower-case digits each, the higher first.
pub proof fn bytes_are_spelled_in_order(bytes: Seq<u8>)
    ensures
        hex_text(bytes).len() == 2 * bytes.len(),
        lower_hex_text(hex_text(bytes)),
        forall|i: int| 0 <= i < bytes.len() ==> #[trigger] hex_text(bytes)[2 * i] == hex_digit(bytes[i] as int / 16),
        forall|i: int| 0 <= i < bytes.len() ==> #[trigger] hex_text(bytes)[2 * i + 1] == hex_digit(bytes[i] as int % 16),
{
    let t = hex_text(bytes);
    assert forall|i: int| 0 <= i < t.len() implies lower_hex(#[trigger] t[i]) by {
        let b = bytes[i / 2] as int;
        if i % 2 == 0 {
            digits_are_lower_case(b / 16);
        } else {
            digits_are_lower_case(b % 16);
        }
    }
    assert forall|i: int| 0 <= i < bytes.len() implies #[trigger] t[2 * i] == hex_digit(bytes[i] as int / 16) by {
        assert((2 * i) / 2 == i && (2 * i) % 2 == 0);
    }
    assert forall|i: int| 0 <= i < bytes.len() implies #[trigger] t[2 * i + 1] == hex_digit(bytes[i] as int % 16) by {
        assert((2 * i + 1) / 2 == i && (2 * i + 1) % 2 == 1);
    }
}

/// The parts with the separator between them.
pub open spec fn joined(parts: Seq<Seq<char>>, separator: char) -> Seq<char>
    decreases parts.len(),
{
    if parts.len() == 0 {
        Seq::empty()
    } else if parts.len() == 1 {
        parts[0]
    } else {
        joined(parts.drop_last(), separator).push(separator) + parts.last()
    }
}

/// The pieces of a text, joined again, are the text.
pub proof fn pieces_join_again(text: Seq<char>, separator: char)
    ensures
        joined(pieces(text, separator), separator) == text,
    decreases text.len(),
{
    if text.len() == 0 {
        assert(text =~= Seq::<char>::empty());
    } else {
        let start = text.drop_last();
        let before = pieces(start, separator);
        pieces_join_again(start, separator);
        lemma_pieces_nonempty(start, separator);
        let all = pieces(text, separator);
        if text.last() == separator {
            assert(all.drop_last() =~= before);
            assert(joined(all, separator) =~= text);
        } else {
            let last = before.last().push(text.last());
            assert(all.drop_last() =~= before.drop_last());
            assert(all.last() == last);
            if before.len() == 1 {
                assert(all[0] == last);
                assert(last =~= text);
            } else {
                assert(joined(all, separator) =~= joined(before.drop_last(), separator).push(separator) + last);
                assert(joined(all, separator) =~= start.push(text.last()));
                assert(start.push(text.last()) =~= text);
            }
        }
    }
}

/// Only a text of the token's own form is a token: hsb, sixteen digits of a key, and
/// sixty-four of a secret, with underscores between them; the key is read as it is
/// spelled and the secret as its bytes.
pub proof fn only_written_tokens_are_read(text: Seq<char>, key: Seq<char>, secret: Seq<u8>)
    requires
        token_reading(text) == Ok::<(Seq<char>, Seq<u8>), TokenParseError>((key, secret)),
    ensures
        byte_len(key) == 16,
        hex_bytes(encode_utf8(key)) is Some,
        secret.len() == 32,
        exists|digits: Seq<char>| byte_len(digits) == 64 && hex_bytes(encode_utf8(digits)) == Some(secret) && text
            == #[trigger] token_of(key, digits),
{
    let parts = pieces(text, '_');
    pieces_join_again(text, '_');
    let digits = parts[2];
    let two = parts.drop_last();
    let one = two.drop_last();
    assert(two.len() == 2 && one.len() == 1);
    assert(two[0] == parts[0] && two.last() == parts[1] && one[0] == parts[0]);
    assert(parts.last() == digits);
    assert(joined(one, '_') == parts[0]);
    assert(joined(two, '_') == parts[0].push('_') + parts[1]);
    assert(joined(parts, '_') == (parts[0].push('_') + parts[1]).push('_') + digits);
    reveal_strlit("hsb");
    reveal_strlit("hsb_");
    reveal_strlit("_");
    assert("hsb_"@ =~= "hsb"@.push('_'));
    assert(token_of(key, digits) =~= text);
}

/// An idempotency key is sixteen to a hundred and twenty-eight letters, digits, dots,
/// underscores and hyphens; a text that is not is refused for the first reason.
pub proof fn keys_are_plain_and_bounded(text: Seq<char>)
    ensures
        ({
            let plain = forall|i: int| 0 <= i < text.len() ==> {
                let c = #[trigger] text[i];
                ('a' <= c <= 'z') || ('A' <= c <= 'Z') || ('0' <= c <= '9') || c == '.' || c == '_' || c == '-'
            };
            &&& key_error(text) is None <==> 16 <= byte_len(text) <= 128 && plain
            &&& byte_len(text) < 16 <==> key_error(text) == Some(KeyError::TooShort)
            &&& byte_len(text) > 128 <==> key_error(text) == Some(KeyError::TooLong)
            &&& 16 <= byte_len(text) <= 128 && !plain <==> key_error(text) == Some(KeyError::BadCharacter)
        }),
{
    if key_text(text) {
        assert forall|i: int| 0 <= i < text.len() implies {
            let c = #[trigger] text[i];
            ('a' <= c <= 'z') || ('A' <= c <= 'Z') || ('0' <= c <= '9') || c == '.' || c == '_' || c == '-'
        } by {
            assert(key_char(text[i]));
        }
    }
}

/// An image is named by sha256, a colon and sixty-four lower-case digits.
pub proof fn images_are_named_by_their_digest(text: Seq<char>)
    ensures
        image_digest(text) <==> text.len() == 71 && text.take(7) == "sha256:"@ && forall|i: int|
            7 <= i < 71 ==> (('0' <= #[trigger] text[i] <= '9') || ('a' <= text[i] <= 'f')),
{
    let rest = text.skip(7);
    if image_digest(text) {
        assert forall|i: int| 7 <= i < 71 implies (('0' <= #[trigger] text[i] <= '9') || ('a' <= text[i] <= 'f')) by {
            assert(lower_hex(rest[i - 7]));
        }
    }
    if text.len() == 71 && forall|i: int| 7 <= i < 71 ==> (('0' <= #[trigger] text[i] <= '9') || ('a' <= text[i]
        <= 'f')) {
        assert forall|i: int| 0 <= i < rest.len() implies lower_hex(#[trigger] rest[i]) by {
            assert(rest[i] == text[i + 7]);
        }
    }
}

proof fn lemma_policy_scan(digests: Seq<Seq<char>>)
    requires
        digests.len() <= 256,
        forall|i: int| 0 <= i < digests.len() ==> image_digest(#[trigger] digests[i]),
        digests.no_duplicates(),
    ensures
        policy_scan(digests) is Ok,
    decreases digests.len(),
{
    if digests.len() > 0 {
        let before = digests.drop_last();
        assert forall|i: int| 0 <= i < before.len() implies image_digest(#[trigger] before[i]) by {
            assert(before[i] == digests[i]);
        }
        lemma_policy_scan(before);
        let n = digests.len() - 1;
        assert(digests.last() == digests[n]);
        if before.contains(digests.last()) {
            let i = choose|i: int| 0 <= i < before.len() && before[i] == digests.last();
            assert(digests[i] == digests[n]);
        }
    }
}

/// An image policy is accepted exactly where it names one to 256 images, each once.
pub proof fn policies_name_each_image_once(digests: Seq<Seq<char>>)
    ensures
        policy_check(digests) is Ok <==> 1 <= digests.len() <= 256 && (forall|i: int|
            0 <= i < digests.len() ==> image_digest(#[trigger] digests[i])) && digests.no_duplicates(),
        digests.len() == 0 ==> policy_check(digests) == Err::<(), ImagePolicyError>(ImagePolicyError::Size),
{
    if policy_check(digests) is Ok {
        accepted_policy_is_bounded(digests);
    }
    if 1 <= digests.len() <= 256 && (forall|i: int| 0 <= i < digests.len() ==> image_digest(#[trigger] digests[i]))
        && digests.no_duplicates() {
        lemma_policy_scan(digests);
    }
}

/// An image that is added to an accepted policy is refused for the first of these
/// reasons: the policy is full, it is no image, and it is named already.
pub proof fn added_images_are_refused_for_their_reason(before: Seq<Seq<char>>, digest: Seq<char>)
    requires
        policy_check(before) is Ok,
    ensures
        ({
            let r = policy_check(before.push(digest));
            &&& before.len() == 256 <==> r == Err::<(), ImagePolicyError>(ImagePolicyError::Size)
            &&& before.len() < 256 && !image_digest(digest) <==> r == Err::<(), ImagePolicyError>(
                ImagePolicyError::Digest,
            )
            &&& before.len() < 256 && image_digest(digest) && before.contains(digest) <==> r == Err::<
                (),
                ImagePolicyError,
            >(ImagePolicyError::Duplicate)
        }),
{
    accepted_policy_is_bounded(before);
    assert(before.push(digest).drop_last() =~= before);
    assert(before.push(digest).last() == digest);
}

} // verus!
