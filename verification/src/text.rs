//! Text predicates and splitting shared by the parsers and renderers.
use vstd::prelude::*;
use vstd::string::*;
use vstd::utf8::*;

verus! {

/// Length in bytes of the UTF-8 form of a text.
pub open spec fn byte_len(text: Seq<char>) -> nat {
    encode_utf8(text).len()
}

/// The length in bytes of `value`.
pub fn byte_length(value: &str) -> (n: usize)
    ensures
        n == byte_len(value@),
{
    value.as_bytes().len()
}

/// Texts with the same UTF-8 form are the same text.
pub proof fn lemma_utf8_injective(a: Seq<char>, b: Seq<char>)
    requires
        encode_utf8(a) == encode_utf8(b),
    ensures
        a == b,
{
    encode_utf8_decode_utf8(a);
    encode_utf8_decode_utf8(b);
}

/// Text equality.
pub fn same_text(a: &str, b: &str) -> (r: bool)
    ensures
        r == (a@ == b@),
{
    let x: &[u8] = a.as_bytes();
    let y: &[u8] = b.as_bytes();
    if x.len() != y.len() {
        return false;
    }
    let mut i: usize = 0;
    while i < x.len()
        invariant
            i <= x@.len(),
            x@.len() == y@.len(),
            x@ == encode_utf8(a@),
            y@ == encode_utf8(b@),
            forall|j: int| 0 <= j < i ==> x@[j] == y@[j],
        decreases x@.len() - i,
    {
        if x[i] != y[i] {
            return false;
        }
        i = i + 1;
    }
    proof {
        assert(x@ =~= y@);
        lemma_utf8_injective(a@, b@);
    }
    true
}

pub open spec fn lower_hex(c: char) -> bool {
    ('0' <= c && c <= '9') || ('a' <= c && c <= 'f')
}

/// Every character is a lowercase hexadecimal digit.
pub open spec fn lower_hex_text(text: Seq<char>) -> bool {
    forall|i: int| 0 <= i < text.len() ==> lower_hex(#[trigger] text[i])
}

pub fn is_lower_hex(value: &str) -> (r: bool)
    ensures
        r == lower_hex_text(value@),
{
    for c in it: value.chars()
        invariant
            it.seq() == value@,
            forall|j: int| 0 <= j < it.index() ==> lower_hex(#[trigger] value@[j]),
    {
        if !(('0' <= c && c <= '9') || ('a' <= c && c <= 'f')) {
            assert(!lower_hex(value@[it.index()]));
            return false;
        }
    }
    true
}

/// The pieces of `text` between occurrences of `separator`, first to last.
pub open spec fn pieces(text: Seq<char>, separator: char) -> Seq<Seq<char>>
    decreases text.len(),
{
    if text.len() == 0 {
        seq![Seq::<char>::empty()]
    } else {
        let before = pieces(text.drop_last(), separator);
        if text.last() == separator {
            before.push(Seq::<char>::empty())
        } else {
            before.drop_last().push(before.last().push(text.last()))
        }
    }
}

pub proof fn lemma_pieces_nonempty(text: Seq<char>, separator: char)
    ensures
        pieces(text, separator).len() > 0,
    decreases text.len(),
{
    if text.len() > 0 {
        lemma_pieces_nonempty(text.drop_last(), separator);
    }
}

/// The views of owned strings.
pub open spec fn texts(values: Seq<String>) -> Seq<Seq<char>> {
    values.map_values(|s: String| s@)
}

/// Split at every occurrence of `separator`.
pub fn split(value: &str, separator: char) -> (r: Vec<String>)
    ensures
        texts(r@) == pieces(value@, separator),
{
    let mut out: Vec<String> = Vec::new();
    let n: usize = value.unicode_len();
    let mut i: usize = 0;
    let mut start: usize = 0;
    assert(value@.take(0) =~= Seq::<char>::empty());
    for c in it: value.chars()
        invariant
            it.seq() == value@,
            it.index() == i,
            n == value@.len(),
            start <= i <= n,
            pieces(value@.take(i as int), separator).len() == out@.len() + 1,
            texts(out@) == pieces(value@.take(i as int), separator).drop_last(),
            value@.subrange(start as int, i as int) == pieces(value@.take(i as int), separator).last(),
    {
        proof {
            assert(value@.take(i + 1).drop_last() =~= value@.take(i as int));
            assert(value@.take(i + 1).last() == c);
            lemma_pieces_nonempty(value@.take(i as int), separator);
        }
        if c == separator {
            let piece: &str = value.substring_char(start, i);
            let ghost before = out@;
            out.push(piece.to_owned());
            start = i + 1;
            proof {
                assert(texts(out@) =~= texts(before).push(piece@));
                assert(texts(out@) =~= pieces(value@.take(i as int), separator));
                assert(value@.subrange(start as int, i + 1) =~= Seq::<char>::empty());
            }
        } else {
            proof {
                assert(value@.subrange(start as int, i + 1) =~= value@.subrange(start as int, i as int).push(c));
            }
        }
        i = i + 1;
    }
    let piece: &str = value.substring_char(start, i);
    let ghost before = out@;
    out.push(piece.to_owned());
    proof {
        assert(value@.take(i as int) =~= value@);
        assert(texts(out@) =~= texts(before).push(piece@));
        assert(texts(out@) =~= pieces(value@, separator));
    }
    out
}

/// Text without the separator is one piece.
pub proof fn lemma_single_piece(text: Seq<char>, separator: char)
    requires
        !text.contains(separator),
    ensures
        pieces(text, separator) == seq![text],
    decreases text.len(),
{
    if text.len() > 0 {
        let front = text.drop_last();
        assert forall|c: char| front.contains(c) implies text.contains(c) by {
            let i = choose|i: int| 0 <= i < front.len() && front[i] == c;
            assert(text[i] == c);
        }
        lemma_single_piece(front, separator);
        assert(text.contains(text.last())) by {
            assert(text[text.len() - 1] == text.last());
        }
        assert(front.push(text.last()) =~= text);
        assert(pieces(text, separator) =~= seq![text]);
    } else {
        assert(text =~= Seq::empty());
    }
}

/// A separator parts the pieces before it from those after it.
pub proof fn lemma_pieces_joined(before: Seq<char>, separator: char, after: Seq<char>)
    ensures
        pieces(before.push(separator) + after, separator) == pieces(before, separator) + pieces(after, separator),
    decreases after.len(),
{
    let whole = before.push(separator) + after;
    if after.len() == 0 {
        assert(after =~= Seq::empty());
        assert(whole =~= before.push(separator));
        assert(whole.drop_last() =~= before);
        assert(pieces(whole, separator) =~= pieces(before, separator) + pieces(after, separator));
    } else {
        lemma_pieces_joined(before, separator, after.drop_last());
        lemma_pieces_nonempty(after.drop_last(), separator);
        assert(whole.drop_last() =~= before.push(separator) + after.drop_last());
        assert(whole.last() == after.last());
        assert(pieces(whole, separator) =~= pieces(before, separator) + pieces(after, separator));
    }
}

/// An underscore in a text is an underscore byte in its UTF-8 form.
pub proof fn lemma_underscore_byte(text: Seq<char>)
    requires
        text.contains('_'),
    ensures
        encode_utf8(text).contains(0x5fu8),
    decreases text.len(),
{
    let i = choose|i: int| 0 <= i < text.len() && text[i] == '_';
    let first = encode_scalar(text[0] as u32);
    let rest = encode_utf8(text.drop_first());
    assert(encode_utf8(text) =~= first + rest);
    if i == 0 {
        let c: u32 = 0x5f;
        assert(leading_byte_width_1(c) == 0x5fu8) by (bit_vector)
            requires
                c == 0x5f,
        ;
        assert(first[0] == 0x5fu8);
        assert(encode_utf8(text)[0] == 0x5fu8);
    } else {
        assert(text.drop_first()[i - 1] == '_');
        lemma_underscore_byte(text.drop_first());
        let j = choose|j: int| 0 <= j < rest.len() && rest[j] == 0x5fu8;
        assert(encode_utf8(text)[first.len() + j] == 0x5fu8);
    }
}

/// A control character: the C0 and C1 ranges and delete.
pub open spec fn control(c: char) -> bool {
    c < ' ' || ('\u{7f}' <= c && c <= '\u{9f}')
}

pub open spec fn has_control(text: Seq<char>) -> bool {
    exists|i: int| 0 <= i < text.len() && control(#[trigger] text[i])
}

pub fn contains_control(value: &str) -> (r: bool)
    ensures
        r == has_control(value@),
{
    for c in it: value.chars()
        invariant
            it.seq() == value@,
            forall|j: int| 0 <= j < it.index() ==> !control(#[trigger] value@[j]),
    {
        if c < ' ' || ('\u{7f}' <= c && c <= '\u{9f}') {
            assert(control(value@[it.index()]));
            return true;
        }
    }
    false
}

/// A boot or storage identity: present, bounded in bytes, without control
/// characters.
pub open spec fn bounded_identity(text: Seq<char>, limit: int) -> bool {
    text.len() > 0 && byte_len(text) <= limit && !has_control(text)
}

pub fn is_bounded_identity(value: &str, limit: usize) -> (r: bool)
    ensures
        r == bounded_identity(value@, limit as int),
{
    !value.is_empty() && byte_length(value) <= limit && !contains_control(value)
}

/// A text as Rust's debug formatting of strings writes it.
pub uninterp spec fn debug_quoted(text: Seq<char>) -> Seq<char>;

/// The standard library's debug formatting of a string: quoted, with characters
/// escaped. Its exact escapes are left unsaid.
#[verifier::external_body]
pub(crate) fn debug_quote(text: &str) -> (r: String)
    ensures
        r@ == debug_quoted(text@),
{
    format!("{text:?}")
}

/// Append a byte string.
pub(crate) fn extend(out: &mut Vec<u8>, part: &[u8])
    ensures
        final(out)@ == old(out)@ + part@,
{
    let ghost before = out@;
    let mut i: usize = 0;
    while i < part.len()
        invariant
            i <= part@.len(),
            out@ == before + part@.take(i as int),
        decreases part@.len() - i,
    {
        out.push(part[i]);
        i = i + 1;
        assert(out@ =~= before + part@.take(i as int));
    }
    assert(part@.take(i as int) =~= part@);
}

} // verus!
