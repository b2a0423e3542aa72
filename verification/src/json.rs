//! JSON text: numbers, strings, documents and their canonical form.
use crate::ids::{digit_at, hex_digit, hyphenated, id_text, nibble};
use vstd::prelude::*;
use vstd::string::*;
use vstd::utf8::*;

verus! {

/// The decimal numeral of a natural number.
pub open spec fn decimal(n: nat) -> Seq<char>
    decreases n,
{
    if n < 10 {
        seq![hex_digit(n as int)]
    } else {
        decimal(n / 10).push(hex_digit((n % 10) as int))
    }
}

/// The decimal numeral of an integer.
pub open spec fn signed_decimal(n: int) -> Seq<char> {
    if n < 0 {
        "-"@ + decimal((-n) as nat)
    } else {
        decimal(n as nat)
    }
}

fn digit_text(n: u64) -> (r: &'static str)
    requires
        n < 10,
    ensures
        r@ == seq![hex_digit(n as int)],
{
    proof {
        reveal_strlit("0");
        reveal_strlit("1");
        reveal_strlit("2");
        reveal_strlit("3");
        reveal_strlit("4");
        reveal_strlit("5");
        reveal_strlit("6");
        reveal_strlit("7");
        reveal_strlit("8");
        reveal_strlit("9");
    }
    let r: &'static str = match n {
        0 => "0",
        1 => "1",
        2 => "2",
        3 => "3",
        4 => "4",
        5 => "5",
        6 => "6",
        7 => "7",
        8 => "8",
        _ => "9",
    };
    assert(r@ =~= seq![hex_digit(n as int)]);
    r
}

/// The decimal numeral of `n`.
pub fn decimal_text(n: u64) -> (r: String)
    ensures
        r@ == decimal(n as nat),
    decreases n,
{
    if n < 10 {
        digit_text(n).to_owned()
    } else {
        let mut out: String = decimal_text(n / 10);
        out.append(digit_text(n % 10));
        assert(out@ =~= decimal(n as nat));
        out
    }
}

/// The decimal numeral of `n`, with a minus sign where it is negative.
pub fn signed_text(n: i64) -> (r: String)
    ensures
        r@ == signed_decimal(n as int),
{
    if n >= 0 {
        decimal_text(n as u64)
    } else if n == i64::MIN {
        let mut out: String = "-".to_owned();
        out.append(decimal_text(9223372036854775808u64).as_str());
        out
    } else {
        let magnitude: u64 = (-n) as u64;
        let mut out: String = "-".to_owned();
        out.append(decimal_text(magnitude).as_str());
        out
    }
}

/// What a character becomes inside a JSON string.
pub open spec fn escaped_char(c: char) -> Seq<char> {
    if c == '"' {
        seq!['\\', '"']
    } else if c == '\\' {
        seq!['\\', '\\']
    } else if c as u32 == 8 {
        seq!['\\', 'b']
    } else if c as u32 == 9 {
        seq!['\\', 't']
    } else if c as u32 == 10 {
        seq!['\\', 'n']
    } else if c as u32 == 12 {
        seq!['\\', 'f']
    } else if c as u32 == 13 {
        seq!['\\', 'r']
    } else if (c as u32) < 32 {
        seq!['\\', 'u', '0', '0', hex_digit(c as int / 16), hex_digit(c as int % 16)]
    } else {
        seq![c]
    }
}

pub open spec fn escaped(text: Seq<char>) -> Seq<char>
    decreases text.len(),
{
    if text.len() == 0 {
        Seq::empty()
    } else {
        escaped(text.drop_last()) + escaped_char(text.last())
    }
}

/// The JSON string that stands for a text.
pub open spec fn json_string(text: Seq<char>) -> Seq<char> {
    seq!['"'] + escaped(text) + seq!['"']
}

/// `serde_json::to_string` on a string: quoted, with quotes, backslashes and
/// control characters escaped and every other character as it is.
#[verifier::external_body]
pub(crate) fn quoted(text: &str) -> (r: String)
    ensures
        r@ == json_string(text@),
{
    serde_json::to_string(text).unwrap_or_default()
}

/// The JSON string of an identity with the given prefix.
pub open spec fn id_json(prefix: Seq<char>, value: u128) -> Seq<char> {
    json_string(id_text(prefix, value))
}

/// A character that stands for itself inside a JSON string.
pub open spec fn plain_char(c: char) -> bool {
    c != '"' && c != '\\' && c as u32 >= 32
}

/// Text without quotes, backslashes and control characters is only quoted.
pub proof fn plain_text_is_only_quoted(text: Seq<char>)
    requires
        forall|i: int| 0 <= i < text.len() ==> plain_char(#[trigger] text[i]),
    ensures
        escaped(text) == text,
        json_string(text) == seq!['"'] + text + seq!['"'],
    decreases text.len(),
{
    if text.len() > 0 {
        plain_text_is_only_quoted(text.drop_last());
        assert(plain_char(text.last()));
        assert(escaped(text) =~= text);
    }
}


/// Reading an escaped text from its start.
spec fn unescape(t: Seq<char>) -> Seq<char>
    decreases t.len(),
{
    if t.len() == 0 {
        Seq::empty()
    } else if t[0] != '\\' || t.len() < 2 {
        seq![t[0]] + unescape(t.skip(1))
    } else if t[1] == 'u' && t.len() >= 6 {
        seq![control_of(t[4], t[5])] + unescape(t.skip(6))
    } else {
        seq![short_of(t[1])] + unescape(t.skip(2))
    }
}

spec fn control_of(high: char, low: char) -> char {
    let h = if high as int <= 57 { high as int - 48 } else { high as int - 87 };
    let l = if low as int <= 57 { low as int - 48 } else { low as int - 87 };
    (h * 16 + l) as char
}

spec fn short_of(c: char) -> char {
    if c == 'b' {
        8 as char
    } else if c == 't' {
        9 as char
    } else if c == 'n' {
        10 as char
    } else if c == 'f' {
        12 as char
    } else if c == 'r' {
        13 as char
    } else {
        c
    }
}

proof fn lemma_unescape_first(c: char, rest: Seq<char>)
    ensures
        unescape(escaped_char(c) + rest) == seq![c] + unescape(rest),
{
    let e = escaped_char(c);
    let t = e + rest;
    assert(t.skip(e.len() as int) =~= rest);
    assert(t[0] == e[0]);
    if e.len() >= 2 {
        assert(t[1] == e[1]);
    }
    if e.len() == 6 {
        assert(t[4] == e[4] && t[5] == e[5]);
        assert(0 <= c as int / 16 < 2);
        assert(control_of(t[4], t[5]) as int == c as int);
    }
}

/// Escaping from the front: the first character's escape comes first.
proof fn lemma_escaped_front(text: Seq<char>)
    requires
        text.len() > 0,
    ensures
        escaped(text) == escaped_char(text[0]) + escaped(text.skip(1)),
    decreases text.len(),
{
    if text.len() == 1 {
        assert(text.drop_last() =~= Seq::empty());
        assert(text.skip(1) =~= Seq::empty());
        assert(escaped(text) =~= escaped_char(text[0]) + escaped(text.skip(1)));
    } else {
        lemma_escaped_front(text.drop_last());
        assert(text.drop_last().skip(1) =~= text.skip(1).drop_last());
        assert(escaped(text) =~= escaped_char(text[0]) + escaped(text.skip(1)));
    }
}

proof fn lemma_unescape_inverts(text: Seq<char>)
    ensures
        unescape(escaped(text)) == text,
    decreases text.len(),
{
    if text.len() == 0 {
        assert(escaped(text) =~= Seq::empty());
        assert(text =~= Seq::empty());
    } else {
        lemma_escaped_front(text);
        lemma_unescape_inverts(text.skip(1));
        lemma_unescape_first(text[0], escaped(text.skip(1)));
        assert(seq![text[0]] + text.skip(1) =~= text);
    }
}

/// A JSON string stands for one text only.
pub proof fn json_string_is_injective(a: Seq<char>, b: Seq<char>)
    requires
        json_string(a) == json_string(b),
    ensures
        a == b,
{
    assert(json_string(a).subrange(1, json_string(a).len() - 1) =~= escaped(a));
    assert(json_string(b).subrange(1, json_string(b).len() - 1) =~= escaped(b));
    lemma_unescape_inverts(a);
    lemma_unescape_inverts(b);
}

/// ASCII text of at most `n` characters, so of at most `n` bytes.
#[verifier::opaque]
pub open spec fn compact(text: Seq<char>, n: int) -> bool {
    text.len() <= n && is_ascii_chars(text)
}

pub proof fn lemma_compact_bytes(text: Seq<char>, n: int)
    requires
        compact(text, n),
    ensures
        encode_utf8(text).len() <= n,
{
    reveal(compact);
    is_ascii_chars_encode_utf8(text);
}

pub proof fn lemma_compact_cat(a: Seq<char>, n: int, b: Seq<char>, m: int)
    requires
        compact(a, n),
        compact(b, m),
    ensures
        compact(a + b, n + m),
{
    reveal(compact);
    is_ascii_chars_concat(a + b, a, b);
}

pub open spec fn pow10(k: nat) -> nat
    decreases k,
{
    if k == 0 {
        1
    } else {
        10 * pow10((k - 1) as nat)
    }
}

proof fn lemma_decimal_compact(n: nat, k: nat)
    requires
        k > 0,
        n < pow10(k),
    ensures
        compact(decimal(n), k as int),
    decreases k,
{
    reveal(compact);
    if n >= 10 {
        if k == 1 {
            reveal_with_fuel(pow10, 2);
        } else {
            assert(pow10(k) == 10 * pow10((k - 1) as nat));
            lemma_decimal_compact(n / 10, (k - 1) as nat);
        }
    }
}

/// Sixty-four-bit numerals have at most twenty characters, a sign included.
pub proof fn lemma_numeral_compact(n: int)
    requires
        -9223372036854775808 <= n <= 18446744073709551615,
    ensures
        compact(signed_decimal(n), 20),
        n >= 0 ==> compact(decimal(n as nat), 20),
{
    reveal_with_fuel(pow10, 21);
    if n >= 0 {
        lemma_decimal_compact(n as nat, 20);
    } else {
        lemma_decimal_compact((-n) as nat, 19);
        reveal_strlit("-");
        reveal(compact);
        lemma_compact_cat("-"@, 1, decimal((-n) as nat), 19);
    }
}

pub proof fn lemma_byte_numeral_compact(n: u8)
    ensures
        compact(decimal(n as nat), 3),
{
    reveal_with_fuel(pow10, 4);
    lemma_decimal_compact(n as nat, 3);
}

/// The characters of the canonical form of a UUID stand for themselves in JSON.
pub proof fn lemma_hyphenated_plain(v: u128)
    ensures
        forall|i: int| 0 <= i < 36 ==> plain_char(#[trigger] hyphenated(v)[i]) && hyphenated(v)[i] <= '\u{7f}',
{
    assert forall|i: int| 0 <= i < 36 implies plain_char(#[trigger] hyphenated(v)[i]) && hyphenated(v)[i] <= '\u{7f}' by {
        let a = v >> ((4 * (31 - digit_at(i))) as u128);
        assert(a & 0xf < 16) by (bit_vector);
        assert(nibble(v, digit_at(i)) < 16);
    }
}

/// An identity's JSON string is its text between quotes.
pub proof fn lemma_id_json_plain(prefix: Seq<char>, v: u128)
    requires
        forall|i: int| 0 <= i < prefix.len() ==> plain_char(#[trigger] prefix[i]),
    ensures
        id_json(prefix, v) == seq!['"'] + id_text(prefix, v) + seq!['"'],
{
    let t = id_text(prefix, v);
    lemma_hyphenated_plain(v);
    assert forall|i: int| 0 <= i < t.len() implies plain_char(#[trigger] t[i]) by {
        if i < prefix.len() {
            assert(t[i] == prefix[i]);
        } else if i > prefix.len() {
            assert(t[i] == hyphenated(v)[i - prefix.len() - 1]);
        }
    }
    plain_text_is_only_quoted(t);
}

pub proof fn lemma_id_json_compact(prefix: Seq<char>, v: u128)
    requires
        prefix == "hst"@ || prefix == "prj"@ || prefix == "sbx"@ || prefix == "alc"@ || prefix == "op"@,
    ensures
        compact(id_json(prefix, v), 42),
{
    reveal_strlit("hst");
    reveal_strlit("prj");
    reveal_strlit("sbx");
    reveal_strlit("alc");
    reveal_strlit("op");
    assert(forall|i: int| 0 <= i < prefix.len() ==> plain_char(#[trigger] prefix[i]) && prefix[i] <= '\u{7f}');
    lemma_id_json_plain(prefix, v);
    lemma_hyphenated_plain(v);
    reveal(compact);
    let t = id_text(prefix, v);
    assert(compact(prefix.push('_'), 4)) by {
        assert forall|i: int| 0 <= i < prefix.push('_').len() implies '\0' <= #[trigger] prefix.push('_')[i] <= '\u{7f}' by {
            if i < prefix.len() {
                assert(prefix.push('_')[i] == prefix[i]);
            }
        }
    }
    assert(compact(hyphenated(v), 36));
    lemma_compact_cat(prefix.push('_'), 4, hyphenated(v), 36);
    assert(compact(seq!['"'], 1));
    lemma_compact_cat(seq!['"'], 1, t, 40);
    lemma_compact_cat(seq!['"'] + t, 41, seq!['"'], 1);
}

/// The UTF-8 form of joined texts is the joined UTF-8 forms.
pub proof fn lemma_encode_cat(a: Seq<char>, b: Seq<char>)
    ensures
        encode_utf8(a + b) == encode_utf8(a) + encode_utf8(b),
    decreases a.len(),
{
    if a.len() == 0 {
        assert(a + b =~= b);
        assert(encode_utf8(a) + encode_utf8(b) =~= encode_utf8(b));
    } else {
        assert((a + b).drop_first() =~= a.drop_first() + b);
        lemma_encode_cat(a.drop_first(), b);
        let first = encode_scalar(a[0] as u32);
        assert(first + (encode_utf8(a.drop_first()) + encode_utf8(b)) =~= (first + encode_utf8(a.drop_first()))
            + encode_utf8(b));
    }
}

proof fn lemma_escaped_char_bytes(c: char)
    ensures
        encode_utf8(escaped_char(c)).len() <= 6 * encode_utf8(seq![c]).len(),
        encode_utf8(seq![c]).len() >= 1,
{
    assert(seq![c].drop_first() =~= Seq::empty());
    assert(encode_utf8(Seq::<char>::empty()) =~= Seq::empty());
    assert(encode_utf8(seq![c]) =~= encode_scalar(c as u32));
    let e = escaped_char(c);
    if e.len() > 1 {
        if e.len() == 6 {
            assert(0 <= c as int / 16 < 16 && 0 <= c as int % 16 < 16);
        }
        assert(is_ascii_chars(e));
        is_ascii_chars_encode_utf8(e);
    }
}

/// Escaping makes a text at most six times as long.
pub proof fn lemma_escaped_bytes(text: Seq<char>)
    ensures
        encode_utf8(escaped(text)).len() <= 6 * encode_utf8(text).len(),
    decreases text.len(),
{
    if text.len() > 0 {
        let front = text.drop_last();
        let c = text.last();
        lemma_escaped_bytes(front);
        lemma_escaped_char_bytes(c);
        lemma_encode_cat(escaped(front), escaped_char(c));
        assert(text =~= front + seq![c]);
        lemma_encode_cat(front, seq![c]);
    }
}

/// A JSON string takes at most six bytes for each byte of its text, and two
/// quotes.
pub proof fn lemma_json_string_bytes(text: Seq<char>)
    ensures
        encode_utf8(json_string(text)).len() <= 6 * encode_utf8(text).len() + 2,
{
    lemma_escaped_bytes(text);
    lemma_encode_cat(seq!['"'], escaped(text));
    lemma_encode_cat(seq!['"'] + escaped(text), seq!['"']);
    assert(is_ascii_chars(seq!['"']));
    is_ascii_chars_encode_utf8(seq!['"']);
}

} // verus!
