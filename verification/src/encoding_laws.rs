//! Encodings that digests are taken of tell their values apart: whatever is
//! bound by a digest is bound field by field.
use crate::allocation_authority::{byte_list, bytes_json, permit_json, Permit};
use crate::allocation_retirement::{
    bool_json, closure_json, forget_bytes, forget_json, forget_shape, intent_bytes, intent_json, intent_valid,
    request_bytes, request_json, same_intent, same_request, valid_forget_request_encodes, valid_intent_encodes,
    valid_request_encodes, DomainClosure, ForgetRequest, Intent, Request,
};
use crate::document::{lemma_decimal_digits, numerals_are_distinct};
use crate::file_downloads::ReadScope;
use crate::file_sources::{same_source_plan, scope_json, source_plan_json, SourcePlan};
use crate::files::{same_upload, upload_json, upload_preimage, Upload};
use crate::guest_wire::lemma_id_text_injective;
use crate::ids::{digit_at, hex_digit, hyphenated, id_text, nibble};
use crate::json::{
    decimal, escaped, escaped_char, id_json, json_string, json_string_is_injective, lemma_id_json_plain, plain_char,
    signed_decimal,
};
use crate::output::{output_name_text, owner_json, plan_json, same_owner, same_plan, OutputName, OutputOwner, OutputPlan};
use crate::text::lemma_utf8_injective;
use vstd::prelude::*;
use vstd::string::*;
use vstd::utf8::*;

verus! {

pub(crate) proof fn lemma_join(x: Seq<char>, p: Seq<char>, s: Seq<char>)
    ensures
        x + (p + s) == (x + p) + s,
{
    assert(x + (p + s) =~= (x + p) + s);
}

/// Two texts that end in parts of the same length are the same before and in
/// those parts.
pub(crate) proof fn lemma_cut_length(x: Seq<char>, s: Seq<char>, y: Seq<char>, t: Seq<char>)
    requires
        x + s == y + t,
        s.len() == t.len(),
    ensures
        x == y,
        s == t,
{
    let n = x.len() as int;
    assert((x + s).len() == x.len() + s.len());
    assert((y + t).len() == y.len() + t.len());
    assert(x =~= (x + s).take(n));
    assert(y =~= (y + t).take(n));
    assert(s =~= (x + s).skip(n));
    assert(t =~= (y + t).skip(n));
}

/// Two texts whose last parts begin with a mark that occurs in them only there
/// are the same before and in those parts.
pub(crate) proof fn lemma_cut_mark(x: Seq<char>, s: Seq<char>, y: Seq<char>, t: Seq<char>, mark: char)
    requires
        x + s == y + t,
        s.len() > 0 && t.len() > 0,
        s[0] == mark && t[0] == mark,
        forall|i: int| 0 < i < s.len() ==> #[trigger] s[i] != mark,
        forall|i: int| 0 < i < t.len() ==> #[trigger] t[i] != mark,
    ensures
        x == y,
        s == t,
{
    let whole = x + s;
    assert(whole.len() == x.len() + s.len());
    assert(whole.len() == (y + t).len() == y.len() + t.len());
    if x.len() < y.len() {
        let i = y.len() - x.len();
        assert(whole[y.len() as int] == s[i]);
        assert((y + t)[y.len() as int] == t[0]);
    } else if y.len() < x.len() {
        let i = x.len() - y.len();
        assert((y + t)[x.len() as int] == t[i]);
        assert(whole[x.len() as int] == s[0]);
    } else {
        lemma_cut_length(x, s, y, t);
    }
}

pub(crate) proof fn lemma_cut_literal(x: Seq<char>, p: Seq<char>, l: Seq<char>, y: Seq<char>, q: Seq<char>)
    requires
        x + (p + l) == y + (q + l),
    ensures
        x + p == y + q,
{
    lemma_join(x, p, l);
    lemma_join(y, q, l);
    lemma_cut_length(x + p, l, y + q, l);
}

pub(crate) proof fn lemma_cut_id(x: Seq<char>, p: Seq<char>, v: u128, y: Seq<char>, q: Seq<char>, w: u128, prefix: Seq<char>)
    requires
        x + (p + id_json(prefix, v)) == y + (q + id_json(prefix, w)),
        prefix == "hst"@ || prefix == "prj"@ || prefix == "sbx"@ || prefix == "alc"@ || prefix == "op"@,
    ensures
        x + p == y + q,
        v == w,
{
    reveal_strlit("hst");
    reveal_strlit("prj");
    reveal_strlit("sbx");
    reveal_strlit("alc");
    reveal_strlit("op");
    assert(forall|i: int| 0 <= i < prefix.len() ==> plain_char(#[trigger] prefix[i]));
    lemma_id_json_plain(prefix, v);
    lemma_id_json_plain(prefix, w);
    lemma_join(x, p, id_json(prefix, v));
    lemma_join(y, q, id_json(prefix, w));
    assert(id_text(prefix, v).len() == id_text(prefix, w).len());
    lemma_cut_length(x + p, id_json(prefix, v), y + q, id_json(prefix, w));
    json_string_is_injective(id_text(prefix, v), id_text(prefix, w));
    lemma_id_text_injective(prefix, v, w);
}

/// A numeral holds digits, and a sign in front where it is negative.
pub(crate) proof fn lemma_numeral_characters(n: int)
    ensures
        forall|i: int|
            0 <= i < signed_decimal(n).len() ==> '0' <= #[trigger] signed_decimal(n)[i] <= '9' || signed_decimal(n)[i] == '-',
{
    reveal_strlit("-");
    lemma_decimal_digits(if n < 0 { (-n) as nat } else { n as nat });
    if n < 0 {
        assert forall|i: int| 0 <= i < signed_decimal(n).len() implies '0' <= #[trigger] signed_decimal(n)[i] <= '9'
            || signed_decimal(n)[i] == '-' by {
            if i > 0 {
                assert(signed_decimal(n)[i] == decimal((-n) as nat)[i - 1]);
            }
        }
    }
}

/// Numerals that follow a colon.
pub(crate) proof fn lemma_cut_number(x: Seq<char>, p: Seq<char>, m: int, y: Seq<char>, q: Seq<char>, n: int)
    requires
        x + (p + signed_decimal(m)) == y + (q + signed_decimal(n)),
        p.len() > 0 && p.last() == ':',
        q.len() > 0 && q.last() == ':',
    ensures
        x + p == y + q,
        m == n,
{
    lemma_numeral_characters(m);
    lemma_numeral_characters(n);
    let s = seq![':'] + signed_decimal(m);
    let t = seq![':'] + signed_decimal(n);
    assert(x + (p + signed_decimal(m)) =~= (x + p.drop_last()) + s);
    assert(y + (q + signed_decimal(n)) =~= (y + q.drop_last()) + t);
    lemma_cut_mark(x + p.drop_last(), s, y + q.drop_last(), t, ':');
    assert(x + p =~= (x + p.drop_last()) + seq![':']);
    assert(y + q =~= (y + q.drop_last()) + seq![':']);
    assert(s.skip(1) =~= signed_decimal(m));
    assert(t.skip(1) =~= signed_decimal(n));
    numerals_are_distinct(m, n);
}

proof fn lemma_escape_quote(c: char, k: int)
    requires
        0 <= k < escaped_char(c).len(),
        escaped_char(c)[k] == '"',
    ensures
        k == 1 && escaped_char(c)[0] == '\\',
{
    if escaped_char(c).len() == 6 {
        assert(0 <= c as int / 16 < 2);
        assert(hex_digit(c as int / 16) != '"');
        assert(hex_digit(c as int % 16) != '"');
    }
}

/// Inside an escaped text a quote is never first and always follows a backslash.
proof fn lemma_escaped_quotes(text: Seq<char>)
    ensures
        forall|i: int|
            0 <= i < escaped(text).len() && #[trigger] escaped(text)[i] == '"' ==> i > 0 && escaped(text)[i - 1] == '\\',
    decreases text.len(),
{
    if text.len() > 0 {
        let front = escaped(text.drop_last());
        let c = text.last();
        let e = escaped_char(c);
        lemma_escaped_quotes(text.drop_last());
        assert(escaped(text) == front + e);
        assert forall|i: int| 0 <= i < escaped(text).len() && #[trigger] escaped(text)[i] == '"' implies i > 0 && escaped(
            text,
        )[i - 1] == '\\' by {
            if i < front.len() {
                assert(escaped(text)[i] == front[i]);
                assert(escaped(text)[i - 1] == front[i - 1]);
            } else {
                let k = i - front.len();
                assert(escaped(text)[i] == e[k]);
                lemma_escape_quote(c, k);
                assert(escaped(text)[i - 1] == e[0]);
            }
        }
    }
}

/// The opening quote of a string is found from its end, unless a backslash stands
/// before it.
pub(crate) proof fn lemma_opening_quote(x: Seq<char>, a: Seq<char>, y: Seq<char>, b: Seq<char>)
    requires
        x + json_string(a) == y + json_string(b),
        y.len() > 0 && y.last() != '\\',
    ensures
        x.len() >= y.len(),
{
    if x.len() < y.len() {
        let whole = x + json_string(a);
        lemma_escaped_quotes(a);
        let i = y.len() - x.len() - 1;
        assert(whole[y.len() as int] == json_string(b)[0]);
        assert(whole[y.len() - 1] == y[y.len() - 1]);
        assert(whole.len() >= y.len() + 2);
        assert(i < escaped(a).len());
        assert(whole[y.len() as int] == escaped(a)[i]);
        assert(escaped(a)[i] == '"');
        assert(i > 0 && escaped(a)[i - 1] == '\\');
        assert(whole[y.len() - 1] == escaped(a)[i - 1]);
    }
}

/// Strings that follow a colon.
pub(crate) proof fn lemma_cut_string(x: Seq<char>, p: Seq<char>, a: Seq<char>, y: Seq<char>, q: Seq<char>, b: Seq<char>)
    requires
        x + (p + json_string(a)) == y + (q + json_string(b)),
        p.len() > 0 && p.last() == ':',
        q.len() > 0 && q.last() == ':',
    ensures
        x + p == y + q,
        a == b,
{
    lemma_join(x, p, json_string(a));
    lemma_join(y, q, json_string(b));
    assert((x + p).last() == ':' && (y + q).last() == ':');
    lemma_opening_quote(x + p, a, y + q, b);
    lemma_opening_quote(y + q, b, x + p, a);
    assert((x + p + json_string(a)).len() == (y + q + json_string(b)).len());
    lemma_cut_length(x + p, json_string(a), y + q, json_string(b));
    json_string_is_injective(a, b);
}

pub(crate) proof fn lemma_cut_bool(x: Seq<char>, p: Seq<char>, a: bool, y: Seq<char>, q: Seq<char>, b: bool)
    requires
        x + (p + bool_json(a)) == y + (q + bool_json(b)),
    ensures
        x + p == y + q,
        a == b,
{
    reveal_strlit("true");
    reveal_strlit("false");
    lemma_join(x, p, bool_json(a));
    lemma_join(y, q, bool_json(b));
    let whole = x + p + bool_json(a);
    assert(whole[whole.len() - 2] == bool_json(a)[bool_json(a).len() - 2]);
    assert((y + q + bool_json(b))[whole.len() - 2] == bool_json(b)[bool_json(b).len() - 2]);
    lemma_cut_length(x + p, bool_json(a), y + q, bool_json(b));
}

proof fn lemma_byte_list_shape(bytes: Seq<u8>)
    ensures
        bytes.len() > 0 <==> byte_list(bytes).len() > 0,
        forall|i: int|
            0 <= i < byte_list(bytes).len() ==> '0' <= #[trigger] byte_list(bytes)[i] <= '9' || byte_list(bytes)[i] == ',',
    decreases bytes.len(),
{
    if bytes.len() > 0 {
        let front = byte_list(bytes.drop_last());
        let digits = decimal(bytes.last() as nat);
        lemma_byte_list_shape(bytes.drop_last());
        lemma_decimal_digits(bytes.last() as nat);
        reveal_strlit(",");
        assert forall|i: int| 0 <= i < byte_list(bytes).len() implies '0' <= #[trigger] byte_list(bytes)[i] <= '9'
            || byte_list(bytes)[i] == ',' by {
            if bytes.len() > 1 {
                assert(byte_list(bytes) == front + ","@ + digits);
                if i < front.len() {
                    assert(byte_list(bytes)[i] == front[i]);
                } else if i > front.len() {
                    assert(byte_list(bytes)[i] == digits[i - front.len() - 1]);
                }
            }
        }
    }
}

proof fn lemma_byte_lists_apart(a: Seq<u8>, b: Seq<u8>)
    requires
        byte_list(a) == byte_list(b),
    ensures
        a == b,
    decreases a.len(),
{
    lemma_byte_list_shape(a);
    lemma_byte_list_shape(b);
    if a.len() == 0 {
        assert(a =~= b);
    } else {
        let m = decimal(a.last() as nat);
        let n = decimal(b.last() as nat);
        lemma_decimal_digits(a.last() as nat);
        lemma_decimal_digits(b.last() as nat);
        reveal_strlit(",");
        lemma_byte_list_shape(a.drop_last());
        lemma_byte_list_shape(b.drop_last());
        let s = seq![','] + m;
        let t = seq![','] + n;
        // A comma in front of the first number as well makes both cases one.
        let front_a = if a.len() == 1 { Seq::<char>::empty() } else { byte_list(a.drop_last()) };
        let front_b = if b.len() == 1 { Seq::<char>::empty() } else { byte_list(b.drop_last()) };
        if a.len() == 1 && b.len() > 1 {
            assert(byte_list(b)[front_b.len() as int] == ',');
            assert(byte_list(a)[front_b.len() as int] == m[front_b.len() as int]);
        } else if a.len() > 1 && b.len() == 1 {
            assert(byte_list(a)[front_a.len() as int] == ',');
            assert(byte_list(b)[front_a.len() as int] == n[front_a.len() as int]);
        } else {
            if a.len() == 1 {
                assert(front_a + s =~= seq![','] + byte_list(a));
                assert(front_b + t =~= seq![','] + byte_list(b));
            } else {
                assert(front_a + s =~= byte_list(a));
                assert(front_b + t =~= byte_list(b));
            }
            lemma_cut_mark(front_a, s, front_b, t, ',');
            assert(s.skip(1) =~= m);
            assert(t.skip(1) =~= n);
            numerals_are_distinct(a.last() as int, b.last() as int);
            if a.len() > 1 {
                lemma_byte_lists_apart(a.drop_last(), b.drop_last());
            } else {
                assert(a.drop_last() =~= b.drop_last());
            }
            assert(a =~= a.drop_last().push(a.last()));
            assert(b =~= b.drop_last().push(b.last()));
        }
    }
}

pub(crate) proof fn lemma_cut_bytes(x: Seq<char>, p: Seq<char>, a: Seq<u8>, y: Seq<char>, q: Seq<char>, b: Seq<u8>)
    requires
        x + (p + bytes_json(a)) == y + (q + bytes_json(b)),
    ensures
        x + p == y + q,
        a == b,
{
    reveal(bytes_json);
    reveal_strlit("[");
    reveal_strlit("]");
    lemma_join(x, p, bytes_json(a));
    lemma_join(y, q, bytes_json(b));
    lemma_byte_list_shape(a);
    lemma_byte_list_shape(b);
    let s = bytes_json(a);
    let t = bytes_json(b);
    assert forall|i: int| 0 < i < s.len() implies #[trigger] s[i] != '[' by {
        if i < s.len() - 1 {
            assert(s[i] == byte_list(a)[i - 1]);
        }
    }
    assert forall|i: int| 0 < i < t.len() implies #[trigger] t[i] != '[' by {
        if i < t.len() - 1 {
            assert(t[i] == byte_list(b)[i - 1]);
        }
    }
    lemma_cut_mark(x + p, s, y + q, t, '[');
    assert(s.subrange(1, s.len() - 1) =~= byte_list(a));
    assert(t.subrange(1, t.len() - 1) =~= byte_list(b));
    lemma_byte_lists_apart(a, b);
}

pub(crate) proof fn lemma_cut_permit(x: Seq<char>, a: Permit, y: Seq<char>, b: Permit)
    requires
        x + permit_json(a) == y + permit_json(b),
    ensures
        x == y,
        a == b,
{
    reveal(permit_json);
    let p0 = "{\"host\":"@;
    let p1 = p0 + id_json("hst"@, a.host.value);
    let q0 = "{\"host\":"@;
    let q1 = q0 + id_json("hst"@, b.host.value);
    let p2 = p1 + ",\"project\":"@;
    let p3 = p2 + id_json("prj"@, a.project.value);
    let q2 = q1 + ",\"project\":"@;
    let q3 = q2 + id_json("prj"@, b.project.value);
    let p4 = p3 + ",\"sandbox\":"@;
    let p5 = p4 + id_json("sbx"@, a.sandbox.value);
    let q4 = q3 + ",\"sandbox\":"@;
    let q5 = q4 + id_json("sbx"@, b.sandbox.value);
    let p6 = p5 + ",\"allocation\":"@;
    let p7 = p6 + id_json("alc"@, a.allocation.value);
    let q6 = q5 + ",\"allocation\":"@;
    let q7 = q6 + id_json("alc"@, b.allocation.value);
    let p8 = p7 + ",\"create_operation\":"@;
    let p9 = p8 + id_json("op"@, a.create_operation.value);
    let q8 = q7 + ",\"create_operation\":"@;
    let q9 = q8 + id_json("op"@, b.create_operation.value);
    let p10 = p9 + ",\"generation\":"@;
    let p11 = p10 + signed_decimal(a.generation as int);
    let q10 = q9 + ",\"generation\":"@;
    let q11 = q10 + signed_decimal(b.generation as int);
    let p12 = p11 + ",\"original_epoch\":"@;
    let p13 = p12 + signed_decimal(a.original_epoch as int);
    let q12 = q11 + ",\"original_epoch\":"@;
    let q13 = q12 + signed_decimal(b.original_epoch as int);
    let p14 = p13 + ",\"serial\":"@;
    let p15 = p14 + decimal(a.serial as nat);
    let q14 = q13 + ",\"serial\":"@;
    let q15 = q14 + decimal(b.serial as nat);
    lemma_cut_literal(x, p15, "}"@, y, q15);
    assert(p14.len() > 0 && p14.last() == ':' && q14.len() > 0 && q14.last() == ':') by {
        reveal_strlit(",\"serial\":");
    }
    lemma_cut_number(x, p14, a.serial as int, y, q14, b.serial as int);
    lemma_cut_literal(x, p13, ",\"serial\":"@, y, q13);
    assert(p12.len() > 0 && p12.last() == ':' && q12.len() > 0 && q12.last() == ':') by {
        reveal_strlit(",\"original_epoch\":");
    }
    lemma_cut_number(x, p12, a.original_epoch as int, y, q12, b.original_epoch as int);
    lemma_cut_literal(x, p11, ",\"original_epoch\":"@, y, q11);
    assert(p10.len() > 0 && p10.last() == ':' && q10.len() > 0 && q10.last() == ':') by {
        reveal_strlit(",\"generation\":");
    }
    lemma_cut_number(x, p10, a.generation as int, y, q10, b.generation as int);
    lemma_cut_literal(x, p9, ",\"generation\":"@, y, q9);
    lemma_cut_id(x, p8, a.create_operation.value, y, q8, b.create_operation.value, "op"@);
    lemma_cut_literal(x, p7, ",\"create_operation\":"@, y, q7);
    lemma_cut_id(x, p6, a.allocation.value, y, q6, b.allocation.value, "alc"@);
    lemma_cut_literal(x, p5, ",\"allocation\":"@, y, q5);
    lemma_cut_id(x, p4, a.sandbox.value, y, q4, b.sandbox.value, "sbx"@);
    lemma_cut_literal(x, p3, ",\"sandbox\":"@, y, q3);
    lemma_cut_id(x, p2, a.project.value, y, q2, b.project.value, "prj"@);
    lemma_cut_literal(x, p1, ",\"project\":"@, y, q1);
    lemma_cut_id(x, p0, a.host.value, y, q0, b.host.value, "hst"@);
    lemma_cut_length(x, "{\"host\":"@, y, "{\"host\":"@);
}

proof fn lemma_closure_kinds_apart(x: Seq<char>, y: Seq<char>, through: u128)
    ensures
        x + "{\"kind\":\"empty\"}"@ != y + ("{\"kind\":\"retired\",\"through\":"@ + id_json("op"@, through) + "}"@),
{
    let empty = "{\"kind\":\"empty\"}"@;
    let id = id_json("op"@, through);
    let retired = "{\"kind\":\"retired\",\"through\":"@ + id + "}"@;
    reveal_strlit("{\"kind\":\"empty\"}");
    reveal_strlit("}");
    reveal_strlit("op");
    lemma_id_json_plain("op"@, through);
    assert(id.len() == 41);
    assert(id[39] == hyphenated(through)[35]);
    let shifted = through >> ((4 * (31 - digit_at(35))) as u128);
    assert(shifted & 0xf < 16) by (bit_vector);
    assert(nibble(through, digit_at(35)) < 16);
    assert(id[39] != 'y');
    let whole = x + empty;
    if whole == y + retired {
        assert(whole[whole.len() - 3] == empty[empty.len() - 3]);
        assert((y + retired)[whole.len() - 3] == retired[retired.len() - 3]);
        assert(retired[retired.len() - 3] == id[39]);
    }
}

proof fn lemma_cut_closure(x: Seq<char>, a: DomainClosure, y: Seq<char>, b: DomainClosure)
    requires
        x + closure_json(a) == y + closure_json(b),
    ensures
        x == y,
        a == b,
{
    reveal(closure_json);
    match (a, b) {
        (DomainClosure::Empty, DomainClosure::Empty) => {
            lemma_cut_length(x, closure_json(a), y, closure_json(b));
        },
        (DomainClosure::Retired { through: v }, DomainClosure::Retired { through: w }) => {
            let l = "{\"kind\":\"retired\",\"through\":"@;
            lemma_cut_literal(x, l + id_json("op"@, v.value), "}"@, y, l + id_json("op"@, w.value));
            lemma_cut_id(x, l, v.value, y, l, w.value, "op"@);
            lemma_cut_length(x, l, y, l);
        },
        (DomainClosure::Empty, DomainClosure::Retired { through }) => {
            lemma_closure_kinds_apart(x, y, through.value);
        },
        (DomainClosure::Retired { through }, DomainClosure::Empty) => {
            lemma_closure_kinds_apart(y, x, through.value);
        },
    }
}

proof fn lemma_cut_intent(x: Seq<char>, a: Intent, y: Seq<char>, b: Intent)
    requires
        x + intent_json(a) == y + intent_json(b),
    ensures
        x == y,
        same_intent(a, b),
{
    reveal(intent_json);
    let p0 = "{\"version\":"@;
    let p1 = p0 + decimal(a.version as nat);
    let q0 = "{\"version\":"@;
    let q1 = q0 + decimal(b.version as nat);
    let p2 = p1 + ",\"retirement\":"@;
    let p3 = p2 + id_json("op"@, a.retirement.value);
    let q2 = q1 + ",\"retirement\":"@;
    let q3 = q2 + id_json("op"@, b.retirement.value);
    let p4 = p3 + ",\"permit\":"@;
    let p5 = p4 + permit_json(a.permit);
    let q4 = q3 + ",\"permit\":"@;
    let q5 = q4 + permit_json(b.permit);
    let p6 = p5 + ",\"commands\":"@;
    let p7 = p6 + closure_json(a.commands);
    let q6 = q5 + ",\"commands\":"@;
    let q7 = q6 + closure_json(b.commands);
    let p8 = p7 + ",\"files\":"@;
    let p9 = p8 + closure_json(a.files);
    let q8 = q7 + ",\"files\":"@;
    let q9 = q8 + closure_json(b.files);
    let p10 = p9 + ",\"release_evidence_sha256\":"@;
    let p11 = p10 + json_string(a.release_evidence_sha256@);
    let q10 = q9 + ",\"release_evidence_sha256\":"@;
    let q11 = q10 + json_string(b.release_evidence_sha256@);
    let p12 = p11 + ",\"simulated\":"@;
    let p13 = p12 + bool_json(a.simulated);
    let q12 = q11 + ",\"simulated\":"@;
    let q13 = q12 + bool_json(b.simulated);
    lemma_cut_literal(x, p13, "}"@, y, q13);
    lemma_cut_bool(x, p12, a.simulated, y, q12, b.simulated);
    lemma_cut_literal(x, p11, ",\"simulated\":"@, y, q11);
    assert(p10.len() > 0 && p10.last() == ':' && q10.len() > 0 && q10.last() == ':') by {
        reveal_strlit(",\"release_evidence_sha256\":");
    }
    lemma_cut_string(x, p10, a.release_evidence_sha256@, y, q10, b.release_evidence_sha256@);
    lemma_cut_literal(x, p9, ",\"release_evidence_sha256\":"@, y, q9);
    lemma_join(x, p8, closure_json(a.files));
    lemma_join(y, q8, closure_json(b.files));
    lemma_cut_closure(x + p8, a.files, y + q8, b.files);
    lemma_cut_literal(x, p7, ",\"files\":"@, y, q7);
    lemma_join(x, p6, closure_json(a.commands));
    lemma_join(y, q6, closure_json(b.commands));
    lemma_cut_closure(x + p6, a.commands, y + q6, b.commands);
    lemma_cut_literal(x, p5, ",\"commands\":"@, y, q5);
    lemma_join(x, p4, permit_json(a.permit));
    lemma_join(y, q4, permit_json(b.permit));
    lemma_cut_permit(x + p4, a.permit, y + q4, b.permit);
    lemma_cut_literal(x, p3, ",\"permit\":"@, y, q3);
    lemma_cut_id(x, p2, a.retirement.value, y, q2, b.retirement.value, "op"@);
    lemma_cut_literal(x, p1, ",\"retirement\":"@, y, q1);
    assert(p0.len() > 0 && p0.last() == ':' && q0.len() > 0 && q0.last() == ':') by {
        reveal_strlit("{\"version\":");
    }
    lemma_cut_number(x, p0, a.version as int, y, q0, b.version as int);
    lemma_cut_length(x, "{\"version\":"@, y, "{\"version\":"@);
}

proof fn lemma_cut_request(x: Seq<char>, a: Request, y: Seq<char>, b: Request)
    requires
        x + request_json(a) == y + request_json(b),
    ensures
        x == y,
        same_request(a, b),
{
    reveal(request_json);
    let p0 = "{\"intent\":"@;
    let p1 = p0 + intent_json(a.intent);
    let q0 = "{\"intent\":"@;
    let q1 = q0 + intent_json(b.intent);
    let p2 = p1 + ",\"reporting_epoch\":"@;
    let p3 = p2 + signed_decimal(a.reporting_epoch as int);
    let q2 = q1 + ",\"reporting_epoch\":"@;
    let q3 = q2 + signed_decimal(b.reporting_epoch as int);
    let p4 = p3 + ",\"revision\":"@;
    let p5 = p4 + signed_decimal(a.revision as int);
    let q4 = q3 + ",\"revision\":"@;
    let q5 = q4 + signed_decimal(b.revision as int);
    let p6 = p5 + ",\"expires_unix_ms\":"@;
    let p7 = p6 + signed_decimal(a.expires_unix_ms as int);
    let q6 = q5 + ",\"expires_unix_ms\":"@;
    let q7 = q6 + signed_decimal(b.expires_unix_ms as int);
    lemma_cut_literal(x, p7, "}"@, y, q7);
    assert(p6.len() > 0 && p6.last() == ':' && q6.len() > 0 && q6.last() == ':') by {
        reveal_strlit(",\"expires_unix_ms\":");
    }
    lemma_cut_number(x, p6, a.expires_unix_ms as int, y, q6, b.expires_unix_ms as int);
    lemma_cut_literal(x, p5, ",\"expires_unix_ms\":"@, y, q5);
    assert(p4.len() > 0 && p4.last() == ':' && q4.len() > 0 && q4.last() == ':') by {
        reveal_strlit(",\"revision\":");
    }
    lemma_cut_number(x, p4, a.revision as int, y, q4, b.revision as int);
    lemma_cut_literal(x, p3, ",\"revision\":"@, y, q3);
    assert(p2.len() > 0 && p2.last() == ':' && q2.len() > 0 && q2.last() == ':') by {
        reveal_strlit(",\"reporting_epoch\":");
    }
    lemma_cut_number(x, p2, a.reporting_epoch as int, y, q2, b.reporting_epoch as int);
    lemma_cut_literal(x, p1, ",\"reporting_epoch\":"@, y, q1);
    lemma_join(x, p0, intent_json(a.intent));
    lemma_join(y, q0, intent_json(b.intent));
    lemma_cut_intent(x + p0, a.intent, y + q0, b.intent);
    lemma_cut_length(x, "{\"intent\":"@, y, "{\"intent\":"@);
}

proof fn lemma_cut_forget_request(x: Seq<char>, a: ForgetRequest, y: Seq<char>, b: ForgetRequest)
    requires
        x + forget_json(a) == y + forget_json(b),
    ensures
        x == y,
        a.version == b.version,
        same_request(a.claim, b.claim),
        same_request(a.metadata_request, b.metadata_request),
{
    reveal(forget_json);
    let p0 = "{\"version\":"@;
    let p1 = p0 + decimal(a.version as nat);
    let q0 = "{\"version\":"@;
    let q1 = q0 + decimal(b.version as nat);
    let p2 = p1 + ",\"claim\":"@;
    let p3 = p2 + request_json(a.claim);
    let q2 = q1 + ",\"claim\":"@;
    let q3 = q2 + request_json(b.claim);
    let p4 = p3 + ",\"metadata_request\":"@;
    let p5 = p4 + request_json(a.metadata_request);
    let q4 = q3 + ",\"metadata_request\":"@;
    let q5 = q4 + request_json(b.metadata_request);
    lemma_cut_literal(x, p5, "}"@, y, q5);
    lemma_join(x, p4, request_json(a.metadata_request));
    lemma_join(y, q4, request_json(b.metadata_request));
    lemma_cut_request(x + p4, a.metadata_request, y + q4, b.metadata_request);
    lemma_cut_literal(x, p3, ",\"metadata_request\":"@, y, q3);
    lemma_join(x, p2, request_json(a.claim));
    lemma_join(y, q2, request_json(b.claim));
    lemma_cut_request(x + p2, a.claim, y + q2, b.claim);
    lemma_cut_literal(x, p1, ",\"claim\":"@, y, q1);
    assert(p0.len() > 0 && p0.last() == ':' && q0.len() > 0 && q0.last() == ':') by {
        reveal_strlit("{\"version\":");
    }
    lemma_cut_number(x, p0, a.version as int, y, q0, b.version as int);
    lemma_cut_length(x, "{\"version\":"@, y, "{\"version\":"@);
}

proof fn lemma_cut_upload(x: Seq<char>, a: Upload, y: Seq<char>, b: Upload)
    requires
        x + upload_json(a) == y + upload_json(b),
    ensures
        x == y,
        same_upload(a, b),
{
    reveal(upload_json);
    let p0 = "{\"operation_id\":"@;
    let p1 = p0 + id_json("op"@, a.operation_id.value);
    let q0 = "{\"operation_id\":"@;
    let q1 = q0 + id_json("op"@, b.operation_id.value);
    let p2 = p1 + ",\"path\":"@;
    let p3 = p2 + json_string(a.path@);
    let q2 = q1 + ",\"path\":"@;
    let q3 = q2 + json_string(b.path@);
    let p4 = p3 + ",\"size\":"@;
    let p5 = p4 + decimal(a.size as nat);
    let q4 = q3 + ",\"size\":"@;
    let q5 = q4 + decimal(b.size as nat);
    let p6 = p5 + ",\"sha256\":"@;
    let p7 = p6 + bytes_json(a.sha256@);
    let q6 = q5 + ",\"sha256\":"@;
    let q7 = q6 + bytes_json(b.sha256@);
    let p8 = p7 + ",\"mode\":"@;
    let p9 = p8 + decimal(a.mode as nat);
    let q8 = q7 + ",\"mode\":"@;
    let q9 = q8 + decimal(b.mode as nat);
    lemma_cut_literal(x, p9, "}"@, y, q9);
    assert(p8.len() > 0 && p8.last() == ':' && q8.len() > 0 && q8.last() == ':') by {
        reveal_strlit(",\"mode\":");
    }
    lemma_cut_number(x, p8, a.mode as int, y, q8, b.mode as int);
    lemma_cut_literal(x, p7, ",\"mode\":"@, y, q7);
    lemma_cut_bytes(x, p6, a.sha256@, y, q6, b.sha256@);
    lemma_cut_literal(x, p5, ",\"sha256\":"@, y, q5);
    assert(p4.len() > 0 && p4.last() == ':' && q4.len() > 0 && q4.last() == ':') by {
        reveal_strlit(",\"size\":");
    }
    lemma_cut_number(x, p4, a.size as int, y, q4, b.size as int);
    lemma_cut_literal(x, p3, ",\"size\":"@, y, q3);
    assert(p2.len() > 0 && p2.last() == ':' && q2.len() > 0 && q2.last() == ':') by {
        reveal_strlit(",\"path\":");
    }
    lemma_cut_string(x, p2, a.path@, y, q2, b.path@);
    lemma_cut_literal(x, p1, ",\"path\":"@, y, q1);
    lemma_cut_id(x, p0, a.operation_id.value, y, q0, b.operation_id.value, "op"@);
    lemma_cut_length(x, "{\"operation_id\":"@, y, "{\"operation_id\":"@);
}

proof fn lemma_cut_scope(x: Seq<char>, a: ReadScope, y: Seq<char>, b: ReadScope)
    requires
        x + scope_json(a) == y + scope_json(b),
    ensures
        x == y,
        a == b,
{
    reveal(scope_json);
    let p0 = "{\"version\":"@;
    let p1 = p0 + decimal(a.version as nat);
    let q0 = "{\"version\":"@;
    let q1 = q0 + decimal(b.version as nat);
    let p2 = p1 + ",\"host_id\":"@;
    let p3 = p2 + id_json("hst"@, a.host_id.value);
    let q2 = q1 + ",\"host_id\":"@;
    let q3 = q2 + id_json("hst"@, b.host_id.value);
    let p4 = p3 + ",\"host_epoch\":"@;
    let p5 = p4 + signed_decimal(a.host_epoch as int);
    let q4 = q3 + ",\"host_epoch\":"@;
    let q5 = q4 + signed_decimal(b.host_epoch as int);
    let p6 = p5 + ",\"project_id\":"@;
    let p7 = p6 + id_json("prj"@, a.project_id.value);
    let q6 = q5 + ",\"project_id\":"@;
    let q7 = q6 + id_json("prj"@, b.project_id.value);
    let p8 = p7 + ",\"sandbox_id\":"@;
    let p9 = p8 + id_json("sbx"@, a.sandbox_id.value);
    let q8 = q7 + ",\"sandbox_id\":"@;
    let q9 = q8 + id_json("sbx"@, b.sandbox_id.value);
    let p10 = p9 + ",\"allocation_id\":"@;
    let p11 = p10 + id_json("alc"@, a.allocation_id.value);
    let q10 = q9 + ",\"allocation_id\":"@;
    let q11 = q10 + id_json("alc"@, b.allocation_id.value);
    let p12 = p11 + ",\"generation\":"@;
    let p13 = p12 + signed_decimal(a.generation as int);
    let q12 = q11 + ",\"generation\":"@;
    let q13 = q12 + signed_decimal(b.generation as int);
    lemma_cut_literal(x, p13, "}"@, y, q13);
    assert(p12.len() > 0 && p12.last() == ':' && q12.len() > 0 && q12.last() == ':') by {
        reveal_strlit(",\"generation\":");
    }
    lemma_cut_number(x, p12, a.generation as int, y, q12, b.generation as int);
    lemma_cut_literal(x, p11, ",\"generation\":"@, y, q11);
    lemma_cut_id(x, p10, a.allocation_id.value, y, q10, b.allocation_id.value, "alc"@);
    lemma_cut_literal(x, p9, ",\"allocation_id\":"@, y, q9);
    lemma_cut_id(x, p8, a.sandbox_id.value, y, q8, b.sandbox_id.value, "sbx"@);
    lemma_cut_literal(x, p7, ",\"sandbox_id\":"@, y, q7);
    lemma_cut_id(x, p6, a.project_id.value, y, q6, b.project_id.value, "prj"@);
    lemma_cut_literal(x, p5, ",\"project_id\":"@, y, q5);
    assert(p4.len() > 0 && p4.last() == ':' && q4.len() > 0 && q4.last() == ':') by {
        reveal_strlit(",\"host_epoch\":");
    }
    lemma_cut_number(x, p4, a.host_epoch as int, y, q4, b.host_epoch as int);
    lemma_cut_literal(x, p3, ",\"host_epoch\":"@, y, q3);
    lemma_cut_id(x, p2, a.host_id.value, y, q2, b.host_id.value, "hst"@);
    lemma_cut_literal(x, p1, ",\"host_id\":"@, y, q1);
    assert(p0.len() > 0 && p0.last() == ':' && q0.len() > 0 && q0.last() == ':') by {
        reveal_strlit("{\"version\":");
    }
    lemma_cut_number(x, p0, a.version as int, y, q0, b.version as int);
    lemma_cut_length(x, "{\"version\":"@, y, "{\"version\":"@);
}

proof fn lemma_cut_source_plan(x: Seq<char>, a: SourcePlan, y: Seq<char>, b: SourcePlan)
    requires
        x + source_plan_json(a) == y + source_plan_json(b),
    ensures
        x == y,
        same_source_plan(a, b),
{
    reveal(source_plan_json);
    let p0 = "{\"version\":"@;
    let p1 = p0 + decimal(a.version as nat);
    let q0 = "{\"version\":"@;
    let q1 = q0 + decimal(b.version as nat);
    let p2 = p1 + ",\"owner\":{\"scope\":"@;
    let p3 = p2 + scope_json(a.owner.scope);
    let q2 = q1 + ",\"owner\":{\"scope\":"@;
    let q3 = q2 + scope_json(b.owner.scope);
    let p4 = p3 + ",\"operation_id\":"@;
    let p5 = p4 + id_json("op"@, a.owner.operation_id.value);
    let q4 = q3 + ",\"operation_id\":"@;
    let q5 = q4 + id_json("op"@, b.owner.operation_id.value);
    let p6 = p5 + "},\"upload\":"@;
    let p7 = p6 + upload_json(a.upload);
    let q6 = q5 + "},\"upload\":"@;
    let q7 = q6 + upload_json(b.upload);
    let p8 = p7 + ",\"source_attempt\":"@;
    let p9 = p8 + id_json("op"@, a.source_attempt.value);
    let q8 = q7 + ",\"source_attempt\":"@;
    let q9 = q8 + id_json("op"@, b.source_attempt.value);
    let p10 = p9 + ",\"created_unix_ms\":"@;
    let p11 = p10 + signed_decimal(a.created_unix_ms as int);
    let q10 = q9 + ",\"created_unix_ms\":"@;
    let q11 = q10 + signed_decimal(b.created_unix_ms as int);
    let p12 = p11 + ",\"write_expires_unix_ms\":"@;
    let p13 = p12 + signed_decimal(a.write_expires_unix_ms as int);
    let q12 = q11 + ",\"write_expires_unix_ms\":"@;
    let q13 = q12 + signed_decimal(b.write_expires_unix_ms as int);
    let p14 = p13 + ",\"expires_unix_ms\":"@;
    let p15 = p14 + signed_decimal(a.expires_unix_ms as int);
    let q14 = q13 + ",\"expires_unix_ms\":"@;
    let q15 = q14 + signed_decimal(b.expires_unix_ms as int);
    let p16 = p15 + ",\"delete_after_unix_ms\":"@;
    let p17 = p16 + signed_decimal(a.delete_after_unix_ms as int);
    let q16 = q15 + ",\"delete_after_unix_ms\":"@;
    let q17 = q16 + signed_decimal(b.delete_after_unix_ms as int);
    lemma_cut_literal(x, p17, "}"@, y, q17);
    assert(p16.len() > 0 && p16.last() == ':' && q16.len() > 0 && q16.last() == ':') by {
        reveal_strlit(",\"delete_after_unix_ms\":");
    }
    lemma_cut_number(x, p16, a.delete_after_unix_ms as int, y, q16, b.delete_after_unix_ms as int);
    lemma_cut_literal(x, p15, ",\"delete_after_unix_ms\":"@, y, q15);
    assert(p14.len() > 0 && p14.last() == ':' && q14.len() > 0 && q14.last() == ':') by {
        reveal_strlit(",\"expires_unix_ms\":");
    }
    lemma_cut_number(x, p14, a.expires_unix_ms as int, y, q14, b.expires_unix_ms as int);
    lemma_cut_literal(x, p13, ",\"expires_unix_ms\":"@, y, q13);
    assert(p12.len() > 0 && p12.last() == ':' && q12.len() > 0 && q12.last() == ':') by {
        reveal_strlit(",\"write_expires_unix_ms\":");
    }
    lemma_cut_number(x, p12, a.write_expires_unix_ms as int, y, q12, b.write_expires_unix_ms as int);
    lemma_cut_literal(x, p11, ",\"write_expires_unix_ms\":"@, y, q11);
    assert(p10.len() > 0 && p10.last() == ':' && q10.len() > 0 && q10.last() == ':') by {
        reveal_strlit(",\"created_unix_ms\":");
    }
    lemma_cut_number(x, p10, a.created_unix_ms as int, y, q10, b.created_unix_ms as int);
    lemma_cut_literal(x, p9, ",\"created_unix_ms\":"@, y, q9);
    lemma_cut_id(x, p8, a.source_attempt.value, y, q8, b.source_attempt.value, "op"@);
    lemma_cut_literal(x, p7, ",\"source_attempt\":"@, y, q7);
    lemma_join(x, p6, upload_json(a.upload));
    lemma_join(y, q6, upload_json(b.upload));
    lemma_cut_upload(x + p6, a.upload, y + q6, b.upload);
    lemma_cut_literal(x, p5, "},\"upload\":"@, y, q5);
    lemma_cut_id(x, p4, a.owner.operation_id.value, y, q4, b.owner.operation_id.value, "op"@);
    lemma_cut_literal(x, p3, ",\"operation_id\":"@, y, q3);
    lemma_join(x, p2, scope_json(a.owner.scope));
    lemma_join(y, q2, scope_json(b.owner.scope));
    lemma_cut_scope(x + p2, a.owner.scope, y + q2, b.owner.scope);
    lemma_cut_literal(x, p1, ",\"owner\":{\"scope\":"@, y, q1);
    assert(p0.len() > 0 && p0.last() == ':' && q0.len() > 0 && q0.last() == ':') by {
        reveal_strlit("{\"version\":");
    }
    lemma_cut_number(x, p0, a.version as int, y, q0, b.version as int);
    lemma_cut_length(x, "{\"version\":"@, y, "{\"version\":"@);
}

proof fn lemma_cut_owner(x: Seq<char>, a: OutputOwner, y: Seq<char>, b: OutputOwner)
    requires
        x + owner_json(a) == y + owner_json(b),
    ensures
        x == y,
        same_owner(a, b),
{
    reveal(owner_json);
    let p0 = "{\"project_id\":"@;
    let p1 = p0 + id_json("prj"@, a.project_id.value);
    let q0 = "{\"project_id\":"@;
    let q1 = q0 + id_json("prj"@, b.project_id.value);
    let p2 = p1 + ",\"sandbox_id\":"@;
    let p3 = p2 + id_json("sbx"@, a.sandbox_id.value);
    let q2 = q1 + ",\"sandbox_id\":"@;
    let q3 = q2 + id_json("sbx"@, b.sandbox_id.value);
    let p4 = p3 + ",\"operation_id\":"@;
    let p5 = p4 + id_json("op"@, a.operation_id.value);
    let q4 = q3 + ",\"operation_id\":"@;
    let q5 = q4 + id_json("op"@, b.operation_id.value);
    let p6 = p5 + ",\"allocation_id\":"@;
    let p7 = p6 + id_json("alc"@, a.allocation_id.value);
    let q6 = q5 + ",\"allocation_id\":"@;
    let q7 = q6 + id_json("alc"@, b.allocation_id.value);
    let p8 = p7 + ",\"generation\":"@;
    let p9 = p8 + signed_decimal(a.generation as int);
    let q8 = q7 + ",\"generation\":"@;
    let q9 = q8 + signed_decimal(b.generation as int);
    let p10 = p9 + ",\"host_id\":"@;
    let p11 = p10 + id_json("hst"@, a.host_id.value);
    let q10 = q9 + ",\"host_id\":"@;
    let q11 = q10 + id_json("hst"@, b.host_id.value);
    let p12 = p11 + ",\"host_epoch\":"@;
    let p13 = p12 + signed_decimal(a.host_epoch as int);
    let q12 = q11 + ",\"host_epoch\":"@;
    let q13 = q12 + signed_decimal(b.host_epoch as int);
    let p14 = p13 + ",\"boot_id\":"@;
    let p15 = p14 + json_string(a.boot_id@);
    let q14 = q13 + ",\"boot_id\":"@;
    let q15 = q14 + json_string(b.boot_id@);
    lemma_cut_literal(x, p15, "}"@, y, q15);
    assert(p14.len() > 0 && p14.last() == ':' && q14.len() > 0 && q14.last() == ':') by {
        reveal_strlit(",\"boot_id\":");
    }
    lemma_cut_string(x, p14, a.boot_id@, y, q14, b.boot_id@);
    lemma_cut_literal(x, p13, ",\"boot_id\":"@, y, q13);
    assert(p12.len() > 0 && p12.last() == ':' && q12.len() > 0 && q12.last() == ':') by {
        reveal_strlit(",\"host_epoch\":");
    }
    lemma_cut_number(x, p12, a.host_epoch as int, y, q12, b.host_epoch as int);
    lemma_cut_literal(x, p11, ",\"host_epoch\":"@, y, q11);
    lemma_cut_id(x, p10, a.host_id.value, y, q10, b.host_id.value, "hst"@);
    lemma_cut_literal(x, p9, ",\"host_id\":"@, y, q9);
    assert(p8.len() > 0 && p8.last() == ':' && q8.len() > 0 && q8.last() == ':') by {
        reveal_strlit(",\"generation\":");
    }
    lemma_cut_number(x, p8, a.generation as int, y, q8, b.generation as int);
    lemma_cut_literal(x, p7, ",\"generation\":"@, y, q7);
    lemma_cut_id(x, p6, a.allocation_id.value, y, q6, b.allocation_id.value, "alc"@);
    lemma_cut_literal(x, p5, ",\"allocation_id\":"@, y, q5);
    lemma_cut_id(x, p4, a.operation_id.value, y, q4, b.operation_id.value, "op"@);
    lemma_cut_literal(x, p3, ",\"operation_id\":"@, y, q3);
    lemma_cut_id(x, p2, a.sandbox_id.value, y, q2, b.sandbox_id.value, "sbx"@);
    lemma_cut_literal(x, p1, ",\"sandbox_id\":"@, y, q1);
    lemma_cut_id(x, p0, a.project_id.value, y, q0, b.project_id.value, "prj"@);
    lemma_cut_length(x, "{\"project_id\":"@, y, "{\"project_id\":"@);
}

proof fn lemma_names_apart(a: OutputName, b: OutputName)
    requires
        output_name_text(a) == output_name_text(b),
    ensures
        a == b,
{
    reveal_strlit("stdout");
    reveal_strlit("stderr");
    assert(output_name_text(OutputName::Stdout)[3] == 'o');
    assert(output_name_text(OutputName::Stderr)[3] == 'e');
}

proof fn lemma_cut_plan(x: Seq<char>, a: OutputPlan, y: Seq<char>, b: OutputPlan)
    requires
        x + plan_json(a) == y + plan_json(b),
    ensures
        x == y,
        same_plan(a, b),
{
    reveal(plan_json);
    let p0 = "{\"version\":"@;
    let p1 = p0 + decimal(a.version as nat);
    let q0 = "{\"version\":"@;
    let q1 = q0 + decimal(b.version as nat);
    let p2 = p1 + ",\"owner\":"@;
    let p3 = p2 + owner_json(a.owner);
    let q2 = q1 + ",\"owner\":"@;
    let q3 = q2 + owner_json(b.owner);
    let p4 = p3 + ",\"upload_attempt\":"@;
    let p5 = p4 + id_json("op"@, a.upload_attempt.value);
    let q4 = q3 + ",\"upload_attempt\":"@;
    let q5 = q4 + id_json("op"@, b.upload_attempt.value);
    let p6 = p5 + ",\"name\":"@;
    let p7 = p6 + json_string(output_name_text(a.name));
    let q6 = q5 + ",\"name\":"@;
    let q7 = q6 + json_string(output_name_text(b.name));
    let p8 = p7 + ",\"size\":"@;
    let p9 = p8 + decimal(a.size as nat);
    let q8 = q7 + ",\"size\":"@;
    let q9 = q8 + decimal(b.size as nat);
    let p10 = p9 + ",\"sha256\":"@;
    let p11 = p10 + json_string(a.sha256@);
    let q10 = q9 + ",\"sha256\":"@;
    let q11 = q10 + json_string(b.sha256@);
    let p12 = p11 + ",\"seen\":"@;
    let p13 = p12 + decimal(a.seen as nat);
    let q12 = q11 + ",\"seen\":"@;
    let q13 = q12 + decimal(b.seen as nat);
    let p14 = p13 + ",\"truncated\":"@;
    let p15 = p14 + bool_json(a.truncated);
    let q14 = q13 + ",\"truncated\":"@;
    let q15 = q14 + bool_json(b.truncated);
    let p16 = p15 + ",\"created_unix_ms\":"@;
    let p17 = p16 + signed_decimal(a.created_unix_ms as int);
    let q16 = q15 + ",\"created_unix_ms\":"@;
    let q17 = q16 + signed_decimal(b.created_unix_ms as int);
    let p18 = p17 + ",\"expires_unix_ms\":"@;
    let p19 = p18 + signed_decimal(a.expires_unix_ms as int);
    let q18 = q17 + ",\"expires_unix_ms\":"@;
    let q19 = q18 + signed_decimal(b.expires_unix_ms as int);
    let p20 = p19 + ",\"delete_after_unix_ms\":"@;
    let p21 = p20 + signed_decimal(a.delete_after_unix_ms as int);
    let q20 = q19 + ",\"delete_after_unix_ms\":"@;
    let q21 = q20 + signed_decimal(b.delete_after_unix_ms as int);
    lemma_cut_literal(x, p21, "}"@, y, q21);
    assert(p20.len() > 0 && p20.last() == ':' && q20.len() > 0 && q20.last() == ':') by {
        reveal_strlit(",\"delete_after_unix_ms\":");
    }
    lemma_cut_number(x, p20, a.delete_after_unix_ms as int, y, q20, b.delete_after_unix_ms as int);
    lemma_cut_literal(x, p19, ",\"delete_after_unix_ms\":"@, y, q19);
    assert(p18.len() > 0 && p18.last() == ':' && q18.len() > 0 && q18.last() == ':') by {
        reveal_strlit(",\"expires_unix_ms\":");
    }
    lemma_cut_number(x, p18, a.expires_unix_ms as int, y, q18, b.expires_unix_ms as int);
    lemma_cut_literal(x, p17, ",\"expires_unix_ms\":"@, y, q17);
    assert(p16.len() > 0 && p16.last() == ':' && q16.len() > 0 && q16.last() == ':') by {
        reveal_strlit(",\"created_unix_ms\":");
    }
    lemma_cut_number(x, p16, a.created_unix_ms as int, y, q16, b.created_unix_ms as int);
    lemma_cut_literal(x, p15, ",\"created_unix_ms\":"@, y, q15);
    lemma_cut_bool(x, p14, a.truncated, y, q14, b.truncated);
    lemma_cut_literal(x, p13, ",\"truncated\":"@, y, q13);
    assert(p12.len() > 0 && p12.last() == ':' && q12.len() > 0 && q12.last() == ':') by {
        reveal_strlit(",\"seen\":");
    }
    lemma_cut_number(x, p12, a.seen as int, y, q12, b.seen as int);
    lemma_cut_literal(x, p11, ",\"seen\":"@, y, q11);
    assert(p10.len() > 0 && p10.last() == ':' && q10.len() > 0 && q10.last() == ':') by {
        reveal_strlit(",\"sha256\":");
    }
    lemma_cut_string(x, p10, a.sha256@, y, q10, b.sha256@);
    lemma_cut_literal(x, p9, ",\"sha256\":"@, y, q9);
    assert(p8.len() > 0 && p8.last() == ':' && q8.len() > 0 && q8.last() == ':') by {
        reveal_strlit(",\"size\":");
    }
    lemma_cut_number(x, p8, a.size as int, y, q8, b.size as int);
    lemma_cut_literal(x, p7, ",\"size\":"@, y, q7);
    assert(p6.len() > 0 && p6.last() == ':' && q6.len() > 0 && q6.last() == ':') by {
        reveal_strlit(",\"name\":");
    }
    lemma_cut_string(x, p6, output_name_text(a.name), y, q6, output_name_text(b.name));
    lemma_cut_literal(x, p5, ",\"name\":"@, y, q5);
    lemma_cut_id(x, p4, a.upload_attempt.value, y, q4, b.upload_attempt.value, "op"@);
    lemma_cut_literal(x, p3, ",\"upload_attempt\":"@, y, q3);
    lemma_join(x, p2, owner_json(a.owner));
    lemma_join(y, q2, owner_json(b.owner));
    lemma_cut_owner(x + p2, a.owner, y + q2, b.owner);
    lemma_cut_literal(x, p1, ",\"owner\":"@, y, q1);
    assert(p0.len() > 0 && p0.last() == ':' && q0.len() > 0 && q0.last() == ':') by {
        reveal_strlit("{\"version\":");
    }
    lemma_cut_number(x, p0, a.version as int, y, q0, b.version as int);
    lemma_names_apart(a.name, b.name);
    lemma_cut_length(x, "{\"version\":"@, y, "{\"version\":"@);
}

proof fn lemma_text_of_bytes(a: Seq<char>, b: Seq<char>)
    requires
        encode_utf8(a) == encode_utf8(b),
    ensures
        a == b,
        Seq::<char>::empty() + a == Seq::<char>::empty() + b,
{
    lemma_utf8_injective(a, b);
}

/// Every field of a retirement intent is part of its retry identity: intents
/// with one encoding are the same intent.
pub proof fn intents_encode_apart(a: Intent, b: Intent)
    requires
        intent_valid(a),
        intent_bytes(a) == intent_bytes(b),
    ensures
        same_intent(a, b),
{
    valid_intent_encodes(a);
    valid_intent_encodes(b);
    lemma_text_of_bytes(intent_json(a), intent_json(b));
    lemma_cut_intent(Seq::empty(), a, Seq::empty(), b);
}

/// Requests with one encoding are the same request.
pub proof fn requests_encode_apart(a: Request, b: Request)
    requires
        intent_valid(a.intent),
        request_bytes(a) == request_bytes(b),
    ensures
        same_request(a, b),
{
    valid_request_encodes(a);
    valid_request_encodes(b);
    lemma_text_of_bytes(request_json(a), request_json(b));
    lemma_cut_request(Seq::empty(), a, Seq::empty(), b);
}

/// Forget requests with one encoding are the same forget request.
pub proof fn forget_requests_encode_apart(a: ForgetRequest, b: ForgetRequest)
    requires
        forget_shape(a),
        forget_bytes(a) == forget_bytes(b),
    ensures
        a.version == b.version,
        same_request(a.claim, b.claim),
        same_request(a.metadata_request, b.metadata_request),
{
    valid_forget_request_encodes(a);
    valid_forget_request_encodes(b);
    lemma_text_of_bytes(forget_json(a), forget_json(b));
    lemma_cut_forget_request(Seq::empty(), a, Seq::empty(), b);
}

/// What is hashed for an upload binds its operation, path, size, content digest
/// and mode.
pub proof fn uploads_encode_apart(a: Upload, b: Upload)
    requires
        upload_preimage(a) == upload_preimage(b),
    ensures
        same_upload(a, b),
{
    let domain = encode_utf8("hudson-file-upload-v1\0"@);
    assert(upload_preimage(a).skip(domain.len() as int) =~= encode_utf8(upload_json(a)));
    assert(upload_preimage(b).skip(domain.len() as int) =~= encode_utf8(upload_json(b)));
    lemma_text_of_bytes(upload_json(a), upload_json(b));
    lemma_cut_upload(Seq::empty(), a, Seq::empty(), b);
}

/// What is hashed for a source plan binds its owner, upload, attempt and times.
pub proof fn source_plans_encode_apart(a: SourcePlan, b: SourcePlan)
    requires
        encode_utf8(source_plan_json(a)) == encode_utf8(source_plan_json(b)),
    ensures
        same_source_plan(a, b),
{
    lemma_text_of_bytes(source_plan_json(a), source_plan_json(b));
    lemma_cut_source_plan(Seq::empty(), a, Seq::empty(), b);
}

/// What is hashed for an output plan binds everything the plan says.
pub proof fn output_plans_encode_apart(a: OutputPlan, b: OutputPlan)
    requires
        encode_utf8(plan_json(a)) == encode_utf8(plan_json(b)),
    ensures
        same_plan(a, b),
{
    lemma_text_of_bytes(plan_json(a), plan_json(b));
    lemma_cut_plan(Seq::empty(), a, Seq::empty(), b);
}

} // verus!
