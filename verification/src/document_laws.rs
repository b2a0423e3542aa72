//! Canonical text and document equality are the same thing: documents have one
//! canonical text exactly when they hold the same values, whatever the order of
//! object members.
use crate::allocation_retirement::bool_json;
use crate::canonical::{
    canonical, distinct_keys, in_key_order, member_list, member_order_is_not_significant, member_text,
    sorting_keeps_the_members, Json, Member,
};
use crate::document::{canonical_text_is_of_the_document, doc_text, item_texts, member_texts, same_document, Doc};
use crate::encoding_laws::{lemma_cut_bool, lemma_cut_length, lemma_cut_literal, lemma_join, lemma_opening_quote};
use crate::idempotency::{preimage, preimages_are_unambiguous};
use crate::json::{json_string, json_string_is_injective};
use crate::text::byte_len;
use vstd::prelude::*;
use vstd::string::*;

verus! {

pub open spec fn numeral_char(c: char) -> bool {
    ('0' <= c && c <= '9') || c == '+' || c == '-' || c == '.' || c == 'e' || c == 'E'
}

/// The text of a number: made of the characters of numerals, the last a digit.
pub open spec fn is_numeral(text: Seq<char>) -> bool {
    &&& text.len() > 0
    &&& '0' <= text.last() <= '9'
    &&& forall|i: int| 0 <= i < text.len() ==> numeral_char(#[trigger] text[i])
}

/// Every number is a numeral, and no object has a key twice.
pub open spec fn well_formed(d: Doc) -> bool
    decreases d,
{
    match d {
        Doc::Number(n) => is_numeral(n),
        Doc::List(items) => forall|i: int| 0 <= i < items.len() ==> well_formed(#[trigger] items[i]),
        Doc::Object(members) => {
            &&& forall|i: int| 0 <= i < members.len() ==> well_formed((#[trigger] members[i]).1)
            &&& forall|i: int, j: int| 0 <= i < j < members.len() ==> (#[trigger] members[i]).0 != (#[trigger] members[j]).0
        },
        _ => true,
    }
}

/// The two documents hold the same values: lists item by item, objects key by key.
pub open spec fn agree(a: Doc, b: Doc) -> bool
    decreases a,
{
    match (a, b) {
        (Doc::List(p), Doc::List(q)) => p.len() == q.len() && forall|i: int|
            0 <= i < p.len() ==> agree(#[trigger] p[i], q[i]),
        (Doc::Object(p), Doc::Object(q)) => p.len() == q.len() && forall|i: int|
            0 <= i < p.len() ==> exists|j: int|
                0 <= j < q.len() && (#[trigger] q[j]).0 == (#[trigger] p[i]).0 && agree(p[i].1, q[j].1),
        _ => a == b,
    }
}

/// A character that stands before a value in a document.
spec fn opener(c: char) -> bool {
    c == '[' || c == ',' || c == ':'
}

spec fn last_of(d: Doc) -> char {
    match d {
        Doc::Null => 'l',
        Doc::Bool(_) => 'e',
        Doc::Number(n) => n.last(),
        Doc::Text(_) => '"',
        Doc::List(_) => ']',
        Doc::Object(_) => '}',
    }
}

proof fn lemma_last_of(d: Doc)
    requires
        well_formed(d),
    ensures
        doc_text(d).len() > 0,
        doc_text(d).last() == last_of(d),
{
    reveal_strlit("null");
    reveal_strlit("true");
    reveal_strlit("false");
    reveal_strlit("]");
    reveal_strlit("}");
}

/// Numerals behind characters that no numeral holds.
proof fn lemma_cut_numeral(x: Seq<char>, s: Seq<char>, y: Seq<char>, t: Seq<char>)
    requires
        x + s == y + t,
        x.len() > 0 && opener(x.last()),
        y.len() > 0 && opener(y.last()),
        is_numeral(s),
        is_numeral(t),
    ensures
        x == y,
{
    let whole = x + s;
    assert(whole.len() == x.len() + s.len());
    assert(whole.len() == (y + t).len() == y.len() + t.len());
    if x.len() < y.len() {
        assert(whole[y.len() - 1] == s[y.len() - 1 - x.len()]);
        assert((y + t)[y.len() - 1] == y.last());
    } else if y.len() < x.len() {
        assert((y + t)[x.len() - 1] == t[x.len() - 1 - y.len()]);
        assert(whole[x.len() - 1] == x.last());
    } else {
        lemma_cut_length(x, s, y, t);
    }
}

proof fn lemma_cut_text(x: Seq<char>, a: Seq<char>, y: Seq<char>, b: Seq<char>)
    requires
        x + json_string(a) == y + json_string(b),
        x.len() > 0 && x.last() != '\\',
        y.len() > 0 && y.last() != '\\',
    ensures
        x == y,
        a == b,
{
    lemma_opening_quote(x, a, y, b);
    lemma_opening_quote(y, b, x, a);
    assert((x + json_string(a)).len() == x.len() + json_string(a).len());
    assert((y + json_string(b)).len() == y.len() + json_string(b).len());
    lemma_cut_length(x, json_string(a), y, json_string(b));
    json_string_is_injective(a, b);
}

/// Values behind the characters that stand before values: what comes before them
/// is found from the end of the text.
proof fn lemma_cut_doc(x: Seq<char>, a: Doc, y: Seq<char>, b: Doc)
    requires
        x + doc_text(a) == y + doc_text(b),
        x.len() > 0 && opener(x.last()),
        y.len() > 0 && opener(y.last()),
        well_formed(a),
        well_formed(b),
    ensures
        x == y,
    decreases a, 0int,
{
    lemma_last_of(a);
    lemma_last_of(b);
    assert((x + doc_text(a)).last() == doc_text(a).last());
    assert((y + doc_text(b)).last() == doc_text(b).last());
    match (a, b) {
        (Doc::Null, Doc::Null) => {
            lemma_cut_length(x, doc_text(a), y, doc_text(b));
        },
        (Doc::Bool(p), Doc::Bool(q)) => {
            assert(x =~= x + Seq::empty());
            assert(y =~= y + Seq::empty());
            lemma_join(x, Seq::empty(), bool_json(p));
            lemma_join(y, Seq::empty(), bool_json(q));
            lemma_cut_bool(x, Seq::empty(), p, y, Seq::empty(), q);
        },
        (Doc::Number(p), Doc::Number(q)) => {
            lemma_cut_numeral(x, p, y, q);
        },
        (Doc::Text(p), Doc::Text(q)) => {
            lemma_cut_text(x, p, y, q);
        },
        (Doc::List(p), Doc::List(q)) => {
            lemma_cut_literal(x, "["@ + item_texts(p), "]"@, y, "["@ + item_texts(q));
            lemma_join(x, "["@, item_texts(p));
            lemma_join(y, "["@, item_texts(q));
            reveal_strlit("[");
            lemma_cut_items(x + "["@, p, y + "["@, q);
            lemma_cut_length(x, "["@, y, "["@);
        },
        (Doc::Object(p), Doc::Object(q)) => {
            let ms = in_key_order(member_texts(p));
            let ns = in_key_order(member_texts(q));
            lemma_cut_literal(x, "{"@ + member_list(ms), "}"@, y, "{"@ + member_list(ns));
            lemma_join(x, "{"@, member_list(ms));
            lemma_join(y, "{"@, member_list(ns));
            reveal_strlit("{");
            lemma_sorted_members(p);
            lemma_sorted_members(q);
            assert(decreases_to!(a => a->Object_0));
            lemma_cut_members(x + "{"@, ms, p, y + "{"@, ns, q);
            lemma_cut_length(x, "{"@, y, "{"@);
        },
        _ => {},
    }
}

proof fn lemma_cut_items(x: Seq<char>, p: Seq<Doc>, y: Seq<char>, q: Seq<Doc>)
    requires
        x + item_texts(p) == y + item_texts(q),
        x.len() > 0 && x.last() == '[',
        y.len() > 0 && y.last() == '[',
        forall|i: int| 0 <= i < p.len() ==> well_formed(#[trigger] p[i]),
        forall|i: int| 0 <= i < q.len() ==> well_formed(#[trigger] q[i]),
    ensures
        x == y,
        p.len() == q.len(),
        forall|i: int| 0 <= i < p.len() ==> doc_text(#[trigger] p[i]) == doc_text(q[i]),
    decreases p, 1int,
{
    reveal_strlit(",");
    if p.len() == 0 || q.len() == 0 {
        assert(x + item_texts(p) =~= y + item_texts(q));
        if p.len() > 0 {
            lemma_items_end(p);
            assert((x + item_texts(p)).last() == item_texts(p).last());
            assert(y + item_texts(q) =~= y);
        } else if q.len() > 0 {
            lemma_items_end(q);
            assert((y + item_texts(q)).last() == item_texts(q).last());
            assert(x + item_texts(p) =~= x);
        } else {
            assert(x + item_texts(p) =~= x);
            assert(y + item_texts(q) =~= y);
        }
    } else {
        let fp = p.drop_last();
        let fq = q.drop_last();
        let xs = if p.len() == 1 { x } else { x + item_texts(fp) + ","@ };
        let ys = if q.len() == 1 { y } else { y + item_texts(fq) + ","@ };
        let last = p[p.len() - 1];
        assert(x + item_texts(p) =~= xs + doc_text(last));
        assert(y + item_texts(q) =~= ys + doc_text(q[q.len() - 1]));
        assert(decreases_to!(p => p[p.len() - 1]));
        lemma_cut_doc(xs, last, ys, q[q.len() - 1]);
        lemma_cut_length(xs, doc_text(last), ys, doc_text(q[q.len() - 1]));
        if p.len() > 1 && q.len() > 1 {
            lemma_cut_length(x + item_texts(fp), ","@, y + item_texts(fq), ","@);
            assert(forall|i: int| 0 <= i < fp.len() ==> fp[i] == p[i]);
            assert(forall|i: int| 0 <= i < fq.len() ==> fq[i] == q[i]);
            lemma_cut_items(x, fp, y, fq);
        }
    }
}

/// A list of values does not end in the character that opens one.
proof fn lemma_items_end(p: Seq<Doc>)
    requires
        p.len() > 0,
        forall|i: int| 0 <= i < p.len() ==> well_formed(#[trigger] p[i]),
    ensures
        item_texts(p).len() > 0,
        item_texts(p).last() != '[',
{
    let last = p[p.len() - 1];
    lemma_last_of(last);
    assert(item_texts(p).last() == doc_text(last).last());
}

/// The member is the text of an entry.
spec fn of_entry(m: Member, e: Seq<(Seq<char>, Doc)>) -> bool {
    exists|j: int| 0 <= j < e.len() && m == (#[trigger] e[j].0, doc_text(e[j].1))
}

spec fn of_entries(ms: Seq<Member>, e: Seq<(Seq<char>, Doc)>) -> bool {
    forall|i: int| 0 <= i < ms.len() ==> of_entry(#[trigger] ms[i], e)
}

proof fn lemma_member_texts_index(e: Seq<(Seq<char>, Doc)>)
    ensures
        member_texts(e).len() == e.len(),
        forall|i: int| 0 <= i < e.len() ==> #[trigger] member_texts(e)[i] == (e[i].0, doc_text(e[i].1)),
    decreases e.len(),
{
    if e.len() > 0 {
        lemma_member_texts_index(e.drop_last());
    }
}

proof fn lemma_sorted_members(e: Seq<(Seq<char>, Doc)>)
    ensures
        of_entries(in_key_order(member_texts(e)), e),
{
    broadcast use vstd::seq_lib::group_to_multiset_ensures;

    let texts = member_texts(e);
    let ms = in_key_order(texts);
    sorting_keeps_the_members(texts);
    lemma_member_texts_index(e);
    assert forall|i: int| 0 <= i < ms.len() implies of_entry(#[trigger] ms[i], e) by {
        assert(ms.contains(ms[i]));
        assert(texts.to_multiset().count(ms[i]) > 0);
        assert(texts.contains(ms[i]));
        let j = choose|j: int| 0 <= j < texts.len() && texts[j] == ms[i];
        assert(ms[i] == (e[j].0, doc_text(e[j].1)));
    }
}

proof fn lemma_members_end(ms: Seq<Member>, e: Seq<(Seq<char>, Doc)>)
    requires
        ms.len() > 0,
        of_entries(ms, e),
        forall|i: int| 0 <= i < e.len() ==> well_formed((#[trigger] e[i]).1),
    ensures
        member_list(ms).len() > 0,
        member_list(ms).last() != '{',
{
    let m = ms[ms.len() - 1];
    assert(of_entry(m, e));
    let j = choose|j: int| 0 <= j < e.len() && m == (#[trigger] e[j].0, doc_text(e[j].1));
    lemma_last_of(e[j].1);
    assert(member_text(m).last() == m.1.last());
    assert(member_list(ms).last() == member_text(m).last());
}

/// The last member of a list behind `x`, cut into what comes before its key, the
/// key and the value.
proof fn lemma_last_member(x: Seq<char>, ms: Seq<Member>)
    requires
        ms.len() > 0,
    ensures
        ({
            let m = ms[ms.len() - 1];
            let front = if ms.len() == 1 { x } else { x + member_list(ms.drop_last()) + ","@ };
            x + member_list(ms) == front + json_string(m.0) + ":"@ + m.1
        }),
{
    let m = ms[ms.len() - 1];
    let front = if ms.len() == 1 { x } else { x + member_list(ms.drop_last()) + ","@ };
    assert(x + member_list(ms) =~= front + json_string(m.0) + ":"@ + m.1);
}

proof fn lemma_cut_members(
    x: Seq<char>,
    ms: Seq<Member>,
    e: Seq<(Seq<char>, Doc)>,
    y: Seq<char>,
    ns: Seq<Member>,
    f: Seq<(Seq<char>, Doc)>,
)
    requires
        x + member_list(ms) == y + member_list(ns),
        x.len() > 0 && x.last() == '{',
        y.len() > 0 && y.last() == '{',
        of_entries(ms, e),
        of_entries(ns, f),
        forall|i: int| 0 <= i < e.len() ==> well_formed((#[trigger] e[i]).1),
        forall|i: int| 0 <= i < f.len() ==> well_formed((#[trigger] f[i]).1),
    ensures
        x == y,
        ms == ns,
    decreases e, ms.len(),
{
    reveal_strlit(",");
    reveal_strlit(":");
    if ms.len() == 0 || ns.len() == 0 {
        if ms.len() > 0 {
            lemma_members_end(ms, e);
            assert((x + member_list(ms)).last() == member_list(ms).last());
            assert(y + member_list(ns) =~= y);
        } else if ns.len() > 0 {
            lemma_members_end(ns, f);
            assert((y + member_list(ns)).last() == member_list(ns).last());
            assert(x + member_list(ms) =~= x);
        } else {
            assert(x + member_list(ms) =~= x);
            assert(y + member_list(ns) =~= y);
            assert(ms =~= ns);
        }
    } else {
        let fm = ms.drop_last();
        let fn_ = ns.drop_last();
        let m = ms[ms.len() - 1];
        let n = ns[ns.len() - 1];
        let xs = if ms.len() == 1 { x } else { x + member_list(fm) + ","@ };
        let ys = if ns.len() == 1 { y } else { y + member_list(fn_) + ","@ };
        let xk = xs + json_string(m.0);
        let yk = ys + json_string(n.0);
        lemma_last_member(x, ms);
        lemma_last_member(y, ns);
        assert(of_entry(m, e) && of_entry(n, f));
        let i = choose|i: int| 0 <= i < e.len() && m == (#[trigger] e[i].0, doc_text(e[i].1));
        let j = choose|j: int| 0 <= j < f.len() && n == (#[trigger] f[j].0, doc_text(f[j].1));
        assert(decreases_to!(e => e[i]));
        assert(decreases_to!(e[i] => e[i].1));
        lemma_cut_doc(xk + ":"@, e[i].1, yk + ":"@, f[j].1);
        assert((xk + ":"@ + m.1).len() == (xk + ":"@).len() + m.1.len());
        assert((yk + ":"@ + n.1).len() == (yk + ":"@).len() + n.1.len());
        lemma_cut_length(xk + ":"@, m.1, yk + ":"@, n.1);
        lemma_cut_length(xk, ":"@, yk, ":"@);
        lemma_cut_text(xs, m.0, ys, n.0);
        if ms.len() > 1 && ns.len() > 1 {
            lemma_cut_length(x + member_list(fm), ","@, y + member_list(fn_), ","@);
            assert(of_entries(fm, e)) by {
                assert forall|k: int| 0 <= k < fm.len() implies of_entry(#[trigger] fm[k], e) by {
                    assert(fm[k] == ms[k]);
                }
            }
            assert(of_entries(fn_, f)) by {
                assert forall|k: int| 0 <= k < fn_.len() implies of_entry(#[trigger] fn_[k], f) by {
                    assert(fn_[k] == ns[k]);
                }
            }
            lemma_cut_members(x, fm, e, y, fn_, f);
            assert(ms =~= fm.push(m));
            assert(ns =~= fn_.push(n));
        } else {
            assert(ms =~= ns);
        }
    }
}

/// A canonical text is of one document only, up to the order of object members.
pub proof fn canonical_text_tells_documents_apart(a: Doc, b: Doc)
    requires
        well_formed(a),
        well_formed(b),
        same_document(a, b),
    ensures
        agree(a, b),
    decreases a,
{
    broadcast use vstd::seq_lib::group_to_multiset_ensures;

    lemma_last_of(a);
    lemma_last_of(b);
    match (a, b) {
        (Doc::Bool(p), Doc::Bool(q)) => {
            reveal_strlit("true");
            reveal_strlit("false");
            assert(bool_json(p).len() == bool_json(q).len());
        },
        (Doc::Text(p), Doc::Text(q)) => {
            json_string_is_injective(p, q);
        },
        (Doc::List(p), Doc::List(q)) => {
            lemma_cut_length("["@ + item_texts(p), "]"@, "["@ + item_texts(q), "]"@);
            reveal_strlit("[");
            lemma_cut_items("["@, p, "["@, q);
            assert forall|i: int| 0 <= i < p.len() implies agree(#[trigger] p[i], q[i]) by {
                canonical_text_tells_documents_apart(p[i], q[i]);
            }
        },
        (Doc::Object(p), Doc::Object(q)) => {
            let s = member_texts(p);
            let t = member_texts(q);
            let ms = in_key_order(s);
            let ns = in_key_order(t);
            lemma_cut_length("{"@ + member_list(ms), "}"@, "{"@ + member_list(ns), "}"@);
            reveal_strlit("{");
            lemma_sorted_members(p);
            lemma_sorted_members(q);
            lemma_cut_members("{"@, ms, p, "{"@, ns, q);
            lemma_member_texts_index(p);
            lemma_member_texts_index(q);
            sorting_keeps_the_members(s);
            sorting_keeps_the_members(t);
            assert(s.to_multiset() == t.to_multiset());
            assert(s.to_multiset().len() == s.len() && t.to_multiset().len() == t.len());
            assert forall|i: int| 0 <= i < p.len() implies exists|j: int|
                0 <= j < q.len() && (#[trigger] q[j]).0 == (#[trigger] p[i]).0 && agree(p[i].1, q[j].1) by {
                assert(s.contains(s[i]));
                assert(t.to_multiset().count(s[i]) > 0);
                assert(t.contains(s[i]));
                let j = choose|j: int| 0 <= j < t.len() && t[j] == s[i];
                canonical_text_tells_documents_apart(p[i].1, q[j].1);
                assert(q[j].0 == p[i].0);
            }
        },
        _ => {},
    }
}

proof fn lemma_same_members(s: Seq<Member>, t: Seq<Member>)
    requires
        s.len() == t.len(),
        distinct_keys(s),
        distinct_keys(t),
        forall|i: int| 0 <= i < s.len() ==> t.contains(#[trigger] s[i]),
    ensures
        s.to_multiset() == t.to_multiset(),
    decreases s.len(),
{
    broadcast use vstd::seq_lib::group_to_multiset_ensures;

    if s.len() == 0 {
        assert(s =~= t);
    } else {
        let n = s.len() - 1;
        let m = s[n];
        assert(t.contains(m));
        let k = choose|k: int| 0 <= k < t.len() && t[k] == m;
        let front = s.drop_last();
        let rest = t.remove(k);
        assert forall|i: int| 0 <= i < front.len() implies rest.contains(#[trigger] front[i]) by {
            assert(front[i] == s[i]);
            assert(t.contains(s[i]));
            let l = choose|l: int| 0 <= l < t.len() && t[l] == s[i];
            assert(s[i].0 != s[n].0);
            if l < k {
                assert(rest[l] == s[i]);
            } else {
                assert(rest[l - 1] == s[i]);
            }
        }
        assert(distinct_keys(front)) by {
            assert forall|i: int, j: int| 0 <= i < j < front.len() implies (#[trigger] front[i]).0 != (#[trigger] front[j]).0 by {
                assert(s[i].0 != s[j].0);
            }
        }
        assert(distinct_keys(rest)) by {
            assert forall|i: int, j: int| 0 <= i < j < rest.len() implies (#[trigger] rest[i]).0 != (#[trigger] rest[j]).0 by {
                let u = if i < k { i } else { i + 1 };
                let v = if j < k { j } else { j + 1 };
                assert(t[u].0 != t[v].0);
            }
        }
        lemma_same_members(front, rest);
        assert(s =~= front.push(m));
        assert(rest.to_multiset() == t.to_multiset().remove(m));
        assert(t.contains(m));
        assert(t.to_multiset().remove(m).insert(m) =~= t.to_multiset());
    }
}

proof fn lemma_same_items(p: Seq<Doc>, q: Seq<Doc>)
    requires
        p.len() == q.len(),
        forall|i: int| 0 <= i < p.len() ==> doc_text(#[trigger] p[i]) == doc_text(q[i]),
    ensures
        item_texts(p) == item_texts(q),
    decreases p.len(),
{
    if p.len() > 1 {
        let fp = p.drop_last();
        let fq = q.drop_last();
        assert forall|i: int| 0 <= i < fp.len() implies doc_text(#[trigger] fp[i]) == doc_text(fq[i]) by {
            assert(doc_text(p[i]) == doc_text(q[i]));
        }
        lemma_same_items(fp, fq);
        assert(doc_text(p[p.len() - 1]) == doc_text(q[p.len() - 1]));
    } else if p.len() == 1 {
        assert(doc_text(p[0]) == doc_text(q[0]));
    }
}

/// Documents that hold the same values have one canonical text.
pub proof fn agreeing_documents_have_one_text(a: Doc, b: Doc)
    requires
        well_formed(a),
        well_formed(b),
        agree(a, b),
    ensures
        same_document(a, b),
    decreases a,
{
    match (a, b) {
        (Doc::List(p), Doc::List(q)) => {
            assert forall|i: int| 0 <= i < p.len() implies doc_text(#[trigger] p[i]) == doc_text(q[i]) by {
                assert(agree(p[i], q[i]));
                agreeing_documents_have_one_text(p[i], q[i]);
            }
            lemma_same_items(p, q);
        },
        (Doc::Object(p), Doc::Object(q)) => {
            let s = member_texts(p);
            let t = member_texts(q);
            lemma_member_texts_index(p);
            lemma_member_texts_index(q);
            assert forall|i: int| 0 <= i < s.len() implies t.contains(#[trigger] s[i]) by {
                assert(p[i].0 == s[i].0);
                let j = choose|j: int|
                    0 <= j < q.len() && (#[trigger] q[j]).0 == p[i].0 && agree(p[i].1, q[j].1);
                agreeing_documents_have_one_text(p[i].1, q[j].1);
                assert(t[j] == s[i]);
            }
            assert(distinct_keys(s)) by {
                assert forall|i: int, j: int| 0 <= i < j < s.len() implies (#[trigger] s[i]).0 != (#[trigger] s[j]).0 by {
                    assert(p[i].0 != p[j].0);
                }
            }
            assert(distinct_keys(t)) by {
                assert forall|i: int, j: int| 0 <= i < j < t.len() implies (#[trigger] t[i]).0 != (#[trigger] t[j]).0 by {
                    assert(q[i].0 != q[j].0);
                }
            }
            lemma_same_members(s, t);
            member_order_is_not_significant(s, t);
        },
        _ => {},
    }
}

/// A request's digest is taken of its method, its target and the values in its
/// body, and of nothing else: equal preimages are of equal requests.
pub proof fn equal_preimages_are_of_equal_requests(
    method: Seq<char>,
    target: Seq<char>,
    body: Json,
    other_method: Seq<char>,
    other_target: Seq<char>,
    other_body: Json,
)
    requires
        well_formed(body@),
        well_formed(other_body@),
        byte_len(method) <= u64::MAX && byte_len(other_method) <= u64::MAX,
        byte_len(target) <= u64::MAX && byte_len(other_target) <= u64::MAX,
        byte_len(canonical(body)) <= u64::MAX && byte_len(canonical(other_body)) <= u64::MAX,
    ensures
        preimage(method, target, canonical(body)) == preimage(other_method, other_target, canonical(other_body)) <==> (
        method == other_method && target == other_target && agree(body@, other_body@)),
{
    canonical_text_is_of_the_document(body);
    canonical_text_is_of_the_document(other_body);
    if preimage(method, target, canonical(body)) == preimage(other_method, other_target, canonical(other_body)) {
        preimages_are_unambiguous(
            method,
            target,
            canonical(body),
            other_method,
            other_target,
            canonical(other_body),
        );
        canonical_text_tells_documents_apart(body@, other_body@);
    }
    if agree(body@, other_body@) {
        agreeing_documents_have_one_text(body@, other_body@);
    }
}

} // verus!
