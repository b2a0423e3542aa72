//! JSON documents and their canonical text.
//!
//! The canonical text writes object members in the order of their keys, so it
//! does not depend on how a caller happened to order them.
use crate::allocation_retirement::{bool_json, bool_text};
use crate::json::{json_string, quoted};
use crate::text::lemma_utf8_injective;
use vstd::prelude::*;
use vstd::string::*;
use vstd::utf8::*;

verus! {

/// A JSON document. A number is held as its text.
#[derive(Debug)]
pub enum Json {
    Null,
    Bool(bool),
    Number(String),
    Text(String),
    List(Vec<Json>),
    Object(Vec<(String, Json)>),
}

/// Strict lexicographic order of byte strings.
pub open spec fn bytes_before(a: Seq<u8>, b: Seq<u8>) -> bool
    decreases a.len(),
{
    if b.len() == 0 {
        false
    } else if a.len() == 0 {
        true
    } else if a[0] != b[0] {
        a[0] < b[0]
    } else {
        bytes_before(a.skip(1), b.skip(1))
    }
}

/// The order of strings: that of their UTF-8 bytes.
pub open spec fn text_before(a: Seq<char>, b: Seq<char>) -> bool {
    bytes_before(encode_utf8(a), encode_utf8(b))
}

fn is_before(a: &str, b: &str) -> (r: bool)
    ensures
        r == text_before(a@, b@),
{
    let x: &[u8] = a.as_bytes();
    let y: &[u8] = b.as_bytes();
    let mut i: usize = 0;
    assert(x@.skip(0) =~= x@ && y@.skip(0) =~= y@);
    while i < x.len() && i < y.len()
        invariant
            x@ == encode_utf8(a@),
            y@ == encode_utf8(b@),
            i <= x@.len(),
            i <= y@.len(),
            bytes_before(x@, y@) == bytes_before(x@.skip(i as int), y@.skip(i as int)),
        decreases x@.len() - i,
    {
        proof {
            assert(x@.skip(i as int)[0] == x@[i as int]);
            assert(y@.skip(i as int)[0] == y@[i as int]);
            assert(x@.skip(i as int).skip(1) =~= x@.skip(i + 1));
            assert(y@.skip(i as int).skip(1) =~= y@.skip(i + 1));
        }
        if x[i] != y[i] {
            return x[i] < y[i];
        }
        i = i + 1;
    }
    i < y.len()
}

/// A member of an object: its key and the text of its value.
pub type Member = (Seq<char>, Seq<char>);

/// `m` placed behind every member whose key does not come after its own.
pub open spec fn placed(sorted: Seq<Member>, m: Member) -> Seq<Member>
    decreases sorted.len(),
{
    if sorted.len() == 0 || !text_before(m.0, sorted.last().0) {
        sorted.push(m)
    } else {
        placed(sorted.drop_last(), m).push(sorted.last())
    }
}

/// The members in the order of their keys.
pub open spec fn in_key_order(members: Seq<Member>) -> Seq<Member>
    decreases members.len(),
{
    if members.len() == 0 {
        Seq::empty()
    } else {
        placed(in_key_order(members.drop_last()), members.last())
    }
}

pub open spec fn member_text(m: Member) -> Seq<char> {
    json_string(m.0) + ":"@ + m.1
}

pub open spec fn member_list(members: Seq<Member>) -> Seq<char>
    decreases members.len(),
{
    if members.len() == 0 {
        Seq::empty()
    } else if members.len() == 1 {
        member_text(members[0])
    } else {
        member_list(members.drop_last()) + ","@ + member_text(members.last())
    }
}

/// The members of an object with the canonical texts of their values.
pub open spec fn members_of(members: Seq<(String, Json)>) -> Seq<Member>
    decreases members,
{
    if members.len() == 0 {
        Seq::empty()
    } else {
        members_of(members.drop_last()).push((members.last().0@, canonical(members.last().1)))
    }
}

pub open spec fn item_list(items: Seq<Json>) -> Seq<char>
    decreases items,
{
    if items.len() == 0 {
        Seq::empty()
    } else if items.len() == 1 {
        canonical(items[0])
    } else {
        item_list(items.drop_last()) + ","@ + canonical(items.last())
    }
}

/// The canonical text of a document: no white space, object members in key
/// order, list items in their own order.
pub open spec fn canonical(value: Json) -> Seq<char>
    decreases value,
{
    match value {
        Json::Null => "null"@,
        Json::Bool(b) => bool_json(b),
        Json::Number(n) => n@,
        Json::Text(t) => json_string(t@),
        Json::List(items) => "["@ + item_list(items@) + "]"@,
        Json::Object(members) => "{"@ + member_list(in_key_order(members_of(members@))) + "}"@,
    }
}

/// Placing a member is inserting it at the position found from the end.
proof fn lemma_placed_at(sorted: Seq<Member>, m: Member, k: int)
    requires
        0 <= k <= sorted.len(),
        k > 0 ==> !text_before(m.0, sorted[k - 1].0),
        forall|i: int| k <= i < sorted.len() ==> text_before(m.0, (#[trigger] sorted[i]).0),
    ensures
        placed(sorted, m) == sorted.insert(k, m),
    decreases sorted.len(),
{
    if k == sorted.len() {
        assert(sorted.insert(k, m) =~= sorted.push(m));
    } else {
        assert(text_before(m.0, sorted[sorted.len() - 1].0));
        let front = sorted.drop_last();
        assert(forall|i: int| 0 <= i < front.len() ==> front[i] == sorted[i]);
        lemma_placed_at(front, m, k);
        assert(front.insert(k, m).push(sorted.last()) =~= sorted.insert(k, m));
    }
}

/// The texts of a list of pairs.
pub open spec fn member_views(members: Seq<(String, String)>) -> Seq<Member> {
    members.map_values(|m: (String, String)| (m.0@, m.1@))
}

/// No key of the pairs occurs twice.
pub open spec fn keys_once(pairs: Seq<(String, String)>) -> bool {
    distinct_keys(member_views(pairs))
}

fn place(sorted: &mut Vec<(String, String)>, key: String, value: String)
    ensures
        member_views(final(sorted)@) == placed(member_views(old(sorted)@), (key@, value@)),
{
    let ghost before = sorted@;
    let ghost m = (key@, value@);
    let mut k: usize = sorted.len();
    while k > 0 && is_before(key.as_str(), sorted[k - 1].0.as_str())
        invariant
            k <= sorted@.len(),
            sorted@ == before,
            m == (key@, value@),
            forall|i: int| k <= i < before.len() ==> text_before(m.0, (#[trigger] member_views(before)[i]).0),
        ensures
            k <= sorted@.len(),
            sorted@ == before,
            m == (key@, value@),
            forall|i: int| k <= i < before.len() ==> text_before(m.0, (#[trigger] member_views(before)[i]).0),
            k > 0 ==> !text_before(m.0, member_views(before)[k - 1].0),
        decreases k,
    {
        k = k - 1;
    }
    proof {
        lemma_placed_at(member_views(before), m, k as int);
    }
    sorted.insert(k, (key, value));
    proof {
        assert(member_views(sorted@) =~= member_views(before).insert(k as int, m));
    }
}

/// The pairs in the order of their keys.
pub fn sort_pairs(pairs: &Vec<(String, String)>) -> (r: Vec<(String, String)>)
    ensures
        member_views(r@) == in_key_order(member_views(pairs@)),
        key_ordered(member_views(r@)),
        keys_once(r@) == keys_once(pairs@),
{
    let mut sorted: Vec<(String, String)> = Vec::new();
    let ghost views = member_views(pairs@);
    let mut i: usize = 0;
    assert(views.take(0) =~= Seq::empty());
    assert(member_views(sorted@) =~= Seq::empty());
    while i < pairs.len()
        invariant
            views == member_views(pairs@),
            i <= pairs@.len(),
            member_views(sorted@) == in_key_order(views.take(i as int)),
        decreases pairs@.len() - i,
    {
        proof {
            assert(views.take(i + 1).drop_last() =~= views.take(i as int));
            assert(views.take(i + 1).last() == views[i as int]);
        }
        place(&mut sorted, pairs[i].0.clone(), pairs[i].1.clone());
        i = i + 1;
    }
    assert(views.take(i as int) =~= views);
    proof {
        sorting_keeps_the_members(views);
        if keys_once(pairs@) {
            lemma_distinct_after_reordering(views, member_views(sorted@));
        }
        if keys_once(sorted@) {
            lemma_distinct_after_reordering(member_views(sorted@), views);
        }
    }
    sorted
}

fn joined(members: &Vec<(String, String)>) -> (r: String)
    ensures
        r@ == member_list(member_views(members@)),
{
    let mut list: String = String::new();
    let mut i: usize = 0;
    assert(member_views(members@).take(0) =~= Seq::empty());
    while i < members.len()
        invariant
            i <= members@.len(),
            list@ == member_list(member_views(members@).take(i as int)),
        decreases members@.len() - i,
    {
        let ghost views = member_views(members@);
        proof {
            assert(views.take(i + 1).drop_last() =~= views.take(i as int));
            assert(views.take(i + 1).last() == views[i as int]);
        }
        if i > 0 {
            list.append(",");
        }
        let mut one: String = quoted(members[i].0.as_str());
        one.append(":");
        one.append(members[i].1.as_str());
        assert(one@ == member_text(views[i as int]));
        list.append(one.as_str());
        proof {
            if i == 0 {
                assert(list@ =~= member_text(views[0]));
            }
        }
        i = i + 1;
    }
    assert(member_views(members@).take(i as int) =~= member_views(members@));
    list
}

/// Write a document with object keys in sorted order.
pub fn canonical_text(value: &Json) -> (r: String)
    ensures
        r@ == canonical(*value),
    decreases value,
{
    match value {
        Json::Null => "null".to_owned(),
        Json::Bool(b) => bool_text(*b).to_owned(),
        Json::Number(n) => n.as_str().to_owned(),
        Json::Text(t) => quoted(t.as_str()),
        Json::List(items) => {
            let mut list: String = String::new();
            let mut i: usize = 0;
            assert(items@.take(0) =~= Seq::empty());
            while i < items.len()
                invariant
                    *value == Json::List(*items),
                    i <= items@.len(),
                    list@ == item_list(items@.take(i as int)),
                decreases items@.len() - i,
            {
                proof {
                    assert(items@.take(i + 1).drop_last() =~= items@.take(i as int));
                    assert(items@.take(i + 1).last() == items@[i as int]);
                }
                if i > 0 {
                    list.append(",");
                }
                assert(decreases_to!(*value => value->List_0@));
                assert(decreases_to!(items@ => items@[i as int]));
                list.append(canonical_text(&items[i]).as_str());
                proof {
                    if i == 0 {
                        assert(list@ =~= canonical(items@[0]));
                    }
                }
                i = i + 1;
            }
            assert(items@.take(i as int) =~= items@);
            let mut out: String = "[".to_owned();
            out.append(list.as_str());
            out.append("]");
            out
        },
        Json::Object(members) => {
            let mut sorted: Vec<(String, String)> = Vec::new();
            let mut i: usize = 0;
            assert(members@.take(0) =~= Seq::empty());
            assert(member_views(sorted@) =~= Seq::empty());
            while i < members.len()
                invariant
                    *value == Json::Object(*members),
                    i <= members@.len(),
                    member_views(sorted@) == in_key_order(members_of(members@.take(i as int))),
                decreases members@.len() - i,
            {
                proof {
                    let t = members@.take(i + 1);
                    assert(t.drop_last() =~= members@.take(i as int));
                    assert(t.last() == members@[i as int]);
                    assert(members_of(t).drop_last() =~= members_of(members@.take(i as int)));
                }
                assert(decreases_to!(*value => value->Object_0@));
                assert(decreases_to!(members@ => members@[i as int]));
                assert(decreases_to!(members@[i as int] => members@[i as int].1));
                let text: String = canonical_text(&members[i].1);
                place(&mut sorted, members[i].0.clone(), text);
                i = i + 1;
            }
            assert(members@.take(i as int) =~= members@);
            let mut out: String = "{".to_owned();
            out.append(joined(&sorted).as_str());
            out.append("}");
            out
        },
    }
}

proof fn lemma_before_irreflexive(a: Seq<u8>)
    ensures
        !bytes_before(a, a),
    decreases a.len(),
{
    if a.len() > 0 {
        lemma_before_irreflexive(a.skip(1));
    }
}

proof fn lemma_before_transitive(a: Seq<u8>, b: Seq<u8>, c: Seq<u8>)
    requires
        bytes_before(a, b),
        bytes_before(b, c),
    ensures
        bytes_before(a, c),
    decreases a.len(),
{
    if a.len() > 0 && b.len() > 0 && c.len() > 0 && a[0] == b[0] && b[0] == c[0] {
        lemma_before_transitive(a.skip(1), b.skip(1), c.skip(1));
    }
}

proof fn lemma_before_total(a: Seq<u8>, b: Seq<u8>)
    ensures
        a == b || bytes_before(a, b) || bytes_before(b, a),
    decreases a.len(),
{
    if a.len() == 0 && b.len() == 0 {
        assert(a =~= b);
    } else if a.len() > 0 && b.len() > 0 && a[0] == b[0] {
        lemma_before_total(a.skip(1), b.skip(1));
        if a.skip(1) == b.skip(1) {
            assert(a =~= seq![a[0]] + a.skip(1));
            assert(b =~= seq![b[0]] + b.skip(1));
        }
    }
}

/// The order of strings is a strict total order.
pub proof fn text_order_is_total(a: Seq<char>, b: Seq<char>, c: Seq<char>)
    ensures
        !text_before(a, a),
        text_before(a, b) && text_before(b, c) ==> text_before(a, c),
        a == b || text_before(a, b) || text_before(b, a),
{
    lemma_before_irreflexive(encode_utf8(a));
    if text_before(a, b) && text_before(b, c) {
        lemma_before_transitive(encode_utf8(a), encode_utf8(b), encode_utf8(c));
    }
    lemma_before_total(encode_utf8(a), encode_utf8(b));
    if encode_utf8(a) == encode_utf8(b) {
        lemma_utf8_injective(a, b);
    }
}

/// No key comes before an earlier one.
pub open spec fn key_ordered(members: Seq<Member>) -> bool {
    forall|i: int, j: int|
        0 <= i < j < members.len() ==> !text_before((#[trigger] members[j]).0, (#[trigger] members[i]).0)
}

/// No key occurs twice.
pub open spec fn distinct_keys(members: Seq<Member>) -> bool {
    forall|i: int, j: int| 0 <= i < j < members.len() ==> (#[trigger] members[i]).0 != (#[trigger] members[j]).0
}

proof fn lemma_placed(sorted: Seq<Member>, m: Member)
    requires
        key_ordered(sorted),
    ensures
        key_ordered(placed(sorted, m)),
        placed(sorted, m).to_multiset() == sorted.to_multiset().insert(m),
    decreases sorted.len(),
{
    broadcast use vstd::seq_lib::group_to_multiset_ensures;

    if sorted.len() == 0 || !text_before(m.0, sorted.last().0) {
        let t = sorted.push(m);
        assert forall|i: int, j: int| 0 <= i < j < t.len() implies !text_before((#[trigger] t[j]).0, (#[trigger] t[i]).0) by {
            if j == sorted.len() && i < sorted.len() - 1 {
                let last = sorted.len() - 1;
                assert(!text_before(sorted[last].0, sorted[i].0));
                text_order_is_total(m.0, sorted[i].0, sorted[last].0);
                text_order_is_total(sorted[i].0, sorted[last].0, m.0);
                if text_before(m.0, sorted[i].0) && sorted[i].0 == sorted[last].0 {
                    assert(false);
                }
            }
        }
    } else {
        let front = sorted.drop_last();
        assert(forall|i: int| 0 <= i < front.len() ==> front[i] == sorted[i]);
        lemma_placed(front, m);
        let p = placed(front, m);
        let t = p.push(sorted.last());
        assert forall|i: int, j: int| 0 <= i < j < t.len() implies !text_before((#[trigger] t[j]).0, (#[trigger] t[i]).0) by {
            if j == p.len() {
                assert(p.contains(p[i]));
                assert(p.to_multiset().count(p[i]) > 0);
                let x = p[i];
                if x == m {
                    text_order_is_total(m.0, sorted.last().0, m.0);
                } else {
                    assert(front.to_multiset().count(x) > 0);
                    assert(front.contains(x));
                    let k = choose|k: int| 0 <= k < front.len() && front[k] == x;
                    assert(sorted[k] == x);
                    assert(!text_before(sorted[sorted.len() - 1].0, sorted[k].0));
                }
            }
        }
        assert(sorted =~= front.push(sorted.last()));
        assert(t.to_multiset() =~= sorted.to_multiset().insert(m));
    }
}

/// Sorting keeps the members and puts them in key order.
pub proof fn sorting_keeps_the_members(members: Seq<Member>)
    ensures
        key_ordered(in_key_order(members)),
        in_key_order(members).to_multiset() == members.to_multiset(),
    decreases members.len(),
{
    broadcast use vstd::seq_lib::group_to_multiset_ensures;

    if members.len() > 0 {
        sorting_keeps_the_members(members.drop_last());
        lemma_placed(in_key_order(members.drop_last()), members.last());
        assert(members =~= members.drop_last().push(members.last()));
    } else {
        assert(members =~= Seq::empty());
    }
}

proof fn lemma_distinct_after_reordering(a: Seq<Member>, b: Seq<Member>)
    requires
        distinct_keys(a),
        a.to_multiset() == b.to_multiset(),
    ensures
        distinct_keys(b),
{
    broadcast use vstd::seq_lib::group_to_multiset_ensures;

    assert forall|i: int, j: int| 0 <= i < j < b.len() implies (#[trigger] b[i]).0 != (#[trigger] b[j]).0 by {
        if b[i].0 == b[j].0 {
            assert(b.contains(b[i]) && b.contains(b[j]));
            assert(a.to_multiset().count(b[i]) > 0 && a.to_multiset().count(b[j]) > 0);
            assert(a.contains(b[i]) && a.contains(b[j]));
            let x = choose|x: int| 0 <= x < a.len() && a[x] == b[i];
            let y = choose|y: int| 0 <= y < a.len() && a[y] == b[j];
            if x == y {
                // The same member twice: removing one occurrence leaves the other.
                let rest = b.remove(i);
                assert(rest[j - 1] == b[j]);
                assert(rest.contains(b[i]));
                assert(rest.to_multiset() == a.to_multiset().remove(a[x]));
                let arest = a.remove(x);
                assert(arest.to_multiset() == rest.to_multiset());
                assert(arest.to_multiset().count(b[i]) > 0);
                assert(arest.contains(b[i]));
                let z = choose|z: int| 0 <= z < arest.len() && arest[z] == b[i];
                if z < x {
                    assert(a[z].0 == a[x].0);
                } else {
                    assert(a[z + 1] == arest[z]);
                    assert(a[x].0 == a[z + 1].0);
                }
            } else if x < y {
                assert(a[x].0 != a[y].0);
            } else {
                assert(a[y].0 != a[x].0);
            }
        }
    }
}

proof fn lemma_sorted_unique(a: Seq<Member>, b: Seq<Member>)
    requires
        key_ordered(a),
        key_ordered(b),
        distinct_keys(a),
        distinct_keys(b),
        a.to_multiset() == b.to_multiset(),
    ensures
        a == b,
    decreases a.len(),
{
    broadcast use vstd::seq_lib::group_to_multiset_ensures;

    assert(a.to_multiset().len() == a.len() && b.to_multiset().len() == b.len());
    if a.len() == 0 {
        assert(a =~= b);
    } else {
        let n = a.len() - 1;
        let x = a[n];
        let y = b[n];
        assert(a.contains(x) && b.contains(y));
        assert(b.to_multiset().count(x) > 0 && a.to_multiset().count(y) > 0);
        let i = choose|i: int| 0 <= i < b.len() && b[i] == x;
        let j = choose|j: int| 0 <= j < a.len() && a[j] == y;
        if x != y {
            assert(!text_before(b[n].0, b[i].0));
            assert(!text_before(a[n].0, a[j].0));
            text_order_is_total(x.0, y.0, x.0);
            assert(b[i].0 != b[n].0);
            assert(false);
        }
        assert(a.drop_last() =~= a.remove(n));
        assert(b.drop_last() =~= b.remove(n));
        assert(a.remove(n).to_multiset() == b.remove(n).to_multiset());
        let fa = a.drop_last();
        let fb = b.drop_last();
        assert(forall|k: int| 0 <= k < n ==> fa[k] == a[k] && fb[k] == b[k]);
        lemma_sorted_unique(fa, fb);
        assert(a =~= fa.push(x));
        assert(b =~= fb.push(y));
    }
}

/// Field order is not significant: members with distinct keys sort the same way
/// whatever order they came in.
pub proof fn member_order_is_not_significant(a: Seq<Member>, b: Seq<Member>)
    requires
        distinct_keys(a),
        a.to_multiset() == b.to_multiset(),
    ensures
        in_key_order(a) == in_key_order(b),
{
    sorting_keeps_the_members(a);
    sorting_keeps_the_members(b);
    lemma_distinct_after_reordering(a, b);
    lemma_distinct_after_reordering(a, in_key_order(a));
    lemma_distinct_after_reordering(b, in_key_order(b));
    lemma_sorted_unique(in_key_order(a), in_key_order(b));
}

proof fn lemma_members_of_index(members: Seq<(String, Json)>)
    ensures
        members_of(members).len() == members.len(),
        forall|i: int|
            0 <= i < members.len() ==> #[trigger] members_of(members)[i] == (members[i].0@, canonical(members[i].1)),
    decreases members.len(),
{
    if members.len() > 0 {
        lemma_members_of_index(members.drop_last());
    }
}

proof fn lemma_members_of_remove(members: Seq<(String, Json)>, k: int)
    requires
        0 <= k < members.len(),
    ensures
        members_of(members.remove(k)) == members_of(members).remove(k),
{
    lemma_members_of_index(members);
    lemma_members_of_index(members.remove(k));
    assert(members_of(members.remove(k)) =~= members_of(members).remove(k));
}

proof fn lemma_members_of_reordered(a: Seq<(String, Json)>, b: Seq<(String, Json)>)
    requires
        a.to_multiset() == b.to_multiset(),
    ensures
        members_of(a).to_multiset() == members_of(b).to_multiset(),
    decreases a.len(),
{
    broadcast use vstd::seq_lib::group_to_multiset_ensures;

    assert(a.to_multiset().len() == a.len() && b.to_multiset().len() == b.len());
    if a.len() > 0 {
        let x = a[0];
        assert(a.contains(x));
        assert(b.to_multiset().count(x) > 0);
        let k = choose|k: int| 0 <= k < b.len() && b[k] == x;
        assert(a.remove(0).to_multiset() == b.remove(k).to_multiset());
        lemma_members_of_reordered(a.remove(0), b.remove(k));
        lemma_members_of_remove(a, 0);
        lemma_members_of_remove(b, k);
        lemma_members_of_index(a);
        lemma_members_of_index(b);
        let ma = members_of(a);
        let mb = members_of(b);
        assert(ma[0] == mb[k]);
        assert(ma.contains(ma[0]) && mb.contains(mb[k]));
        assert(ma.remove(0).to_multiset() == ma.to_multiset().remove(ma[0]));
        assert(mb.remove(k).to_multiset() == mb.to_multiset().remove(mb[k]));
        assert(ma.to_multiset() =~= ma.to_multiset().remove(ma[0]).insert(ma[0]));
        assert(mb.to_multiset() =~= mb.to_multiset().remove(mb[k]).insert(mb[k]));
    } else {
        assert(members_of(a) =~= members_of(b));
    }
}

/// Two objects with the same members in another order have the same canonical
/// text.
pub proof fn reordered_objects_are_equal(a: Vec<(String, Json)>, b: Vec<(String, Json)>)
    requires
        a@.to_multiset() == b@.to_multiset(),
        forall|i: int, j: int| 0 <= i < j < a@.len() ==> (#[trigger] a@[i]).0@ != (#[trigger] a@[j]).0@,
    ensures
        canonical(Json::Object(a)) == canonical(Json::Object(b)),
{
    lemma_members_of_index(a@);
    let m = members_of(a@);
    assert forall|i: int, j: int| 0 <= i < j < m.len() implies (#[trigger] m[i]).0 != (#[trigger] m[j]).0 by {
        assert(a@[i].0@ != a@[j].0@);
    }
    lemma_members_of_reordered(a@, b@);
    member_order_is_not_significant(m, members_of(b@));
}

} // verus!
