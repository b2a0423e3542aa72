//! What a JSON document says, apart from how it is held: reading its members and
//! building new documents.
use crate::allocation_retirement::bool_json;
use crate::canonical::{
    canonical, canonical_text, in_key_order, item_list, member_list, members_of, Json, Member,
};
use crate::ids::hex_digit;
use crate::json::{decimal, json_string, signed_decimal, signed_text};
use crate::text::same_text;
use vstd::prelude::*;
use vstd::string::*;

verus! {

/// A document as a mathematical value. A number is its text; a member list keeps
/// the order in which the members were written.
pub enum Doc {
    Null,
    Bool(bool),
    Number(Seq<char>),
    Text(Seq<char>),
    List(Seq<Doc>),
    Object(Seq<(Seq<char>, Doc)>),
}

pub open spec fn docs(items: Seq<Json>) -> Seq<Doc>
    decreases items,
{
    if items.len() == 0 {
        Seq::empty()
    } else {
        docs(items.drop_last()).push(doc(items.last()))
    }
}

pub open spec fn entries(members: Seq<(String, Json)>) -> Seq<(Seq<char>, Doc)>
    decreases members,
{
    if members.len() == 0 {
        Seq::empty()
    } else {
        entries(members.drop_last()).push((members.last().0@, doc(members.last().1)))
    }
}

/// What a document says.
pub open spec fn doc(value: Json) -> Doc
    decreases value,
{
    match value {
        Json::Null => Doc::Null,
        Json::Bool(b) => Doc::Bool(b),
        Json::Number(n) => Doc::Number(n@),
        Json::Text(t) => Doc::Text(t@),
        Json::List(items) => Doc::List(docs(items@)),
        Json::Object(members) => Doc::Object(entries(members@)),
    }
}

impl View for Json {
    type V = Doc;

    open spec fn view(&self) -> Doc {
        doc(*self)
    }
}

pub proof fn lemma_docs(items: Seq<Json>)
    ensures
        docs(items).len() == items.len(),
        forall|i: int| 0 <= i < items.len() ==> #[trigger] docs(items)[i] == doc(items[i]),
    decreases items,
{
    if items.len() > 0 {
        lemma_docs(items.drop_last());
        assert forall|i: int| 0 <= i < items.len() implies #[trigger] docs(items)[i] == doc(items[i]) by {
            if i < items.len() - 1 {
                assert(docs(items)[i] == docs(items.drop_last())[i]);
            }
        }
    }
}

pub proof fn lemma_entries(members: Seq<(String, Json)>)
    ensures
        entries(members).len() == members.len(),
        forall|i: int| 0 <= i < members.len() ==> #[trigger] entries(members)[i] == (members[i].0@, doc(members[i].1)),
    decreases members,
{
    if members.len() > 0 {
        lemma_entries(members.drop_last());
        assert forall|i: int| 0 <= i < members.len() implies #[trigger] entries(members)[i] == (
            members[i].0@,
            doc(members[i].1),
        ) by {
            if i < members.len() - 1 {
                assert(entries(members)[i] == entries(members.drop_last())[i]);
            }
        }
    }
}

/// The value that the last member with the key holds.
pub open spec fn value_of(members: Seq<(Seq<char>, Doc)>, key: Seq<char>) -> Option<Doc>
    decreases members.len(),
{
    if members.len() == 0 {
        None
    } else if members.last().0 == key {
        Some(members.last().1)
    } else {
        value_of(members.drop_last(), key)
    }
}

/// A member that is added last is the one that its key finds.
pub proof fn lemma_value_of_push(members: Seq<(Seq<char>, Doc)>, key: Seq<char>, value: Doc, k: Seq<char>)
    ensures
        value_of(members.push((key, value)), k) == (if key == k {
            Some(value)
        } else {
            value_of(members, k)
        }),
{
    assert(members.push((key, value)).drop_last() =~= members);
}

/// The same of every member that is added: its key finds it, and every other key
/// finds what it found before.
pub broadcast proof fn lemma_pushed_member(members: Seq<(Seq<char>, Doc)>, key: Seq<char>, value: Doc, k: Seq<char>)
    ensures
        #[trigger] value_of(members.push((key, value)), k) == (if key == k {
            Some(value)
        } else {
            value_of(members, k)
        }),
{
    lemma_value_of_push(members, key, value, k);
}

/// The member of an object with the key; nothing for any other document.
pub open spec fn field(d: Doc, key: Seq<char>) -> Option<Doc> {
    match d {
        Doc::Object(members) => value_of(members, key),
        _ => None,
    }
}

/// The item of a list at the index; nothing for any other document.
pub open spec fn item(d: Doc, i: int) -> Option<Doc> {
    match d {
        Doc::List(items) => if 0 <= i < items.len() {
            Some(items[i])
        } else {
            None
        },
        _ => None,
    }
}

pub open spec fn is_text(d: Option<Doc>, text: Seq<char>) -> bool {
    d == Some(Doc::Text(text))
}

pub open spec fn is_flag(d: Option<Doc>, flag: bool) -> bool {
    d == Some(Doc::Bool(flag))
}

pub open spec fn is_integer(d: Option<Doc>, n: int) -> bool {
    d == Some(Doc::Number(signed_decimal(n)))
}

pub open spec fn number(n: int) -> Doc {
    Doc::Number(signed_decimal(n))
}

/// The text that a member holds.
pub open spec fn text_of(d: Option<Doc>) -> Option<Seq<char>> {
    match d {
        Some(Doc::Text(t)) => Some(t),
        _ => None,
    }
}

/// The flag that a member holds.
pub open spec fn flag_of(d: Option<Doc>) -> Option<bool> {
    match d {
        Some(Doc::Bool(b)) => Some(b),
        _ => None,
    }
}

/// The integer that a numeral of a 64-bit signed integer stands for.
pub open spec fn integer_of(d: Option<Doc>) -> Option<i64> {
    match d {
        Some(Doc::Number(t)) => if exists|n: i64| signed_decimal(n as int) == t {
            Some(choose|n: i64| signed_decimal(n as int) == t)
        } else {
            None
        },
        _ => None,
    }
}

/// What decimal digits stand for.
spec fn digits_value(text: Seq<char>) -> int
    decreases text.len(),
{
    if text.len() == 0 {
        0
    } else {
        digits_value(text.drop_last()) * 10 + (text.last() as int - '0' as int)
    }
}

proof fn lemma_digits_value(n: nat)
    ensures
        digits_value(decimal(n)) == n,
        decimal(n).len() > 0,
        forall|i: int| 0 <= i < decimal(n).len() ==> '0' <= #[trigger] decimal(n)[i] <= '9',
    decreases n,
{
    if n >= 10 {
        lemma_digits_value(n / 10);
        assert(decimal(n).drop_last() =~= decimal(n / 10));
        assert(hex_digit((n % 10) as int) as int == '0' as int + n % 10);
    } else {
        let one = seq![hex_digit(n as int)];
        assert(one.drop_last() =~= Seq::<char>::empty());
        assert(digits_value(one.drop_last()) == 0);
        assert(digits_value(one) == one.last() as int - '0' as int);
    }
}

/// A natural number's numeral is one or more decimal digits.
pub proof fn lemma_decimal_digits(n: nat)
    ensures
        decimal(n).len() > 0,
        forall|i: int| 0 <= i < decimal(n).len() ==> '0' <= #[trigger] decimal(n)[i] <= '9',
{
    lemma_digits_value(n);
}

/// Different integers have different numerals.
pub proof fn numerals_are_distinct(a: int, b: int)
    ensures
        signed_decimal(a) == signed_decimal(b) <==> a == b,
{
    reveal_strlit("-");
    lemma_digits_value(if a < 0 { (-a) as nat } else { a as nat });
    lemma_digits_value(if b < 0 { (-b) as nat } else { b as nat });
    if signed_decimal(a) == signed_decimal(b) {
        if a < 0 {
            assert(signed_decimal(a)[0] == '-');
            assert(signed_decimal(a).skip(1) =~= decimal((-a) as nat));
        }
        if b < 0 {
            assert(signed_decimal(b)[0] == '-');
            assert(signed_decimal(b).skip(1) =~= decimal((-b) as nat));
        }
    }
}

/// The integer of a member is the one whose numeral it holds.
pub proof fn lemma_integer_of(n: i64)
    ensures
        integer_of(Some(number(n as int))) == Some(n),
{
    assert forall|m: i64| signed_decimal(m as int) == signed_decimal(n as int) implies m == n by {
        numerals_are_distinct(m as int, n as int);
    }
    let t = signed_decimal(n as int);
    assert(exists|m: i64| signed_decimal(m as int) == t);
}

/// The integer whose numeral the text is.
fn numeral(text: &str) -> (r: Option<i64>)
    ensures
        r == integer_of(Some(Doc::Number(text@))),
{
    let n: usize = text.unicode_len();
    let negative: bool = n > 0 && text.get_char(0) == '-';
    let start: usize = if negative { 1 } else { 0 };
    let ghost digits = text@.skip(start as int);
    if n > 20 {
        proof {
            if exists|k: i64| signed_decimal(k as int) == text@ {
                let k = choose|k: i64| signed_decimal(k as int) == text@;
                lemma_numeral_length(k as int);
            }
        }
        return None;
    }
    let mut value: i128 = 0;
    let mut i: usize = start;
    assert(digits.take(0) =~= Seq::empty());
    assert(pow_bound(0) == 1);
    while i < n
        invariant
            n == text@.len(),
            n <= 20,
            start <= 1,
            start <= i <= n,
            digits == text@.skip(start as int),
            value == digits_value(digits.take(i - start)),
            0 <= value < pow_bound((i - start) as nat),
            negative == (n > 0 && text@[0] == '-'),
            start == (if negative { 1int } else { 0int }),
        decreases n - i,
    {
        let c: char = text.get_char(i);
        if c < '0' || c > '9' {
            proof {
                if exists|k: i64| signed_decimal(k as int) == text@ {
                    let k = choose|k: i64| signed_decimal(k as int) == text@;
                    lemma_numeral_shape(k as int);
                    assert(text@[i as int] == c);
                    assert(false);
                }
            }
            return None;
        }
        proof {
            let so_far = digits.take(i - start);
            let next = digits.take(i - start + 1);
            assert(next.drop_last() =~= so_far);
            assert(next.last() == c);
            lemma_pow_bound((i - start) as nat);
            lemma_pow_bound_fits();
        }
        value = value * 10 + (c as u32 - '0' as u32) as i128;
        i = i + 1;
    }
    proof {
        assert(digits.take(i - start) =~= digits);
        assert(text@.skip(0) =~= text@);
        lemma_pow_bound_fits();
        if n > start {
            lemma_pow_bound((n - start - 1) as nat);
        }
    }
    let signed: i128 = if negative { -value } else { value };
    if signed < i64::MIN as i128 || signed > i64::MAX as i128 {
        proof {
            if exists|k: i64| signed_decimal(k as int) == text@ {
                let k = choose|k: i64| signed_decimal(k as int) == text@;
                lemma_numeral_reading(k as int);
                assert(digits =~= text@.skip(if k < 0 { 1 } else { 0 }));
                assert(false);
            }
        }
        return None;
    }
    let candidate: i64 = signed as i64;
    let written: String = signed_text(candidate);
    if same_text(written.as_str(), text) {
        proof {
            lemma_integer_of(candidate);
        }
        Some(candidate)
    } else {
        proof {
            if exists|k: i64| signed_decimal(k as int) == text@ {
                let k = choose|k: i64| signed_decimal(k as int) == text@;
                lemma_numeral_reading(k as int);
                assert(digits =~= text@.skip(if k < 0 { 1 } else { 0 }));
                assert(k == candidate);
                assert(false);
            }
        }
        None
    }
}

/// Ten to the power `k`.
spec fn pow_bound(k: nat) -> int
    decreases k,
{
    if k == 0 {
        1
    } else {
        10 * pow_bound((k - 1) as nat)
    }
}

proof fn lemma_pow_bound(k: nat)
    requires
        k < 20,
    ensures
        pow_bound(k + 1) == 10 * pow_bound(k),
        pow_bound(k) <= pow_bound(19),
        0 < pow_bound(k),
    decreases 20 - k,
{
    reveal_with_fuel(pow_bound, 21);
    if k < 19 {
        lemma_pow_bound(k + 1);
    }
}

proof fn lemma_pow_bound_fits()
    ensures
        pow_bound(20) == 100000000000000000000,
        pow_bound(19) == 10000000000000000000,
{
    reveal_with_fuel(pow_bound, 21);
}

proof fn lemma_numeral_length(n: int)
    requires
        i64::MIN <= n <= i64::MAX,
    ensures
        signed_decimal(n).len() <= 20,
{
    reveal_strlit("-");
    lemma_pow_bound_fits();
    lemma_decimal_length(if n < 0 { (-n) as nat } else { n as nat }, 19);
}

proof fn lemma_decimal_length(n: nat, k: nat)
    requires
        n < pow_bound(k),
        k >= 1,
    ensures
        decimal(n).len() <= k,
    decreases k,
{
    if n >= 10 {
        if k == 1 {
            reveal_with_fuel(pow_bound, 2);
        } else {
            assert(pow_bound(k) == 10 * pow_bound((k - 1) as nat));
            lemma_decimal_length(n / 10, (k - 1) as nat);
        }
    }
}

proof fn lemma_numeral_shape(n: int)
    ensures
        forall|i: int|
            0 <= i < signed_decimal(n).len() && !(i == 0 && signed_decimal(n)[0] == '-') ==> '0' <= #[trigger] signed_decimal(
                n,
            )[i] <= '9',
{
    reveal_strlit("-");
    lemma_digits_value(if n < 0 { (-n) as nat } else { n as nat });
    if n < 0 {
        let t = signed_decimal(n);
        assert forall|i: int| 0 <= i < t.len() && !(i == 0 && t[0] == '-') implies '0' <= #[trigger] t[i] <= '9' by {
            assert(t[0] == '-');
            assert(t[i] == decimal((-n) as nat)[i - 1]);
        }
    }
}

proof fn lemma_numeral_reading(n: int)
    ensures
        signed_decimal(n).len() > 0,
        n < 0 <==> signed_decimal(n)[0] == '-',
        n < 0 ==> digits_value(signed_decimal(n).skip(1)) == -n,
        n >= 0 ==> digits_value(signed_decimal(n)) == n,
{
    reveal_strlit("-");
    lemma_digits_value(if n < 0 { (-n) as nat } else { n as nat });
    if n < 0 {
        assert(signed_decimal(n).skip(1) =~= decimal((-n) as nat));
    } else {
        assert('0' <= decimal(n as nat)[0] <= '9');
    }
}

pub open spec fn shown(value: Option<&Json>) -> Option<Doc> {
    match value {
        Some(v) => Some(doc(*v)),
        None => None,
    }
}

impl Json {
    /// The member of an object with the key.
    pub fn get(&self, key: &str) -> (r: Option<&Json>)
        ensures
            shown(r) == field(self@, key@),
    {
        match self {
            Json::Object(members) => {
                let ghost all = entries(members@);
                proof {
                    lemma_entries(members@);
                }
                let mut i: usize = members.len();
                assert(all.take(i as int) =~= all);
                while i > 0
                    invariant
                        *self == Json::Object(*members),
                        all == entries(members@),
                        all.len() == members@.len(),
                        forall|j: int|
                            0 <= j < members@.len() ==> #[trigger] all[j] == (members@[j].0@, doc(members@[j].1)),
                        i <= members@.len(),
                        value_of(all, key@) == value_of(all.take(i as int), key@),
                    decreases i,
                {
                    i = i - 1;
                    proof {
                        assert(all.take(i + 1).last() == all[i as int]);
                        assert(all.take(i + 1).drop_last() =~= all.take(i as int));
                    }
                    if same_text(members[i].0.as_str(), key) {
                        return Some(&members[i].1);
                    }
                }
                None
            },
            _ => None,
        }
    }

    /// The item of a list at the index.
    pub fn at(&self, i: usize) -> (r: Option<&Json>)
        ensures
            shown(r) == item(self@, i as int),
    {
        match self {
            Json::List(items) => {
                proof {
                    lemma_docs(items@);
                }
                if i < items.len() {
                    Some(&items[i])
                } else {
                    None
                }
            },
            _ => None,
        }
    }

    /// How many items a list holds; nothing for any other document.
    pub fn count(&self) -> (r: Option<usize>)
        ensures
            match self@ {
                Doc::List(items) => r == Some(items.len() as usize) && items.len() <= usize::MAX,
                _ => r is None,
            },
    {
        match self {
            Json::List(items) => {
                proof {
                    lemma_docs(items@);
                }
                Some(items.len())
            },
            _ => None,
        }
    }

    /// The text of a string.
    pub fn text(&self) -> (r: Option<&str>)
        ensures
            match r {
                Some(t) => text_of(Some(self@)) == Some(t@),
                None => text_of(Some(self@)) is None,
            },
    {
        match self {
            Json::Text(t) => Some(t.as_str()),
            _ => None,
        }
    }

    pub fn flag(&self) -> (r: Option<bool>)
        ensures
            r == flag_of(Some(self@)),
    {
        match self {
            Json::Bool(b) => Some(*b),
            _ => None,
        }
    }

    /// The integer of a number that is a 64-bit signed integer.
    pub fn integer(&self) -> (r: Option<i64>)
        ensures
            r == integer_of(Some(self@)),
    {
        match self {
            Json::Number(n) => numeral(n.as_str()),
            _ => None,
        }
    }
}

/// Whether a member is the given text.
pub fn has_text(value: &Json, key: &str, expected: &str) -> (r: bool)
    ensures
        r == is_text(field(value@, key@), expected@),
{
    match value.get(key) {
        Some(Json::Text(t)) => same_text(t.as_str(), expected),
        _ => false,
    }
}

/// Whether a member is the given integer.
pub fn has_integer(value: &Json, key: &str, expected: i64) -> (r: bool)
    ensures
        r == is_integer(field(value@, key@), expected as int),
{
    match value.get(key) {
        Some(Json::Number(t)) => same_text(t.as_str(), signed_text(expected).as_str()),
        _ => false,
    }
}

/// Whether a member is the given flag.
pub fn has_flag(value: &Json, key: &str, expected: bool) -> (r: bool)
    ensures
        r == is_flag(field(value@, key@), expected),
{
    match value.get(key) {
        Some(Json::Bool(b)) => *b == expected,
        _ => false,
    }
}

/// The flag that a member holds.
pub fn get_flag(value: &Json, key: &str) -> (r: Option<bool>)
    ensures
        r == flag_of(field(value@, key@)),
{
    match value.get(key) {
        Some(v) => v.flag(),
        None => None,
    }
}

/// The integer that a member holds.
pub fn get_integer(value: &Json, key: &str) -> (r: Option<i64>)
    ensures
        r == integer_of(field(value@, key@)),
{
    match value.get(key) {
        Some(v) => v.integer(),
        None => None,
    }
}

/// The integer as a document.
pub fn json_integer(n: i64) -> (r: Json)
    ensures
        r@ == number(n as int),
{
    Json::Number(signed_text(n))
}

pub fn json_text(text: &str) -> (r: Json)
    ensures
        r@ == Doc::Text(text@),
{
    Json::Text(text.to_owned())
}

pub open spec fn optional_flag(flag: Option<bool>) -> Doc {
    match flag {
        Some(b) => Doc::Bool(b),
        None => Doc::Null,
    }
}

pub fn json_flag(flag: Option<bool>) -> (r: Json)
    ensures
        r@ == optional_flag(flag),
{
    match flag {
        Some(b) => Json::Bool(b),
        None => Json::Null,
    }
}

pub open spec fn optional_integer(n: Option<i64>) -> Doc {
    match n {
        Some(n) => number(n as int),
        None => Doc::Null,
    }
}

pub fn json_optional_integer(n: Option<i64>) -> (r: Json)
    ensures
        r@ == optional_integer(n),
{
    match n {
        Some(n) => json_integer(n),
        None => Json::Null,
    }
}

/// An object under construction: its members so far.
pub struct Members {
    pub list: Vec<(String, Json)>,
}

impl View for Members {
    type V = Seq<(Seq<char>, Doc)>;

    open spec fn view(&self) -> Seq<(Seq<char>, Doc)> {
        entries(self.list@)
    }
}

impl Members {
    pub fn new() -> (r: Self)
        ensures
            r@ == Seq::<(Seq<char>, Doc)>::empty(),
    {
        Members { list: Vec::new() }
    }

    /// Add a member behind the others.
    pub fn put(&mut self, key: &str, value: Json)
        ensures
            final(self)@ == old(self)@.push((key@, value@)),
    {
        let ghost before = self.list@;
        self.list.push((key.to_owned(), value));
        assert(self.list@.drop_last() =~= before);
    }

    pub fn object(self) -> (r: Json)
        ensures
            r@ == Doc::Object(self@),
    {
        Json::Object(self.list)
    }
}

/// A list of one document.
pub fn json_list1(a: Json) -> (r: Json)
    ensures
        r@ == Doc::List(seq![a@]),
{
    let mut items: Vec<Json> = Vec::new();
    items.push(a);
    proof {
        lemma_docs(items@);
        assert(docs(items@) =~= seq![a@]);
    }
    Json::List(items)
}

/// A list of two documents.
pub fn json_list2(a: Json, b: Json) -> (r: Json)
    ensures
        r@ == Doc::List(seq![a@, b@]),
{
    let mut items: Vec<Json> = Vec::new();
    items.push(a);
    items.push(b);
    proof {
        lemma_docs(items@);
        assert(docs(items@) =~= seq![a@, b@]);
    }
    Json::List(items)
}

impl Clone for Json {
    fn clone(&self) -> (r: Self)
        ensures
            r@ == self@,
    {
        copy_json(self)
    }
}

/// Both are absent, or both are there and say the same.
pub open spec fn same_optional(a: Option<Json>, b: Option<Json>) -> bool {
    match (a, b) {
        (Some(x), Some(y)) => x@ == y@,
        (None, None) => true,
        _ => false,
    }
}

/// A copy of an optional document.
pub fn copy_optional(value: &Option<Json>) -> (r: Option<Json>)
    ensures
        same_optional(r, *value),
{
    match value {
        Some(d) => Some(copy_json(d)),
        None => None,
    }
}

/// A copy that says the same.
pub fn copy_json(value: &Json) -> (r: Json)
    ensures
        r@ == value@,
    decreases value,
{
    match value {
        Json::Null => Json::Null,
        Json::Bool(b) => Json::Bool(*b),
        Json::Number(n) => Json::Number(n.clone()),
        Json::Text(t) => Json::Text(t.clone()),
        Json::List(items) => {
            let mut copies: Vec<Json> = Vec::new();
            let mut i: usize = 0;
            assert(items@.take(0) =~= Seq::empty());
            while i < items.len()
                invariant
                    *value == Json::List(*items),
                    i <= items@.len(),
                    docs(copies@) == docs(items@.take(i as int)),
                decreases items@.len() - i,
            {
                proof {
                    assert(items@.take(i + 1).drop_last() =~= items@.take(i as int));
                }
                assert(decreases_to!(*value => value->List_0@));
                assert(decreases_to!(items@ => items@[i as int]));
                let ghost before = copies@;
                copies.push(copy_json(&items[i]));
                assert(copies@.drop_last() =~= before);
                i = i + 1;
            }
            assert(items@.take(i as int) =~= items@);
            Json::List(copies)
        },
        Json::Object(members) => {
            let mut copies: Members = Members::new();
            let mut i: usize = 0;
            assert(members@.take(0) =~= Seq::empty());
            while i < members.len()
                invariant
                    *value == Json::Object(*members),
                    i <= members@.len(),
                    copies@ == entries(members@.take(i as int)),
                decreases members@.len() - i,
            {
                proof {
                    assert(members@.take(i + 1).drop_last() =~= members@.take(i as int));
                }
                assert(decreases_to!(*value => value->Object_0@));
                assert(decreases_to!(members@ => members@[i as int]));
                assert(decreases_to!(members@[i as int] => members@[i as int].1));
                copies.put(members[i].0.as_str(), copy_json(&members[i].1));
                i = i + 1;
            }
            assert(members@.take(i as int) =~= members@);
            copies.object()
        },
    }
}

pub open spec fn item_texts(items: Seq<Doc>) -> Seq<char>
    decreases items,
{
    if items.len() == 0 {
        Seq::empty()
    } else if items.len() == 1 {
        doc_text(items[0])
    } else {
        item_texts(items.drop_last()) + ","@ + doc_text(items.last())
    }
}

pub open spec fn member_texts(members: Seq<(Seq<char>, Doc)>) -> Seq<Member>
    decreases members,
{
    if members.len() == 0 {
        Seq::empty()
    } else {
        member_texts(members.drop_last()).push((members.last().0, doc_text(members.last().1)))
    }
}

/// The canonical text, as a function of what a document says.
pub open spec fn doc_text(d: Doc) -> Seq<char>
    decreases d,
{
    match d {
        Doc::Null => "null"@,
        Doc::Bool(b) => bool_json(b),
        Doc::Number(n) => n,
        Doc::Text(t) => json_string(t),
        Doc::List(items) => "["@ + item_texts(items) + "]"@,
        Doc::Object(members) => "{"@ + member_list(in_key_order(member_texts(members))) + "}"@,
    }
}

proof fn lemma_item_texts(items: Seq<Json>)
    ensures
        item_list(items) == item_texts(docs(items)),
    decreases items, 0int,
{
    lemma_docs(items);
    if items.len() == 1 {
        canonical_text_is_of_the_document(items[0]);
    } else if items.len() > 1 {
        assert(docs(items).drop_last() =~= docs(items.drop_last()));
        lemma_item_texts(items.drop_last());
        assert(items.last() == items[items.len() - 1]);
        canonical_text_is_of_the_document(items[items.len() - 1]);
    }
}

proof fn lemma_member_texts(members: Seq<(String, Json)>)
    ensures
        members_of(members) == member_texts(entries(members)),
    decreases members, 0int,
{
    if members.len() > 0 {
        assert(entries(members).drop_last() =~= entries(members.drop_last()));
        lemma_member_texts(members.drop_last());
        let last = members[members.len() - 1];
        assert(members.last() == last);
        assert(decreases_to!(members => members[members.len() - 1]));
        assert(decreases_to!(last => last.1));
        canonical_text_is_of_the_document(last.1);
    }
}

/// The canonical text of a document depends only on what the document says.
pub proof fn canonical_text_is_of_the_document(value: Json)
    ensures
        canonical(value) == doc_text(value@),
    decreases value, 1int,
{
    match value {
        Json::List(items) => {
            assert(decreases_to!(value => value->List_0@));
            lemma_item_texts(items@);
        },
        Json::Object(members) => {
            assert(decreases_to!(value => value->Object_0@));
            lemma_member_texts(members@);
        },
        _ => {},
    }
}

/// Whether two documents are the same value: their canonical texts agree, so the
/// order of object members does not matter.
pub open spec fn same_document(a: Doc, b: Doc) -> bool {
    doc_text(a) == doc_text(b)
}

pub fn is_same_document(a: &Json, b: &Json) -> (r: bool)
    ensures
        r == same_document(a@, b@),
{
    proof {
        canonical_text_is_of_the_document(*a);
        canonical_text_is_of_the_document(*b);
    }
    same_text(canonical_text(a).as_str(), canonical_text(b).as_str())
}

} // verus!
