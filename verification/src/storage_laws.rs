//! What is kept in storage tells its values apart: an authority's ledger, a
//! bootstrap identity and the record of a transfer.
use crate::allocation_authority::{
    bytes_json, entry_json, entry_list, ledger_valid, permit_json, saved_json, state_json, Entry, Ledger, State,
};
use crate::allocation_retirement::bool_json;
use crate::bootstrap::{bootstrap_json, same_bootstrap, Bootstrap};
use crate::encoding_laws::{
    lemma_cut_bool, lemma_cut_bytes, lemma_cut_id, lemma_cut_length, lemma_cut_literal, lemma_cut_number,
    lemma_cut_permit, lemma_cut_string, lemma_join,
};
use crate::guest_model::{same_context, Context};
use crate::ids::{digit_at, hyphenated, nibble};
use crate::json::{decimal, id_json, json_string, lemma_id_json_plain, signed_decimal};
use crate::supervisor_files::{context_json, optional_context_json, record_json, FileRecord};
use vstd::prelude::*;
use vstd::string::*;

verus! {

proof fn lemma_active_is_not_fenced(x: Seq<char>, y: Seq<char>, retirement: u128)
    ensures
        x + "{\"state\":\"active\"}"@ != y + ("{\"state\":\"fenced\",\"retirement\":"@ + id_json("op"@, retirement)
            + "}"@),
{
    let active = "{\"state\":\"active\"}"@;
    let id = id_json("op"@, retirement);
    let fenced = "{\"state\":\"fenced\",\"retirement\":"@ + id + "}"@;
    reveal_strlit("{\"state\":\"active\"}");
    reveal_strlit("}");
    reveal_strlit("op");
    lemma_id_json_plain("op"@, retirement);
    assert(id.len() == 41);
    assert(id[38] == hyphenated(retirement)[34]);
    let shifted = retirement >> ((4 * (31 - digit_at(34))) as u128);
    assert(shifted & 0xf < 16) by (bit_vector);
    assert(nibble(retirement, digit_at(34)) < 16);
    assert(id[38] != 'v');
    let whole = x + active;
    if whole == y + fenced {
        assert(whole[whole.len() - 4] == active[active.len() - 4]);
        assert((y + fenced)[whole.len() - 4] == fenced[fenced.len() - 4]);
        assert(fenced[fenced.len() - 4] == id[38]);
    }
}

/// Only a completed state ends in a list.
proof fn lemma_state_end(s: State)
    ensures
        state_json(s).len() > 1,
        state_json(s)[state_json(s).len() - 2] == if s is Complete { ']' } else { '"' },
{
    reveal(state_json);
    reveal(bytes_json);
    reveal_strlit("{\"state\":\"active\"}");
    reveal_strlit("]");
    reveal_strlit("}");
    reveal_strlit("op");
    match s {
        State::Active {} => {},
        State::Fenced { retirement } => {
            lemma_id_json_plain("op"@, retirement.value);
            let id = id_json("op"@, retirement.value);
            assert(id[id.len() - 1] == '"');
            assert(state_json(s)[state_json(s).len() - 2] == id[id.len() - 1]);
        },
        State::Complete { retirement, intent_sha256 } => {
            let bytes = bytes_json(intent_sha256@);
            assert(bytes[bytes.len() - 1] == ']');
            assert(state_json(s)[state_json(s).len() - 2] == bytes[bytes.len() - 1]);
        },
    }
}

proof fn lemma_cut_state(x: Seq<char>, a: State, y: Seq<char>, b: State)
    requires
        x + state_json(a) == y + state_json(b),
    ensures
        x == y,
        a == b,
{
    lemma_state_end(a);
    lemma_state_end(b);
    let whole = x + state_json(a);
    assert(whole[whole.len() - 2] == state_json(a)[state_json(a).len() - 2]);
    assert((y + state_json(b))[whole.len() - 2] == state_json(b)[state_json(b).len() - 2]);
    reveal(state_json);
    match (a, b) {
        (State::Active {}, State::Active {}) => {
            lemma_cut_length(x, state_json(a), y, state_json(b));
        },
        (State::Fenced { retirement: v }, State::Fenced { retirement: w }) => {
            let l = "{\"state\":\"fenced\",\"retirement\":"@;
            lemma_cut_literal(x, l + id_json("op"@, v.value), "}"@, y, l + id_json("op"@, w.value));
            lemma_cut_id(x, l, v.value, y, l, w.value, "op"@);
            lemma_cut_length(x, l, y, l);
        },
        (State::Active {}, State::Fenced { retirement }) => {
            lemma_active_is_not_fenced(x, y, retirement.value);
        },
        (State::Fenced { retirement }, State::Active {}) => {
            lemma_active_is_not_fenced(y, x, retirement.value);
        },
        (State::Complete { retirement: v, intent_sha256: s }, State::Complete { retirement: w, intent_sha256: t }) => {
            let l = "{\"state\":\"complete\",\"retirement\":"@;
            let m = ",\"intent_sha256\":"@;
            let p = l + id_json("op"@, v.value);
            let q = l + id_json("op"@, w.value);
            lemma_cut_literal(x, p + m + bytes_json(s@), "}"@, y, q + m + bytes_json(t@));
            lemma_cut_bytes(x, p + m, s@, y, q + m, t@);
            assert(s =~= t);
            lemma_cut_literal(x, p, m, y, q);
            lemma_cut_id(x, l, v.value, y, l, w.value, "op"@);
            lemma_cut_length(x, l, y, l);
        },
        _ => {},
    }
}

proof fn lemma_cut_entry(x: Seq<char>, a: Entry, y: Seq<char>, b: Entry)
    requires
        x + entry_json(a) == y + entry_json(b),
    ensures
        x == y,
        a == b,
{
    reveal(entry_json);
    let p0 = "{\"permit\":"@;
    let q0 = "{\"permit\":"@;
    let p1 = p0 + permit_json(a.permit);
    let q1 = q0 + permit_json(b.permit);
    let p2 = p1 + ",\"state\":"@;
    let q2 = q1 + ",\"state\":"@;
    let p3 = p2 + state_json(a.state);
    let q3 = q2 + state_json(b.state);
    lemma_cut_literal(x, p3, "}"@, y, q3);
    lemma_join(x, p2, state_json(a.state));
    lemma_join(y, q2, state_json(b.state));
    lemma_cut_state(x + p2, a.state, y + q2, b.state);
    lemma_cut_literal(x, p1, ",\"state\":"@, y, q1);
    lemma_join(x, p0, permit_json(a.permit));
    lemma_join(y, q0, permit_json(b.permit));
    lemma_cut_permit(x + p0, a.permit, y + q0, b.permit);
    lemma_cut_length(x, "{\"permit\":"@, y, "{\"permit\":"@);
}

/// A list of entries that is not empty ends like an entry.
proof fn lemma_entry_list_end(entries: Seq<Entry>)
    requires
        entries.len() > 0,
    ensures
        entry_list(entries).len() > 0,
        entry_list(entries).last() == '}',
{
    reveal(entry_json);
    reveal_strlit("}");
    let e = entries[entries.len() - 1];
    assert(entry_json(e).last() == '}');
    assert(entry_list(entries).last() == entry_json(e).last());
}

/// The entries behind an opening bracket.
proof fn lemma_cut_entries(x: Seq<char>, a: Seq<Entry>, y: Seq<char>, b: Seq<Entry>)
    requires
        x + entry_list(a) == y + entry_list(b),
        x.len() > 0 && x.last() == '[',
        y.len() > 0 && y.last() == '[',
    ensures
        x == y,
        a == b,
    decreases a.len(),
{
    reveal_strlit(",");
    if a.len() == 0 || b.len() == 0 {
        if a.len() > 0 {
            lemma_entry_list_end(a);
            assert((x + entry_list(a)).last() == entry_list(a).last());
            assert(y + entry_list(b) =~= y);
        } else if b.len() > 0 {
            lemma_entry_list_end(b);
            assert((y + entry_list(b)).last() == entry_list(b).last());
            assert(x + entry_list(a) =~= x);
        } else {
            assert(x + entry_list(a) =~= x);
            assert(y + entry_list(b) =~= y);
            assert(a =~= b);
        }
    } else {
        let m = a.drop_last();
        let n = b.drop_last();
        let xs = if a.len() == 1 { x } else { x + entry_list(m) + ","@ };
        let ys = if b.len() == 1 { y } else { y + entry_list(n) + ","@ };
        assert(x + entry_list(a) =~= xs + entry_json(a.last()));
        assert(y + entry_list(b) =~= ys + entry_json(b.last()));
        lemma_cut_entry(xs, a.last(), ys, b.last());
        assert(a.len() > 1 ==> xs.last() == ',');
        assert(b.len() > 1 ==> ys.last() == ',');
        if a.len() > 1 {
            lemma_cut_length(x + entry_list(m), ","@, y + entry_list(n), ","@);
            lemma_cut_entries(x, m, y, n);
        } else {
            assert(m =~= n);
        }
        assert(a =~= m.push(a.last()));
        assert(b =~= n.push(b.last()));
    }
}

/// What an authority keeps in storage binds its host, its frontier and every
/// retained owner: valid ledgers with one encoding are the same ledger.
pub proof fn ledgers_encode_apart(a: Ledger, b: Ledger)
    requires
        ledger_valid(a),
        ledger_valid(b),
        saved_json(1, a) == saved_json(1, b),
    ensures
        a == b,
{
    reveal(saved_json);
    let x = Seq::<char>::empty();
    let y = Seq::<char>::empty();
    let p0 = "{\"version\":"@;
    let p1 = p0 + decimal(1);
    let p2 = p1 + ",\"host\":"@;
    let p3 = p2 + id_json("hst"@, a.host.value);
    let q3 = p2 + id_json("hst"@, b.host.value);
    let p4 = p3 + ",\"through\":"@;
    let q4 = q3 + ",\"through\":"@;
    let p5 = p4 + decimal(a.through as nat);
    let q5 = q4 + decimal(b.through as nat);
    let p6 = p5 + ",\"entries\":["@;
    let q6 = q5 + ",\"entries\":["@;
    reveal_strlit(",\"entries\":[");
    reveal_strlit(",\"through\":");
    lemma_cut_length(p6 + entry_list(a.entries), "]}"@, q6 + entry_list(b.entries), "]}"@);
    lemma_cut_entries(p6, a.entries, q6, b.entries);
    lemma_cut_length(p5, ",\"entries\":["@, q5, ",\"entries\":["@);
    lemma_join(x, p4, decimal(a.through as nat));
    lemma_join(y, q4, decimal(b.through as nat));
    assert(x + p5 == y + q5);
    lemma_cut_number(x, p4, a.through as int, y, q4, b.through as int);
    lemma_cut_literal(x, p3, ",\"through\":"@, y, q3);
    lemma_cut_id(x, p2, a.host.value, y, p2, b.host.value, "hst"@);
}

proof fn lemma_cut_bootstrap(x: Seq<char>, a: Bootstrap, y: Seq<char>, b: Bootstrap)
    requires
        x + bootstrap_json(a) == y + bootstrap_json(b),
    ensures
        x == y,
        same_bootstrap(a, b),
{
    reveal(bootstrap_json);
    let p0 = "{\"version\":"@;
    let q0 = "{\"version\":"@;
    let p1 = p0 + decimal(a.version as nat);
    let q1 = q0 + decimal(b.version as nat);
    let p2 = p1 + ",\"allocation\":"@;
    let q2 = q1 + ",\"allocation\":"@;
    let p3 = p2 + id_json("alc"@, a.allocation.value);
    let q3 = q2 + id_json("alc"@, b.allocation.value);
    let p4 = p3 + ",\"generation\":"@;
    let q4 = q3 + ",\"generation\":"@;
    let p5 = p4 + signed_decimal(a.generation as int);
    let q5 = q4 + signed_decimal(b.generation as int);
    let p6 = p5 + ",\"valid_until_unix_ms\":"@;
    let q6 = q5 + ",\"valid_until_unix_ms\":"@;
    let p7 = p6 + signed_decimal(a.valid_until_unix_ms as int);
    let q7 = q6 + signed_decimal(b.valid_until_unix_ms as int);
    let p8 = p7 + ",\"ca_pem\":"@;
    let q8 = q7 + ",\"ca_pem\":"@;
    let p9 = p8 + json_string(a.ca_pem@);
    let q9 = q8 + json_string(b.ca_pem@);
    let p10 = p9 + ",\"guest_cert_pem\":"@;
    let q10 = q9 + ",\"guest_cert_pem\":"@;
    let p11 = p10 + json_string(a.guest_cert_pem@);
    let q11 = q10 + json_string(b.guest_cert_pem@);
    let p12 = p11 + ",\"guest_key_pem\":"@;
    let q12 = q11 + ",\"guest_key_pem\":"@;
    let p13 = p12 + json_string(a.guest_key_pem@);
    let q13 = q12 + json_string(b.guest_key_pem@);
    let p14 = p13 + ",\"host_pin\":"@;
    let q14 = q13 + ",\"host_pin\":"@;
    let p15 = p14 + bytes_json(a.host_pin@);
    let q15 = q14 + bytes_json(b.host_pin@);
    lemma_cut_literal(x, p15, "}"@, y, q15);
    lemma_cut_bytes(x, p14, a.host_pin@, y, q14, b.host_pin@);
    lemma_cut_literal(x, p13, ",\"host_pin\":"@, y, q13);
    assert(p12.len() > 0 && p12.last() == ':' && q12.len() > 0 && q12.last() == ':') by {
        reveal_strlit(",\"guest_key_pem\":");
    }
    lemma_cut_string(x, p12, a.guest_key_pem@, y, q12, b.guest_key_pem@);
    lemma_cut_literal(x, p11, ",\"guest_key_pem\":"@, y, q11);
    assert(p10.len() > 0 && p10.last() == ':' && q10.len() > 0 && q10.last() == ':') by {
        reveal_strlit(",\"guest_cert_pem\":");
    }
    lemma_cut_string(x, p10, a.guest_cert_pem@, y, q10, b.guest_cert_pem@);
    lemma_cut_literal(x, p9, ",\"guest_cert_pem\":"@, y, q9);
    assert(p8.len() > 0 && p8.last() == ':' && q8.len() > 0 && q8.last() == ':') by {
        reveal_strlit(",\"ca_pem\":");
    }
    lemma_cut_string(x, p8, a.ca_pem@, y, q8, b.ca_pem@);
    lemma_cut_literal(x, p7, ",\"ca_pem\":"@, y, q7);
    assert(p6.len() > 0 && p6.last() == ':' && q6.len() > 0 && q6.last() == ':') by {
        reveal_strlit(",\"valid_until_unix_ms\":");
    }
    lemma_cut_number(x, p6, a.valid_until_unix_ms as int, y, q6, b.valid_until_unix_ms as int);
    lemma_cut_literal(x, p5, ",\"valid_until_unix_ms\":"@, y, q5);
    assert(p4.len() > 0 && p4.last() == ':' && q4.len() > 0 && q4.last() == ':') by {
        reveal_strlit(",\"generation\":");
    }
    lemma_cut_number(x, p4, a.generation as int, y, q4, b.generation as int);
    lemma_cut_literal(x, p3, ",\"generation\":"@, y, q3);
    lemma_cut_id(x, p2, a.allocation.value, y, q2, b.allocation.value, "alc"@);
    lemma_cut_literal(x, p1, ",\"allocation\":"@, y, q1);
    assert(p0.len() > 0 && p0.last() == ':' && q0.len() > 0 && q0.last() == ':') by {
        reveal_strlit("{\"version\":");
    }
    lemma_cut_number(x, p0, a.version as int, y, q0, b.version as int);
    lemma_cut_length(x, "{\"version\":"@, y, "{\"version\":"@);
}

/// Every field of a bootstrap identity is part of the body that a device carries:
/// identities with one body are the same identity.
pub proof fn bootstraps_encode_apart(a: Bootstrap, b: Bootstrap)
    requires
        bootstrap_json(a) == bootstrap_json(b),
    ensures
        same_bootstrap(a, b),
{
    lemma_cut_bootstrap(Seq::empty(), a, Seq::empty(), b);
}

proof fn lemma_cut_context(x: Seq<char>, a: Context, y: Seq<char>, b: Context)
    requires
        x + context_json(a) == y + context_json(b),
    ensures
        x == y,
        same_context(a, b),
{
    reveal(context_json);
    let p0 = "{\"allocation_id\":"@;
    let q0 = "{\"allocation_id\":"@;
    let p1 = p0 + id_json("alc"@, a.allocation_id.value);
    let q1 = q0 + id_json("alc"@, b.allocation_id.value);
    let p2 = p1 + ",\"generation\":"@;
    let q2 = q1 + ",\"generation\":"@;
    let p3 = p2 + signed_decimal(a.generation as int);
    let q3 = q2 + signed_decimal(b.generation as int);
    let p4 = p3 + ",\"boot_id\":"@;
    let q4 = q3 + ",\"boot_id\":"@;
    let p5 = p4 + json_string(a.boot_id@);
    let q5 = q4 + json_string(b.boot_id@);
    lemma_cut_literal(x, p5, "}"@, y, q5);
    assert(p4.len() > 0 && p4.last() == ':' && q4.len() > 0 && q4.last() == ':') by {
        reveal_strlit(",\"boot_id\":");
    }
    lemma_cut_string(x, p4, a.boot_id@, y, q4, b.boot_id@);
    lemma_cut_literal(x, p3, ",\"boot_id\":"@, y, q3);
    assert(p2.len() > 0 && p2.last() == ':' && q2.len() > 0 && q2.last() == ':') by {
        reveal_strlit(",\"generation\":");
    }
    lemma_cut_number(x, p2, a.generation as int, y, q2, b.generation as int);
    lemma_cut_literal(x, p1, ",\"generation\":"@, y, q1);
    lemma_cut_id(x, p0, a.allocation_id.value, y, q0, b.allocation_id.value, "alc"@);
    lemma_cut_length(x, "{\"allocation_id\":"@, y, "{\"allocation_id\":"@);
}

proof fn lemma_context_end(c: Context)
    ensures
        context_json(c).len() > 0,
        context_json(c).last() == '}',
{
    reveal(context_json);
    reveal_strlit("}");
}

proof fn lemma_cut_optional_context(x: Seq<char>, a: Option<Context>, y: Seq<char>, b: Option<Context>)
    requires
        x + optional_context_json(a) == y + optional_context_json(b),
    ensures
        x == y,
        same_optional_context(a, b),
{
    reveal_strlit("null");
    let s = optional_context_json(a);
    let t = optional_context_json(b);
    assert(s.len() > 0 ==> (x + s).last() == s.last());
    assert(t.len() > 0 ==> (y + t).last() == t.last());
    match (a, b) {
        (Some(c), Some(d)) => {
            lemma_cut_context(x, c, y, d);
        },
        (None, None) => {
            lemma_cut_length(x, s, y, t);
        },
        (Some(c), None) => {
            lemma_context_end(c);
        },
        (None, Some(d)) => {
            lemma_context_end(d);
        },
    }
}

/// Both are absent, or both are the same boot.
pub open spec fn same_optional_context(a: Option<Context>, b: Option<Context>) -> bool {
    match (a, b) {
        (Some(c), Some(d)) => same_context(c, d),
        (None, None) => true,
        _ => false,
    }
}

proof fn lemma_cut_record(x: Seq<char>, a: FileRecord, y: Seq<char>, b: FileRecord)
    requires
        x + record_json(a) == y + record_json(b),
    ensures
        x == y,
        a == (FileRecord { context: a.context, ..b }),
        same_optional_context(a.context, b.context),
{
    reveal(record_json);
    let p0 = "{\"digest\":"@;
    let q0 = "{\"digest\":"@;
    let p1 = p0 + bytes_json(a.digest@);
    let q1 = q0 + bytes_json(b.digest@);
    let p2 = p1 + ",\"context\":"@;
    let q2 = q1 + ",\"context\":"@;
    let p3 = p2 + optional_context_json(a.context);
    let q3 = q2 + optional_context_json(b.context);
    let p4 = p3 + ",\"size\":"@;
    let q4 = q3 + ",\"size\":"@;
    let p5 = p4 + decimal(a.size as nat);
    let q5 = q4 + decimal(b.size as nat);
    let p6 = p5 + ",\"not_started\":"@;
    let q6 = q5 + ",\"not_started\":"@;
    let p7 = p6 + bool_json(a.not_started);
    let q7 = q6 + bool_json(b.not_started);
    let p8 = p7 + ",\"commit_requested\":"@;
    let q8 = q7 + ",\"commit_requested\":"@;
    let p9 = p8 + bool_json(a.commit_requested);
    let q9 = q8 + bool_json(b.commit_requested);
    let p10 = p9 + ",\"abort_requested\":"@;
    let q10 = q9 + ",\"abort_requested\":"@;
    let p11 = p10 + bool_json(a.abort_requested);
    let q11 = q10 + bool_json(b.abort_requested);
    let p12 = p11 + ",\"state\":"@;
    let q12 = q11 + ",\"state\":"@;
    let p13 = p12 + decimal(a.state as nat);
    let q13 = q12 + decimal(b.state as nat);
    lemma_cut_literal(x, p13, "}"@, y, q13);
    assert(p12.len() > 0 && p12.last() == ':' && q12.len() > 0 && q12.last() == ':') by {
        reveal_strlit(",\"state\":");
    }
    lemma_cut_number(x, p12, a.state as int, y, q12, b.state as int);
    lemma_cut_literal(x, p11, ",\"state\":"@, y, q11);
    lemma_cut_bool(x, p10, a.abort_requested, y, q10, b.abort_requested);
    lemma_cut_literal(x, p9, ",\"abort_requested\":"@, y, q9);
    lemma_cut_bool(x, p8, a.commit_requested, y, q8, b.commit_requested);
    lemma_cut_literal(x, p7, ",\"commit_requested\":"@, y, q7);
    lemma_cut_bool(x, p6, a.not_started, y, q6, b.not_started);
    lemma_cut_literal(x, p5, ",\"not_started\":"@, y, q5);
    assert(p4.len() > 0 && p4.last() == ':' && q4.len() > 0 && q4.last() == ':') by {
        reveal_strlit(",\"size\":");
    }
    lemma_cut_number(x, p4, a.size as int, y, q4, b.size as int);
    lemma_cut_literal(x, p3, ",\"size\":"@, y, q3);
    lemma_join(x, p2, optional_context_json(a.context));
    lemma_join(y, q2, optional_context_json(b.context));
    lemma_cut_optional_context(x + p2, a.context, y + q2, b.context);
    lemma_cut_literal(x, p1, ",\"context\":"@, y, q1);
    lemma_cut_bytes(x, p0, a.digest@, y, q0, b.digest@);
    lemma_cut_length(x, "{\"digest\":"@, y, "{\"digest\":"@);
    assert(a.digest =~= b.digest);
}

/// The encoding of a transfer's record binds everything the record says: records
/// with one encoding are the same record.
pub proof fn records_encode_apart(a: FileRecord, b: FileRecord)
    requires
        record_json(a) == record_json(b),
    ensures
        a == (FileRecord { context: a.context, ..b }),
        same_optional_context(a.context, b.context),
{
    lemma_cut_record(Seq::empty(), a, Seq::empty(), b);
}

} // verus!
