//! What the documents of requests tell, and what their digests are of.
use crate::api::{
    command_document, create_document, json_text, member, object_keys, resources_document, CommandInput, CreateRequest,
    RequestedResources,
};
use crate::canonical::Json;
use crate::digest::sha256_of;
use crate::document::{doc, doc_text, docs, entries, field, lemma_docs, lemma_entries, number, value_of, Doc};
use crate::idempotency::{be_bytes, preimage, RequestDigest};
use crate::ids::{id_text, OperationId, SandboxId};
use crate::json::decimal;
use crate::store::cancel::cancel_digested;
use crate::store::execute::{execute_digested, execute_path};
use crate::store::retries::request_digest;
use vstd::utf8::*;
use vstd::prelude::*;

verus! {

/// The keys of each request's document are apart.
proof fn lemma_request_keys()
    ensures
        "vcpu"@ != "memory_mib"@,
        "vcpu"@ != "disk_mib"@,
        "memory_mib"@ != "disk_mib"@,
        "image_digest"@ != "name"@,
        "image_digest"@ != "resources"@,
        "image_digest"@ != "correlation_id"@,
        "name"@ != "resources"@,
        "name"@ != "correlation_id"@,
        "resources"@ != "correlation_id"@,
        "argv"@ != "env"@,
        "argv"@ != "cwd"@,
        "argv"@ != "deadline_unix_ms"@,
        "argv"@ != "output_limit"@,
        "env"@ != "cwd"@,
        "env"@ != "deadline_unix_ms"@,
        "env"@ != "output_limit"@,
        "cwd"@ != "deadline_unix_ms"@,
        "cwd"@ != "output_limit"@,
        "deadline_unix_ms"@ != "output_limit"@,
{
    reveal_strlit("vcpu");
    reveal_strlit("memory_mib");
    reveal_strlit("disk_mib");
    reveal_strlit("image_digest");
    reveal_strlit("name");
    reveal_strlit("resources");
    reveal_strlit("correlation_id");
    reveal_strlit("argv");
    reveal_strlit("env");
    reveal_strlit("cwd");
    reveal_strlit("deadline_unix_ms");
    reveal_strlit("output_limit");
    assert("vcpu"@.len() == 4);
    assert("memory_mib"@.len() == 10);
    assert("disk_mib"@.len() == 8);
    assert("image_digest"@.len() == 12);
    assert("name"@.len() == 4);
    assert("resources"@.len() == 9);
    assert("correlation_id"@.len() == 14);
    assert("argv"@.len() == 4);
    assert("env"@.len() == 3);
    assert("cwd"@.len() == 3);
    assert("deadline_unix_ms"@.len() == 16);
    assert("output_limit"@.len() == 12);
    assert("env"@[0] != "cwd"@[0]);
}

proof fn lemma_value_at(members: Seq<(Seq<char>, Doc)>, i: int)
    requires
        0 <= i < members.len(),
        forall|j: int| i < j < members.len() ==> (#[trigger] members[j]).0 != members[i].0,
    ensures
        value_of(members, members[i].0) == Some(members[i].1),
    decreases members.len(),
{
    let n = members.len() - 1;
    assert(members.last() == members[n]);
    if i < n {
        let before = members.drop_last();
        assert(before[i] == members[i]);
        assert forall|j: int| i < j < before.len() implies (#[trigger] before[j]).0 != before[i].0 by {
            assert(before[j] == members[j]);
        }
        lemma_value_at(before, i);
    }
}

proof fn lemma_member_told(value: Json, keys: Seq<Seq<char>>, i: int)
    requires
        object_keys(value, keys),
        0 <= i < keys.len(),
        forall|j: int| i < j < keys.len() ==> #[trigger] keys[j] != keys[i],
    ensures
        field(value@, keys[i]) == Some(member(value, i)@),
{
    let m = value->Object_0@;
    let e = entries(m);
    lemma_entries(m);
    assert(e[i] == (m[i].0@, doc(m[i].1)));
    assert(m[i].0@ == keys[i]);
    assert forall|j: int| i < j < e.len() implies (#[trigger] e[j]).0 != e[i].0 by {
        assert(e[j] == (m[j].0@, doc(m[j].1)));
        assert(m[j].0@ == keys[j]);
    }
    lemma_value_at(e, i);
}

/// The text, or nothing.
pub open spec fn text_or_null(text: Option<String>) -> Doc {
    match text {
        Some(t) => Doc::Text(t@),
        None => Doc::Null,
    }
}

/// The document tells a size, each part of it under its own name.
pub open spec fn size_told(d: Doc, r: RequestedResources) -> bool {
    &&& field(d, "vcpu"@) == Some(number(r.vcpu as int))
    &&& field(d, "memory_mib"@) == Some(number(r.memory_mib as int))
    &&& field(d, "disk_mib"@) == Some(number(r.disk_mib as int))
}

/// The document tells a command: its arguments in their order, its environment, its
/// directory, its deadline and its output limit.
pub open spec fn command_told(d: Doc, c: CommandInput) -> bool {
    &&& field(d, "argv"@) matches Some(Doc::List(items)) && items.len() == c.argv@.len() && forall|i: int|
        0 <= i < items.len() ==> #[trigger] items[i] == Doc::Text(c.argv@[i]@)
    &&& field(d, "env"@) matches Some(Doc::Object(members)) && members.len() == c.env@.len() && forall|i: int|
        0 <= i < members.len() ==> #[trigger] members[i] == (c.env@[i].0@, Doc::Text(c.env@[i].1@))
    &&& field(d, "cwd"@) == Some(Doc::Text(c.cwd@))
    &&& field(d, "deadline_unix_ms"@) == Some(number(c.deadline_unix_ms as int))
    &&& field(d, "output_limit"@) == Some(Doc::Number(decimal(c.output_limit as nat)))
}

/// A size's document tells the size.
pub proof fn sizes_are_told(r: RequestedResources, value: Json)
    requires
        resources_document(r, value),
    ensures
        size_told(value@, r),
{
    lemma_request_keys();
    let keys = seq!["vcpu"@, "memory_mib"@, "disk_mib"@];
    assert(keys[0] == "vcpu"@ && keys[1] == "memory_mib"@ && keys[2] == "disk_mib"@);
    lemma_member_told(value, keys, 0);
    lemma_member_told(value, keys, 1);
    lemma_member_told(value, keys, 2);
}

/// A create's document tells its image, its name, its size and its correlation.
pub proof fn creates_are_told(c: CreateRequest, value: Json)
    requires
        create_document(c, value),
    ensures
        field(value@, "image_digest"@) == Some(Doc::Text(c.image_digest@)),
        field(value@, "name"@) == Some(text_or_null(c.name)),
        field(value@, "resources"@) matches Some(d) && size_told(d, c.resources),
        field(value@, "correlation_id"@) == Some(text_or_null(c.correlation_id)),
{
    lemma_request_keys();
    let keys = seq!["image_digest"@, "name"@, "resources"@, "correlation_id"@];
    assert(keys[0] == "image_digest"@ && keys[1] == "name"@ && keys[2] == "resources"@ && keys[3] == "correlation_id"@);
    lemma_member_told(value, keys, 0);
    lemma_member_told(value, keys, 1);
    lemma_member_told(value, keys, 2);
    lemma_member_told(value, keys, 3);
    sizes_are_told(c.resources, member(value, 2));
}

/// A command's document tells the command.
pub proof fn commands_are_told(c: CommandInput, value: Json)
    requires
        command_document(c, value),
    ensures
        command_told(value@, c),
{
    lemma_request_keys();
    let keys = seq!["argv"@, "env"@, "cwd"@, "deadline_unix_ms"@, "output_limit"@];
    assert(keys[0] == "argv"@ && keys[1] == "env"@ && keys[2] == "cwd"@ && keys[3] == "deadline_unix_ms"@ && keys[4]
        == "output_limit"@);
    lemma_member_told(value, keys, 0);
    lemma_member_told(value, keys, 1);
    lemma_member_told(value, keys, 2);
    lemma_member_told(value, keys, 3);
    lemma_member_told(value, keys, 4);
    let argv = member(value, 0)->List_0@;
    let env = member(value, 1)->Object_0@;
    lemma_docs(argv);
    lemma_entries(env);
    assert forall|i: int| 0 <= i < c.argv@.len() implies #[trigger] docs(argv)[i] == Doc::Text(c.argv@[i]@) by {
        assert(json_text(argv[i], c.argv@[i]@));
    }
    assert forall|i: int| 0 <= i < c.env@.len() implies #[trigger] entries(env)[i] == (
        c.env@[i].0@,
        Doc::Text(c.env@[i].1@),
    ) by {
        assert(env[i].0@ == c.env@[i].0@ && json_text(env[i].1, c.env@[i].1@));
    }
}

/// The digest of an execute request is that of its sandbox's own path and of a document
/// that tells the whole command.
pub proof fn execute_digests_are_of_the_command(sandbox: SandboxId, command: &CommandInput, r: RequestDigest)
    requires
        execute_digested(sandbox, command, r),
    ensures
        exists|d: Doc| #[trigger] command_told(d, *command) && r.bytes == request_digest(
            "POST"@,
            "/v1/sandboxes/"@ + id_text("sbx"@, sandbox.value) + "/execute"@,
            d,
        ),
{
    let body = choose|body: Json| #[trigger] command_document(*command, body) && r.bytes == request_digest(
        "POST"@,
        execute_path(sandbox),
        body@,
    );
    commands_are_told(*command, body);
}

/// The digest of a cancel request is that of its target's own path and an empty body.
pub proof fn cancel_digests_are_of_the_target(target: OperationId, r: RequestDigest)
    requires
        cancel_digested(target, r),
    ensures
        r.bytes == request_digest(
            "POST"@,
            "/v1/operations/"@ + id_text("op"@, target.value) + "/cancel"@,
            Doc::Object(Seq::<(Seq<char>, Doc)>::empty()),
        ),
{
}

/// The digest of a request is that of its method, its target and the canonical text of
/// its body, each behind its length in eight bytes from the highest.
pub proof fn requests_are_digested_part_by_part(method: Seq<char>, target: Seq<char>, body: Doc)
    ensures
        request_digest(method, target, body) == sha256_of(
            length_bytes(encode_utf8(method).len()) + encode_utf8(method) + length_bytes(encode_utf8(target).len())
                + encode_utf8(target) + length_bytes(encode_utf8(doc_text(body)).len()) + encode_utf8(doc_text(body)),
        ),
{
    let m = encode_utf8(method);
    let t = encode_utf8(target);
    let b = encode_utf8(doc_text(body));
    assert(length_bytes(m.len()) =~= be_bytes(m.len() as u64));
    assert(length_bytes(t.len()) =~= be_bytes(t.len() as u64));
    assert(length_bytes(b.len()) =~= be_bytes(b.len() as u64));
    assert(preimage(method, target, doc_text(body)) =~= length_bytes(m.len()) + m + length_bytes(t.len()) + t
        + length_bytes(b.len()) + b);
}

/// A length in eight bytes, the highest first.
pub open spec fn length_bytes(n: nat) -> Seq<u8> {
    seq![
        ((n as u64 >> 56u64) & 0xff) as u8,
        ((n as u64 >> 48u64) & 0xff) as u8,
        ((n as u64 >> 40u64) & 0xff) as u8,
        ((n as u64 >> 32u64) & 0xff) as u8,
        ((n as u64 >> 24u64) & 0xff) as u8,
        ((n as u64 >> 16u64) & 0xff) as u8,
        ((n as u64 >> 8u64) & 0xff) as u8,
        ((n as u64 >> 0u64) & 0xff) as u8,
    ]
}

} // verus!
