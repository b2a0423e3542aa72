//! Object keys tell apart everything that they name: two objects share a key
//! only where they are the same attempt of the same owner.
use crate::document::numerals_are_distinct;
use crate::encoding_laws::{lemma_cut_length, lemma_cut_mark, lemma_numeral_characters};
use crate::file_sources::{source_key_text, SourcePlan};
use crate::guest_wire::lemma_id_text_injective;
use crate::ids::id_text;
use crate::json::signed_decimal;
use crate::output::{object_key_text, output_name_text, OutputPlan};
use vstd::prelude::*;
use vstd::string::*;

verus! {

/// What both kinds of key hold behind their root.
spec fn attempt_path(
    root: Seq<char>,
    project: u128,
    sandbox: u128,
    operation: u128,
    allocation: u128,
    generation: int,
    host: u128,
    epoch: int,
    attempt: u128,
) -> Seq<char> {
    root + id_text("prj"@, project) + "/"@ + id_text("sbx"@, sandbox) + "/"@ + id_text("op"@, operation) + "/"@ + id_text(
        "alc"@,
        allocation,
    ) + "/"@ + signed_decimal(generation) + "/"@ + id_text("hst"@, host) + "/"@ + signed_decimal(epoch) + "/"@ + id_text(
        "op"@,
        attempt,
    )
}

proof fn lemma_cut_id_text(x: Seq<char>, v: u128, y: Seq<char>, w: u128, prefix: Seq<char>)
    requires
        x + id_text(prefix, v) == y + id_text(prefix, w),
        prefix == "hst"@ || prefix == "prj"@ || prefix == "sbx"@ || prefix == "alc"@ || prefix == "op"@,
    ensures
        x == y,
        v == w,
{
    reveal_strlit("hst");
    reveal_strlit("prj");
    reveal_strlit("sbx");
    reveal_strlit("alc");
    reveal_strlit("op");
    assert(id_text(prefix, v).len() == id_text(prefix, w).len());
    lemma_cut_length(x, id_text(prefix, v), y, id_text(prefix, w));
    lemma_id_text_injective(prefix, v, w);
}

/// An identity behind a slash.
proof fn lemma_cut_identity(x: Seq<char>, v: u128, y: Seq<char>, w: u128, prefix: Seq<char>)
    requires
        x + "/"@ + id_text(prefix, v) == y + "/"@ + id_text(prefix, w),
        prefix == "hst"@ || prefix == "prj"@ || prefix == "sbx"@ || prefix == "alc"@ || prefix == "op"@,
    ensures
        x == y,
        v == w,
{
    lemma_cut_id_text(x + "/"@, v, y + "/"@, w, prefix);
    lemma_cut_length(x, "/"@, y, "/"@);
}

/// A numeral behind a slash.
proof fn lemma_cut_numeral(x: Seq<char>, m: int, y: Seq<char>, n: int)
    requires
        x + "/"@ + signed_decimal(m) == y + "/"@ + signed_decimal(n),
    ensures
        x == y,
        m == n,
{
    reveal_strlit("/");
    lemma_numeral_characters(m);
    lemma_numeral_characters(n);
    let s = "/"@ + signed_decimal(m);
    let t = "/"@ + signed_decimal(n);
    assert(x + "/"@ + signed_decimal(m) =~= x + s);
    assert(y + "/"@ + signed_decimal(n) =~= y + t);
    lemma_cut_mark(x, s, y, t, '/');
    assert(s.skip(1) =~= signed_decimal(m));
    assert(t.skip(1) =~= signed_decimal(n));
    numerals_are_distinct(m, n);
}

proof fn lemma_attempt_paths_apart(
    root: Seq<char>,
    project: u128,
    sandbox: u128,
    operation: u128,
    allocation: u128,
    generation: int,
    host: u128,
    epoch: int,
    attempt: u128,
    project2: u128,
    sandbox2: u128,
    operation2: u128,
    allocation2: u128,
    generation2: int,
    host2: u128,
    epoch2: int,
    attempt2: u128,
)
    requires
        attempt_path(root, project, sandbox, operation, allocation, generation, host, epoch, attempt) == attempt_path(
            root,
            project2,
            sandbox2,
            operation2,
            allocation2,
            generation2,
            host2,
            epoch2,
            attempt2,
        ),
    ensures
        project == project2,
        sandbox == sandbox2,
        operation == operation2,
        allocation == allocation2,
        generation == generation2,
        host == host2,
        epoch == epoch2,
        attempt == attempt2,
{
    let x1 = root + id_text("prj"@, project);
    let y1 = root + id_text("prj"@, project2);
    let x2 = x1 + "/"@ + id_text("sbx"@, sandbox);
    let y2 = y1 + "/"@ + id_text("sbx"@, sandbox2);
    let x3 = x2 + "/"@ + id_text("op"@, operation);
    let y3 = y2 + "/"@ + id_text("op"@, operation2);
    let x4 = x3 + "/"@ + id_text("alc"@, allocation);
    let y4 = y3 + "/"@ + id_text("alc"@, allocation2);
    let x5 = x4 + "/"@ + signed_decimal(generation);
    let y5 = y4 + "/"@ + signed_decimal(generation2);
    let x6 = x5 + "/"@ + id_text("hst"@, host);
    let y6 = y5 + "/"@ + id_text("hst"@, host2);
    let x7 = x6 + "/"@ + signed_decimal(epoch);
    let y7 = y6 + "/"@ + signed_decimal(epoch2);
    lemma_cut_identity(x7, attempt, y7, attempt2, "op"@);
    lemma_cut_numeral(x6, epoch, y6, epoch2);
    lemma_cut_identity(x5, host, y5, host2, "hst"@);
    lemma_cut_numeral(x4, generation, y4, generation2);
    lemma_cut_identity(x3, allocation, y3, allocation2, "alc"@);
    lemma_cut_identity(x2, operation, y2, operation2, "op"@);
    lemma_cut_identity(x1, sandbox, y1, sandbox2, "sbx"@);
    lemma_cut_id_text(root, project, root, project2, "prj"@);
}

/// Two plans share a source key exactly where they are one attempt at one
/// operation of one owner: the same project, sandbox, operation, allocation and
/// generation, host and host epoch, and source attempt. Nothing else of a plan
/// enters its key.
pub proof fn source_keys_tell_attempts_apart(a: SourcePlan, b: SourcePlan)
    ensures
        source_key_text(a) == source_key_text(b) <==> {
            &&& a.owner.scope.project_id == b.owner.scope.project_id
            &&& a.owner.scope.sandbox_id == b.owner.scope.sandbox_id
            &&& a.upload.operation_id == b.upload.operation_id
            &&& a.owner.scope.allocation_id == b.owner.scope.allocation_id
            &&& a.owner.scope.generation == b.owner.scope.generation
            &&& a.owner.scope.host_id == b.owner.scope.host_id
            &&& a.owner.scope.host_epoch == b.owner.scope.host_epoch
            &&& a.source_attempt == b.source_attempt
        },
{
    reveal(source_key_text);
    if source_key_text(a) == source_key_text(b) {
        lemma_attempt_paths_apart(
            "file-source/v1/"@,
            a.owner.scope.project_id.value,
            a.owner.scope.sandbox_id.value,
            a.upload.operation_id.value,
            a.owner.scope.allocation_id.value,
            a.owner.scope.generation as int,
            a.owner.scope.host_id.value,
            a.owner.scope.host_epoch as int,
            a.source_attempt.value,
            b.owner.scope.project_id.value,
            b.owner.scope.sandbox_id.value,
            b.upload.operation_id.value,
            b.owner.scope.allocation_id.value,
            b.owner.scope.generation as int,
            b.owner.scope.host_id.value,
            b.owner.scope.host_epoch as int,
            b.source_attempt.value,
        );
    }
}

/// Two plans share an object key exactly where they are one stream of one upload
/// attempt at one operation of one owner: the same project, sandbox, operation,
/// allocation and generation, host and host epoch, upload attempt and stream.
/// Nothing else of a plan enters its key.
pub proof fn object_keys_tell_attempts_apart(a: OutputPlan, b: OutputPlan)
    ensures
        object_key_text(a) == object_key_text(b) <==> {
            &&& a.owner.project_id == b.owner.project_id
            &&& a.owner.sandbox_id == b.owner.sandbox_id
            &&& a.owner.operation_id == b.owner.operation_id
            &&& a.owner.allocation_id == b.owner.allocation_id
            &&& a.owner.generation == b.owner.generation
            &&& a.owner.host_id == b.owner.host_id
            &&& a.owner.host_epoch == b.owner.host_epoch
            &&& a.upload_attempt == b.upload_attempt
            &&& a.name == b.name
        },
{
    reveal(object_key_text);
    if object_key_text(a) == object_key_text(b) {
        reveal_strlit("stdout");
        reveal_strlit("stderr");
        let x = attempt_path(
            "output/v1/"@,
            a.owner.project_id.value,
            a.owner.sandbox_id.value,
            a.owner.operation_id.value,
            a.owner.allocation_id.value,
            a.owner.generation as int,
            a.owner.host_id.value,
            a.owner.host_epoch as int,
            a.upload_attempt.value,
        );
        let y = attempt_path(
            "output/v1/"@,
            b.owner.project_id.value,
            b.owner.sandbox_id.value,
            b.owner.operation_id.value,
            b.owner.allocation_id.value,
            b.owner.generation as int,
            b.owner.host_id.value,
            b.owner.host_epoch as int,
            b.upload_attempt.value,
        );
        lemma_cut_length(x + "/"@, output_name_text(a.name), y + "/"@, output_name_text(b.name));
        lemma_cut_length(x, "/"@, y, "/"@);
        if a.name != b.name {
            assert("stdout"@[3] != "stderr"@[3]);
        }
        lemma_attempt_paths_apart(
            "output/v1/"@,
            a.owner.project_id.value,
            a.owner.sandbox_id.value,
            a.owner.operation_id.value,
            a.owner.allocation_id.value,
            a.owner.generation as int,
            a.owner.host_id.value,
            a.owner.host_epoch as int,
            a.upload_attempt.value,
            b.owner.project_id.value,
            b.owner.sandbox_id.value,
            b.owner.operation_id.value,
            b.owner.allocation_id.value,
            b.owner.generation as int,
            b.owner.host_id.value,
            b.owner.host_epoch as int,
            b.upload_attempt.value,
        );
    }
}

} // verus!
