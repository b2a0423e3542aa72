//! How kept and exchanged values are written, member by member.
use crate::allocation_authority::{bytes_json, entry_json, permit_json, state_json, Entry, Permit, State};
use crate::allocation_retirement::{
    bool_json, closure_json, forget_json, intent_json, request_json, DomainClosure, ForgetRequest, Intent, Request,
};
use crate::bootstrap::{bootstrap_json, Bootstrap};
use crate::digest::{hex_text, sha256_of};
use crate::file_downloads::ReadScope;
use crate::file_sources::{scope_json, source_key_text, source_plan_digest, source_plan_json, SourcePlan};
use crate::files::{upload_json, Upload};
use crate::guest_model::Context;
use crate::guest_wire::guest_name_text;
use crate::ids::{hyphenated, id_text, AllocationId, OperationId};
use crate::json::{decimal, id_json, json_string, signed_decimal};
use crate::output::{
    object_key_text, output_name_text, owner_json, plan_digest, plan_json, OutputOwner, OutputPlan,
};
use crate::supervisor_files::{context_json, optional_context_json, record_json, FileRecord};
use vstd::string::*;
use vstd::utf8::*;
use vstd::prelude::*;

verus! {

/// A member of an object as it is written: its name in quotes, a colon and its value.
pub open spec fn member_text(name: Seq<char>, value: Seq<char>) -> Seq<char> {
    seq!['"'] + name + seq!['"', ':'] + value
}

/// The members of an object as they are written, with commas between them.
pub open spec fn members_text(members: Seq<(Seq<char>, Seq<char>)>) -> Seq<char>
    decreases members.len(),
{
    if members.len() == 0 {
        Seq::empty()
    } else if members.len() == 1 {
        member_text(members[0].0, members[0].1)
    } else {
        members_text(members.drop_last()) + seq![','] + member_text(members.last().0, members.last().1)
    }
}

/// An object as it is written: its members, in their order, in braces.
pub open spec fn object_text(members: Seq<(Seq<char>, Seq<char>)>) -> Seq<char> {
    seq!['{'] + members_text(members) + seq!['}']
}

proof fn lemma_open(start: Seq<char>, name: Seq<char>, value: Seq<char>)
    requires
        start == seq!['{', '"'] + name + seq!['"', ':'],
    ensures
        start + value == seq!['{'] + members_text(Seq::<(Seq<char>, Seq<char>)>::empty().push((name, value))),
{
    let m = Seq::<(Seq<char>, Seq<char>)>::empty().push((name, value));
    assert(m.len() == 1 && m[0] == (name, value));
    assert(start + value =~= seq!['{'] + member_text(name, value));
}

proof fn lemma_more(
    so_far: Seq<char>,
    members: Seq<(Seq<char>, Seq<char>)>,
    next: Seq<char>,
    name: Seq<char>,
    value: Seq<char>,
)
    requires
        members.len() > 0,
        so_far == seq!['{'] + members_text(members),
        next == seq![',', '"'] + name + seq!['"', ':'],
    ensures
        so_far + next + value == seq!['{'] + members_text(members.push((name, value))),
{
    let m = members.push((name, value));
    assert(m.drop_last() =~= members);
    assert(m.last() == (name, value));
    assert(so_far + next + value =~= seq!['{'] + (members_text(members) + seq![','] + member_text(name, value)));
}

proof fn lemma_close(so_far: Seq<char>, members: Seq<(Seq<char>, Seq<char>)>)
    requires
        so_far == seq!['{'] + members_text(members),
    ensures
        so_far + "}"@ == object_text(members),
{
    reveal_strlit("}");
    assert("}"@ =~= seq!['}']);
    assert(so_far + "}"@ =~= object_text(members));
}

/// A path as it is written: its segments, in their order, with slashes between them.
pub open spec fn path_text(segments: Seq<Seq<char>>) -> Seq<char>
    decreases segments.len(),
{
    if segments.len() == 0 {
        Seq::empty()
    } else if segments.len() == 1 {
        segments[0]
    } else {
        path_text(segments.drop_last()) + seq!['/'] + segments.last()
    }
}

proof fn lemma_segment(so_far: Seq<char>, segments: Seq<Seq<char>>, next: Seq<char>)
    requires
        segments.len() > 0,
        so_far == path_text(segments),
    ensures
        so_far + "/"@ + next == path_text(segments.push(next)),
{
    reveal_strlit("/");
    let all = segments.push(next);
    assert(all.drop_last() =~= segments);
    assert(all.last() == next);
    assert("/"@ =~= seq!['/']);
}

/// A permit is written with each of its identities under its own name.
pub proof fn permits_are_written_out(p: Permit)
    ensures
        permit_json(p) == object_text(
            seq![
                ("host"@, id_json("hst"@, p.host.value)),
                ("project"@, id_json("prj"@, p.project.value)),
                ("sandbox"@, id_json("sbx"@, p.sandbox.value)),
                ("allocation"@, id_json("alc"@, p.allocation.value)),
                ("create_operation"@, id_json("op"@, p.create_operation.value)),
                ("generation"@, signed_decimal(p.generation as int)),
                ("original_epoch"@, signed_decimal(p.original_epoch as int)),
                ("serial"@, decimal(p.serial as nat)),
            ],
        ),
{
    reveal(permit_json);
    reveal_strlit("host");
    reveal_strlit("{\"host\":");
    assert("{\"host\":"@ =~= seq!['{', '"'] + "host"@ + seq!['"', ':']);
    reveal_strlit("project");
    reveal_strlit(",\"project\":");
    assert(",\"project\":"@ =~= seq![',', '"'] + "project"@ + seq!['"', ':']);
    reveal_strlit("sandbox");
    reveal_strlit(",\"sandbox\":");
    assert(",\"sandbox\":"@ =~= seq![',', '"'] + "sandbox"@ + seq!['"', ':']);
    reveal_strlit("allocation");
    reveal_strlit(",\"allocation\":");
    assert(",\"allocation\":"@ =~= seq![',', '"'] + "allocation"@ + seq!['"', ':']);
    reveal_strlit("create_operation");
    reveal_strlit(",\"create_operation\":");
    assert(",\"create_operation\":"@ =~= seq![',', '"'] + "create_operation"@ + seq!['"', ':']);
    reveal_strlit("generation");
    reveal_strlit(",\"generation\":");
    assert(",\"generation\":"@ =~= seq![',', '"'] + "generation"@ + seq!['"', ':']);
    reveal_strlit("original_epoch");
    reveal_strlit(",\"original_epoch\":");
    assert(",\"original_epoch\":"@ =~= seq![',', '"'] + "original_epoch"@ + seq!['"', ':']);
    reveal_strlit("serial");
    reveal_strlit(",\"serial\":");
    assert(",\"serial\":"@ =~= seq![',', '"'] + "serial"@ + seq!['"', ':']);
    let m0 = Seq::<(Seq<char>, Seq<char>)>::empty().push(("host"@, id_json("hst"@, p.host.value)));
    let a0 = "{\"host\":"@ + id_json("hst"@, p.host.value);
    lemma_open("{\"host\":"@, "host"@, id_json("hst"@, p.host.value));
    let m1 = m0.push(("project"@, id_json("prj"@, p.project.value)));
    let a1 = a0 + ",\"project\":"@ + id_json("prj"@, p.project.value);
    lemma_more(a0, m0, ",\"project\":"@, "project"@, id_json("prj"@, p.project.value));
    let m2 = m1.push(("sandbox"@, id_json("sbx"@, p.sandbox.value)));
    let a2 = a1 + ",\"sandbox\":"@ + id_json("sbx"@, p.sandbox.value);
    lemma_more(a1, m1, ",\"sandbox\":"@, "sandbox"@, id_json("sbx"@, p.sandbox.value));
    let m3 = m2.push(("allocation"@, id_json("alc"@, p.allocation.value)));
    let a3 = a2 + ",\"allocation\":"@ + id_json("alc"@, p.allocation.value);
    lemma_more(a2, m2, ",\"allocation\":"@, "allocation"@, id_json("alc"@, p.allocation.value));
    let m4 = m3.push(("create_operation"@, id_json("op"@, p.create_operation.value)));
    let a4 = a3 + ",\"create_operation\":"@ + id_json("op"@, p.create_operation.value);
    lemma_more(a3, m3, ",\"create_operation\":"@, "create_operation"@, id_json("op"@, p.create_operation.value));
    let m5 = m4.push(("generation"@, signed_decimal(p.generation as int)));
    let a5 = a4 + ",\"generation\":"@ + signed_decimal(p.generation as int);
    lemma_more(a4, m4, ",\"generation\":"@, "generation"@, signed_decimal(p.generation as int));
    let m6 = m5.push(("original_epoch"@, signed_decimal(p.original_epoch as int)));
    let a6 = a5 + ",\"original_epoch\":"@ + signed_decimal(p.original_epoch as int);
    lemma_more(a5, m5, ",\"original_epoch\":"@, "original_epoch"@, signed_decimal(p.original_epoch as int));
    let m7 = m6.push(("serial"@, decimal(p.serial as nat)));
    let a7 = a6 + ",\"serial\":"@ + decimal(p.serial as nat);
    lemma_more(a6, m6, ",\"serial\":"@, "serial"@, decimal(p.serial as nat));
    lemma_close(a7, m7);
    assert(m7 =~= seq![
        ("host"@, id_json("hst"@, p.host.value)),
        ("project"@, id_json("prj"@, p.project.value)),
        ("sandbox"@, id_json("sbx"@, p.sandbox.value)),
        ("allocation"@, id_json("alc"@, p.allocation.value)),
        ("create_operation"@, id_json("op"@, p.create_operation.value)),
        ("generation"@, signed_decimal(p.generation as int)),
        ("original_epoch"@, signed_decimal(p.original_epoch as int)),
        ("serial"@, decimal(p.serial as nat)),
    ]);
}

/// An entry is written as its permit and its state.
pub proof fn entries_are_written_out(e: Entry)
    ensures
        entry_json(e) == object_text(
            seq![
                ("permit"@, permit_json(e.permit)),
                ("state"@, state_json(e.state)),
            ],
        ),
{
    reveal(entry_json);
    reveal_strlit("permit");
    reveal_strlit("{\"permit\":");
    assert("{\"permit\":"@ =~= seq!['{', '"'] + "permit"@ + seq!['"', ':']);
    reveal_strlit("state");
    reveal_strlit(",\"state\":");
    assert(",\"state\":"@ =~= seq![',', '"'] + "state"@ + seq!['"', ':']);
    let m0 = Seq::<(Seq<char>, Seq<char>)>::empty().push(("permit"@, permit_json(e.permit)));
    let a0 = "{\"permit\":"@ + permit_json(e.permit);
    lemma_open("{\"permit\":"@, "permit"@, permit_json(e.permit));
    let m1 = m0.push(("state"@, state_json(e.state)));
    let a1 = a0 + ",\"state\":"@ + state_json(e.state);
    lemma_more(a0, m0, ",\"state\":"@, "state"@, state_json(e.state));
    lemma_close(a1, m1);
    assert(m1 =~= seq![
        ("permit"@, permit_json(e.permit)),
        ("state"@, state_json(e.state)),
    ]);
}

/// An intent is written with its permit, what closes each domain, and the digest of its
/// release.
pub proof fn intents_are_written_out(i: Intent)
    ensures
        intent_json(i) == object_text(
            seq![
                ("version"@, decimal(i.version as nat)),
                ("retirement"@, id_json("op"@, i.retirement.value)),
                ("permit"@, permit_json(i.permit)),
                ("commands"@, closure_json(i.commands)),
                ("files"@, closure_json(i.files)),
                ("release_evidence_sha256"@, json_string(i.release_evidence_sha256@)),
                ("simulated"@, bool_json(i.simulated)),
            ],
        ),
{
    reveal(intent_json);
    reveal_strlit("version");
    reveal_strlit("{\"version\":");
    assert("{\"version\":"@ =~= seq!['{', '"'] + "version"@ + seq!['"', ':']);
    reveal_strlit("retirement");
    reveal_strlit(",\"retirement\":");
    assert(",\"retirement\":"@ =~= seq![',', '"'] + "retirement"@ + seq!['"', ':']);
    reveal_strlit("permit");
    reveal_strlit(",\"permit\":");
    assert(",\"permit\":"@ =~= seq![',', '"'] + "permit"@ + seq!['"', ':']);
    reveal_strlit("commands");
    reveal_strlit(",\"commands\":");
    assert(",\"commands\":"@ =~= seq![',', '"'] + "commands"@ + seq!['"', ':']);
    reveal_strlit("files");
    reveal_strlit(",\"files\":");
    assert(",\"files\":"@ =~= seq![',', '"'] + "files"@ + seq!['"', ':']);
    reveal_strlit("release_evidence_sha256");
    reveal_strlit(",\"release_evidence_sha256\":");
    assert(",\"release_evidence_sha256\":"@ =~= seq![',', '"'] + "release_evidence_sha256"@ + seq!['"', ':']);
    reveal_strlit("simulated");
    reveal_strlit(",\"simulated\":");
    assert(",\"simulated\":"@ =~= seq![',', '"'] + "simulated"@ + seq!['"', ':']);
    let m0 = Seq::<(Seq<char>, Seq<char>)>::empty().push(("version"@, decimal(i.version as nat)));
    let a0 = "{\"version\":"@ + decimal(i.version as nat);
    lemma_open("{\"version\":"@, "version"@, decimal(i.version as nat));
    let m1 = m0.push(("retirement"@, id_json("op"@, i.retirement.value)));
    let a1 = a0 + ",\"retirement\":"@ + id_json("op"@, i.retirement.value);
    lemma_more(a0, m0, ",\"retirement\":"@, "retirement"@, id_json("op"@, i.retirement.value));
    let m2 = m1.push(("permit"@, permit_json(i.permit)));
    let a2 = a1 + ",\"permit\":"@ + permit_json(i.permit);
    lemma_more(a1, m1, ",\"permit\":"@, "permit"@, permit_json(i.permit));
    let m3 = m2.push(("commands"@, closure_json(i.commands)));
    let a3 = a2 + ",\"commands\":"@ + closure_json(i.commands);
    lemma_more(a2, m2, ",\"commands\":"@, "commands"@, closure_json(i.commands));
    let m4 = m3.push(("files"@, closure_json(i.files)));
    let a4 = a3 + ",\"files\":"@ + closure_json(i.files);
    lemma_more(a3, m3, ",\"files\":"@, "files"@, closure_json(i.files));
    let m5 = m4.push(("release_evidence_sha256"@, json_string(i.release_evidence_sha256@)));
    let a5 = a4 + ",\"release_evidence_sha256\":"@ + json_string(i.release_evidence_sha256@);
    lemma_more(a4, m4, ",\"release_evidence_sha256\":"@, "release_evidence_sha256"@, json_string(i.release_evidence_sha256@));
    let m6 = m5.push(("simulated"@, bool_json(i.simulated)));
    let a6 = a5 + ",\"simulated\":"@ + bool_json(i.simulated);
    lemma_more(a5, m5, ",\"simulated\":"@, "simulated"@, bool_json(i.simulated));
    lemma_close(a6, m6);
    assert(m6 =~= seq![
        ("version"@, decimal(i.version as nat)),
        ("retirement"@, id_json("op"@, i.retirement.value)),
        ("permit"@, permit_json(i.permit)),
        ("commands"@, closure_json(i.commands)),
        ("files"@, closure_json(i.files)),
        ("release_evidence_sha256"@, json_string(i.release_evidence_sha256@)),
        ("simulated"@, bool_json(i.simulated)),
    ]);
}

/// A request to retire is written as its intent and its claim.
pub proof fn requests_are_written_out(q: Request)
    ensures
        request_json(q) == object_text(
            seq![
                ("intent"@, intent_json(q.intent)),
                ("reporting_epoch"@, signed_decimal(q.reporting_epoch as int)),
                ("revision"@, signed_decimal(q.revision as int)),
                ("expires_unix_ms"@, signed_decimal(q.expires_unix_ms as int)),
            ],
        ),
{
    reveal(request_json);
    reveal_strlit("intent");
    reveal_strlit("{\"intent\":");
    assert("{\"intent\":"@ =~= seq!['{', '"'] + "intent"@ + seq!['"', ':']);
    reveal_strlit("reporting_epoch");
    reveal_strlit(",\"reporting_epoch\":");
    assert(",\"reporting_epoch\":"@ =~= seq![',', '"'] + "reporting_epoch"@ + seq!['"', ':']);
    reveal_strlit("revision");
    reveal_strlit(",\"revision\":");
    assert(",\"revision\":"@ =~= seq![',', '"'] + "revision"@ + seq!['"', ':']);
    reveal_strlit("expires_unix_ms");
    reveal_strlit(",\"expires_unix_ms\":");
    assert(",\"expires_unix_ms\":"@ =~= seq![',', '"'] + "expires_unix_ms"@ + seq!['"', ':']);
    let m0 = Seq::<(Seq<char>, Seq<char>)>::empty().push(("intent"@, intent_json(q.intent)));
    let a0 = "{\"intent\":"@ + intent_json(q.intent);
    lemma_open("{\"intent\":"@, "intent"@, intent_json(q.intent));
    let m1 = m0.push(("reporting_epoch"@, signed_decimal(q.reporting_epoch as int)));
    let a1 = a0 + ",\"reporting_epoch\":"@ + signed_decimal(q.reporting_epoch as int);
    lemma_more(a0, m0, ",\"reporting_epoch\":"@, "reporting_epoch"@, signed_decimal(q.reporting_epoch as int));
    let m2 = m1.push(("revision"@, signed_decimal(q.revision as int)));
    let a2 = a1 + ",\"revision\":"@ + signed_decimal(q.revision as int);
    lemma_more(a1, m1, ",\"revision\":"@, "revision"@, signed_decimal(q.revision as int));
    let m3 = m2.push(("expires_unix_ms"@, signed_decimal(q.expires_unix_ms as int)));
    let a3 = a2 + ",\"expires_unix_ms\":"@ + signed_decimal(q.expires_unix_ms as int);
    lemma_more(a2, m2, ",\"expires_unix_ms\":"@, "expires_unix_ms"@, signed_decimal(q.expires_unix_ms as int));
    lemma_close(a3, m3);
    assert(m3 =~= seq![
        ("intent"@, intent_json(q.intent)),
        ("reporting_epoch"@, signed_decimal(q.reporting_epoch as int)),
        ("revision"@, signed_decimal(q.revision as int)),
        ("expires_unix_ms"@, signed_decimal(q.expires_unix_ms as int)),
    ]);
}

/// A request to forget is written as its claim and the request that was completed.
pub proof fn forget_requests_are_written_out(f: ForgetRequest)
    ensures
        forget_json(f) == object_text(
            seq![
                ("version"@, decimal(f.version as nat)),
                ("claim"@, request_json(f.claim)),
                ("metadata_request"@, request_json(f.metadata_request)),
            ],
        ),
{
    reveal(forget_json);
    reveal_strlit("version");
    reveal_strlit("{\"version\":");
    assert("{\"version\":"@ =~= seq!['{', '"'] + "version"@ + seq!['"', ':']);
    reveal_strlit("claim");
    reveal_strlit(",\"claim\":");
    assert(",\"claim\":"@ =~= seq![',', '"'] + "claim"@ + seq!['"', ':']);
    reveal_strlit("metadata_request");
    reveal_strlit(",\"metadata_request\":");
    assert(",\"metadata_request\":"@ =~= seq![',', '"'] + "metadata_request"@ + seq!['"', ':']);
    let m0 = Seq::<(Seq<char>, Seq<char>)>::empty().push(("version"@, decimal(f.version as nat)));
    let a0 = "{\"version\":"@ + decimal(f.version as nat);
    lemma_open("{\"version\":"@, "version"@, decimal(f.version as nat));
    let m1 = m0.push(("claim"@, request_json(f.claim)));
    let a1 = a0 + ",\"claim\":"@ + request_json(f.claim);
    lemma_more(a0, m0, ",\"claim\":"@, "claim"@, request_json(f.claim));
    let m2 = m1.push(("metadata_request"@, request_json(f.metadata_request)));
    let a2 = a1 + ",\"metadata_request\":"@ + request_json(f.metadata_request);
    lemma_more(a1, m1, ",\"metadata_request\":"@, "metadata_request"@, request_json(f.metadata_request));
    lemma_close(a2, m2);
    assert(m2 =~= seq![
        ("version"@, decimal(f.version as nat)),
        ("claim"@, request_json(f.claim)),
        ("metadata_request"@, request_json(f.metadata_request)),
    ]);
}

/// An upload is written with its path, size, digest and mode.
pub proof fn uploads_are_written_out(u: Upload)
    ensures
        upload_json(u) == object_text(
            seq![
                ("operation_id"@, id_json("op"@, u.operation_id.value)),
                ("path"@, json_string(u.path@)),
                ("size"@, decimal(u.size as nat)),
                ("sha256"@, bytes_json(u.sha256@)),
                ("mode"@, decimal(u.mode as nat)),
            ],
        ),
{
    reveal(upload_json);
    reveal_strlit("operation_id");
    reveal_strlit("{\"operation_id\":");
    assert("{\"operation_id\":"@ =~= seq!['{', '"'] + "operation_id"@ + seq!['"', ':']);
    reveal_strlit("path");
    reveal_strlit(",\"path\":");
    assert(",\"path\":"@ =~= seq![',', '"'] + "path"@ + seq!['"', ':']);
    reveal_strlit("size");
    reveal_strlit(",\"size\":");
    assert(",\"size\":"@ =~= seq![',', '"'] + "size"@ + seq!['"', ':']);
    reveal_strlit("sha256");
    reveal_strlit(",\"sha256\":");
    assert(",\"sha256\":"@ =~= seq![',', '"'] + "sha256"@ + seq!['"', ':']);
    reveal_strlit("mode");
    reveal_strlit(",\"mode\":");
    assert(",\"mode\":"@ =~= seq![',', '"'] + "mode"@ + seq!['"', ':']);
    let m0 = Seq::<(Seq<char>, Seq<char>)>::empty().push(("operation_id"@, id_json("op"@, u.operation_id.value)));
    let a0 = "{\"operation_id\":"@ + id_json("op"@, u.operation_id.value);
    lemma_open("{\"operation_id\":"@, "operation_id"@, id_json("op"@, u.operation_id.value));
    let m1 = m0.push(("path"@, json_string(u.path@)));
    let a1 = a0 + ",\"path\":"@ + json_string(u.path@);
    lemma_more(a0, m0, ",\"path\":"@, "path"@, json_string(u.path@));
    let m2 = m1.push(("size"@, decimal(u.size as nat)));
    let a2 = a1 + ",\"size\":"@ + decimal(u.size as nat);
    lemma_more(a1, m1, ",\"size\":"@, "size"@, decimal(u.size as nat));
    let m3 = m2.push(("sha256"@, bytes_json(u.sha256@)));
    let a3 = a2 + ",\"sha256\":"@ + bytes_json(u.sha256@);
    lemma_more(a2, m2, ",\"sha256\":"@, "sha256"@, bytes_json(u.sha256@));
    let m4 = m3.push(("mode"@, decimal(u.mode as nat)));
    let a4 = a3 + ",\"mode\":"@ + decimal(u.mode as nat);
    lemma_more(a3, m3, ",\"mode\":"@, "mode"@, decimal(u.mode as nat));
    lemma_close(a4, m4);
    assert(m4 =~= seq![
        ("operation_id"@, id_json("op"@, u.operation_id.value)),
        ("path"@, json_string(u.path@)),
        ("size"@, decimal(u.size as nat)),
        ("sha256"@, bytes_json(u.sha256@)),
        ("mode"@, decimal(u.mode as nat)),
    ]);
}

/// An output's owner is written with each of its identities under its own name.
pub proof fn output_owners_are_written_out(o: OutputOwner)
    ensures
        owner_json(o) == object_text(
            seq![
                ("project_id"@, id_json("prj"@, o.project_id.value)),
                ("sandbox_id"@, id_json("sbx"@, o.sandbox_id.value)),
                ("operation_id"@, id_json("op"@, o.operation_id.value)),
                ("allocation_id"@, id_json("alc"@, o.allocation_id.value)),
                ("generation"@, signed_decimal(o.generation as int)),
                ("host_id"@, id_json("hst"@, o.host_id.value)),
                ("host_epoch"@, signed_decimal(o.host_epoch as int)),
                ("boot_id"@, json_string(o.boot_id@)),
            ],
        ),
{
    reveal(owner_json);
    reveal_strlit("project_id");
    reveal_strlit("{\"project_id\":");
    assert("{\"project_id\":"@ =~= seq!['{', '"'] + "project_id"@ + seq!['"', ':']);
    reveal_strlit("sandbox_id");
    reveal_strlit(",\"sandbox_id\":");
    assert(",\"sandbox_id\":"@ =~= seq![',', '"'] + "sandbox_id"@ + seq!['"', ':']);
    reveal_strlit("operation_id");
    reveal_strlit(",\"operation_id\":");
    assert(",\"operation_id\":"@ =~= seq![',', '"'] + "operation_id"@ + seq!['"', ':']);
    reveal_strlit("allocation_id");
    reveal_strlit(",\"allocation_id\":");
    assert(",\"allocation_id\":"@ =~= seq![',', '"'] + "allocation_id"@ + seq!['"', ':']);
    reveal_strlit("generation");
    reveal_strlit(",\"generation\":");
    assert(",\"generation\":"@ =~= seq![',', '"'] + "generation"@ + seq!['"', ':']);
    reveal_strlit("host_id");
    reveal_strlit(",\"host_id\":");
    assert(",\"host_id\":"@ =~= seq![',', '"'] + "host_id"@ + seq!['"', ':']);
    reveal_strlit("host_epoch");
    reveal_strlit(",\"host_epoch\":");
    assert(",\"host_epoch\":"@ =~= seq![',', '"'] + "host_epoch"@ + seq!['"', ':']);
    reveal_strlit("boot_id");
    reveal_strlit(",\"boot_id\":");
    assert(",\"boot_id\":"@ =~= seq![',', '"'] + "boot_id"@ + seq!['"', ':']);
    let m0 = Seq::<(Seq<char>, Seq<char>)>::empty().push(("project_id"@, id_json("prj"@, o.project_id.value)));
    let a0 = "{\"project_id\":"@ + id_json("prj"@, o.project_id.value);
    lemma_open("{\"project_id\":"@, "project_id"@, id_json("prj"@, o.project_id.value));
    let m1 = m0.push(("sandbox_id"@, id_json("sbx"@, o.sandbox_id.value)));
    let a1 = a0 + ",\"sandbox_id\":"@ + id_json("sbx"@, o.sandbox_id.value);
    lemma_more(a0, m0, ",\"sandbox_id\":"@, "sandbox_id"@, id_json("sbx"@, o.sandbox_id.value));
    let m2 = m1.push(("operation_id"@, id_json("op"@, o.operation_id.value)));
    let a2 = a1 + ",\"operation_id\":"@ + id_json("op"@, o.operation_id.value);
    lemma_more(a1, m1, ",\"operation_id\":"@, "operation_id"@, id_json("op"@, o.operation_id.value));
    let m3 = m2.push(("allocation_id"@, id_json("alc"@, o.allocation_id.value)));
    let a3 = a2 + ",\"allocation_id\":"@ + id_json("alc"@, o.allocation_id.value);
    lemma_more(a2, m2, ",\"allocation_id\":"@, "allocation_id"@, id_json("alc"@, o.allocation_id.value));
    let m4 = m3.push(("generation"@, signed_decimal(o.generation as int)));
    let a4 = a3 + ",\"generation\":"@ + signed_decimal(o.generation as int);
    lemma_more(a3, m3, ",\"generation\":"@, "generation"@, signed_decimal(o.generation as int));
    let m5 = m4.push(("host_id"@, id_json("hst"@, o.host_id.value)));
    let a5 = a4 + ",\"host_id\":"@ + id_json("hst"@, o.host_id.value);
    lemma_more(a4, m4, ",\"host_id\":"@, "host_id"@, id_json("hst"@, o.host_id.value));
    let m6 = m5.push(("host_epoch"@, signed_decimal(o.host_epoch as int)));
    let a6 = a5 + ",\"host_epoch\":"@ + signed_decimal(o.host_epoch as int);
    lemma_more(a5, m5, ",\"host_epoch\":"@, "host_epoch"@, signed_decimal(o.host_epoch as int));
    let m7 = m6.push(("boot_id"@, json_string(o.boot_id@)));
    let a7 = a6 + ",\"boot_id\":"@ + json_string(o.boot_id@);
    lemma_more(a6, m6, ",\"boot_id\":"@, "boot_id"@, json_string(o.boot_id@));
    lemma_close(a7, m7);
    assert(m7 =~= seq![
        ("project_id"@, id_json("prj"@, o.project_id.value)),
        ("sandbox_id"@, id_json("sbx"@, o.sandbox_id.value)),
        ("operation_id"@, id_json("op"@, o.operation_id.value)),
        ("allocation_id"@, id_json("alc"@, o.allocation_id.value)),
        ("generation"@, signed_decimal(o.generation as int)),
        ("host_id"@, id_json("hst"@, o.host_id.value)),
        ("host_epoch"@, signed_decimal(o.host_epoch as int)),
        ("boot_id"@, json_string(o.boot_id@)),
    ]);
}

/// An output plan is written with its owner, its stream, what it holds, what was seen,
/// and its retention.
pub proof fn output_plans_are_written_out(p: OutputPlan)
    ensures
        plan_json(p) == object_text(
            seq![
                ("version"@, decimal(p.version as nat)),
                ("owner"@, owner_json(p.owner)),
                ("upload_attempt"@, id_json("op"@, p.upload_attempt.value)),
                ("name"@, json_string(output_name_text(p.name))),
                ("size"@, decimal(p.size as nat)),
                ("sha256"@, json_string(p.sha256@)),
                ("seen"@, decimal(p.seen as nat)),
                ("truncated"@, bool_json(p.truncated)),
                ("created_unix_ms"@, signed_decimal(p.created_unix_ms as int)),
                ("expires_unix_ms"@, signed_decimal(p.expires_unix_ms as int)),
                ("delete_after_unix_ms"@, signed_decimal(p.delete_after_unix_ms as int)),
            ],
        ),
{
    reveal(plan_json);
    reveal_strlit("version");
    reveal_strlit("{\"version\":");
    assert("{\"version\":"@ =~= seq!['{', '"'] + "version"@ + seq!['"', ':']);
    reveal_strlit("owner");
    reveal_strlit(",\"owner\":");
    assert(",\"owner\":"@ =~= seq![',', '"'] + "owner"@ + seq!['"', ':']);
    reveal_strlit("upload_attempt");
    reveal_strlit(",\"upload_attempt\":");
    assert(",\"upload_attempt\":"@ =~= seq![',', '"'] + "upload_attempt"@ + seq!['"', ':']);
    reveal_strlit("name");
    reveal_strlit(",\"name\":");
    assert(",\"name\":"@ =~= seq![',', '"'] + "name"@ + seq!['"', ':']);
    reveal_strlit("size");
    reveal_strlit(",\"size\":");
    assert(",\"size\":"@ =~= seq![',', '"'] + "size"@ + seq!['"', ':']);
    reveal_strlit("sha256");
    reveal_strlit(",\"sha256\":");
    assert(",\"sha256\":"@ =~= seq![',', '"'] + "sha256"@ + seq!['"', ':']);
    reveal_strlit("seen");
    reveal_strlit(",\"seen\":");
    assert(",\"seen\":"@ =~= seq![',', '"'] + "seen"@ + seq!['"', ':']);
    reveal_strlit("truncated");
    reveal_strlit(",\"truncated\":");
    assert(",\"truncated\":"@ =~= seq![',', '"'] + "truncated"@ + seq!['"', ':']);
    reveal_strlit("created_unix_ms");
    reveal_strlit(",\"created_unix_ms\":");
    assert(",\"created_unix_ms\":"@ =~= seq![',', '"'] + "created_unix_ms"@ + seq!['"', ':']);
    reveal_strlit("expires_unix_ms");
    reveal_strlit(",\"expires_unix_ms\":");
    assert(",\"expires_unix_ms\":"@ =~= seq![',', '"'] + "expires_unix_ms"@ + seq!['"', ':']);
    reveal_strlit("delete_after_unix_ms");
    reveal_strlit(",\"delete_after_unix_ms\":");
    assert(",\"delete_after_unix_ms\":"@ =~= seq![',', '"'] + "delete_after_unix_ms"@ + seq!['"', ':']);
    let m0 = Seq::<(Seq<char>, Seq<char>)>::empty().push(("version"@, decimal(p.version as nat)));
    let a0 = "{\"version\":"@ + decimal(p.version as nat);
    lemma_open("{\"version\":"@, "version"@, decimal(p.version as nat));
    let m1 = m0.push(("owner"@, owner_json(p.owner)));
    let a1 = a0 + ",\"owner\":"@ + owner_json(p.owner);
    lemma_more(a0, m0, ",\"owner\":"@, "owner"@, owner_json(p.owner));
    let m2 = m1.push(("upload_attempt"@, id_json("op"@, p.upload_attempt.value)));
    let a2 = a1 + ",\"upload_attempt\":"@ + id_json("op"@, p.upload_attempt.value);
    lemma_more(a1, m1, ",\"upload_attempt\":"@, "upload_attempt"@, id_json("op"@, p.upload_attempt.value));
    let m3 = m2.push(("name"@, json_string(output_name_text(p.name))));
    let a3 = a2 + ",\"name\":"@ + json_string(output_name_text(p.name));
    lemma_more(a2, m2, ",\"name\":"@, "name"@, json_string(output_name_text(p.name)));
    let m4 = m3.push(("size"@, decimal(p.size as nat)));
    let a4 = a3 + ",\"size\":"@ + decimal(p.size as nat);
    lemma_more(a3, m3, ",\"size\":"@, "size"@, decimal(p.size as nat));
    let m5 = m4.push(("sha256"@, json_string(p.sha256@)));
    let a5 = a4 + ",\"sha256\":"@ + json_string(p.sha256@);
    lemma_more(a4, m4, ",\"sha256\":"@, "sha256"@, json_string(p.sha256@));
    let m6 = m5.push(("seen"@, decimal(p.seen as nat)));
    let a6 = a5 + ",\"seen\":"@ + decimal(p.seen as nat);
    lemma_more(a5, m5, ",\"seen\":"@, "seen"@, decimal(p.seen as nat));
    let m7 = m6.push(("truncated"@, bool_json(p.truncated)));
    let a7 = a6 + ",\"truncated\":"@ + bool_json(p.truncated);
    lemma_more(a6, m6, ",\"truncated\":"@, "truncated"@, bool_json(p.truncated));
    let m8 = m7.push(("created_unix_ms"@, signed_decimal(p.created_unix_ms as int)));
    let a8 = a7 + ",\"created_unix_ms\":"@ + signed_decimal(p.created_unix_ms as int);
    lemma_more(a7, m7, ",\"created_unix_ms\":"@, "created_unix_ms"@, signed_decimal(p.created_unix_ms as int));
    let m9 = m8.push(("expires_unix_ms"@, signed_decimal(p.expires_unix_ms as int)));
    let a9 = a8 + ",\"expires_unix_ms\":"@ + signed_decimal(p.expires_unix_ms as int);
    lemma_more(a8, m8, ",\"expires_unix_ms\":"@, "expires_unix_ms"@, signed_decimal(p.expires_unix_ms as int));
    let m10 = m9.push(("delete_after_unix_ms"@, signed_decimal(p.delete_after_unix_ms as int)));
    let a10 = a9 + ",\"delete_after_unix_ms\":"@ + signed_decimal(p.delete_after_unix_ms as int);
    lemma_more(a9, m9, ",\"delete_after_unix_ms\":"@, "delete_after_unix_ms"@, signed_decimal(p.delete_after_unix_ms as int));
    lemma_close(a10, m10);
    assert(m10 =~= seq![
        ("version"@, decimal(p.version as nat)),
        ("owner"@, owner_json(p.owner)),
        ("upload_attempt"@, id_json("op"@, p.upload_attempt.value)),
        ("name"@, json_string(output_name_text(p.name))),
        ("size"@, decimal(p.size as nat)),
        ("sha256"@, json_string(p.sha256@)),
        ("seen"@, decimal(p.seen as nat)),
        ("truncated"@, bool_json(p.truncated)),
        ("created_unix_ms"@, signed_decimal(p.created_unix_ms as int)),
        ("expires_unix_ms"@, signed_decimal(p.expires_unix_ms as int)),
        ("delete_after_unix_ms"@, signed_decimal(p.delete_after_unix_ms as int)),
    ]);
}

/// A read scope is written with each of its identities under its own name.
pub proof fn read_scopes_are_written_out(s: ReadScope)
    ensures
        scope_json(s) == object_text(
            seq![
                ("version"@, decimal(s.version as nat)),
                ("host_id"@, id_json("hst"@, s.host_id.value)),
                ("host_epoch"@, signed_decimal(s.host_epoch as int)),
                ("project_id"@, id_json("prj"@, s.project_id.value)),
                ("sandbox_id"@, id_json("sbx"@, s.sandbox_id.value)),
                ("allocation_id"@, id_json("alc"@, s.allocation_id.value)),
                ("generation"@, signed_decimal(s.generation as int)),
            ],
        ),
{
    reveal(scope_json);
    reveal_strlit("version");
    reveal_strlit("{\"version\":");
    assert("{\"version\":"@ =~= seq!['{', '"'] + "version"@ + seq!['"', ':']);
    reveal_strlit("host_id");
    reveal_strlit(",\"host_id\":");
    assert(",\"host_id\":"@ =~= seq![',', '"'] + "host_id"@ + seq!['"', ':']);
    reveal_strlit("host_epoch");
    reveal_strlit(",\"host_epoch\":");
    assert(",\"host_epoch\":"@ =~= seq![',', '"'] + "host_epoch"@ + seq!['"', ':']);
    reveal_strlit("project_id");
    reveal_strlit(",\"project_id\":");
    assert(",\"project_id\":"@ =~= seq![',', '"'] + "project_id"@ + seq!['"', ':']);
    reveal_strlit("sandbox_id");
    reveal_strlit(",\"sandbox_id\":");
    assert(",\"sandbox_id\":"@ =~= seq![',', '"'] + "sandbox_id"@ + seq!['"', ':']);
    reveal_strlit("allocation_id");
    reveal_strlit(",\"allocation_id\":");
    assert(",\"allocation_id\":"@ =~= seq![',', '"'] + "allocation_id"@ + seq!['"', ':']);
    reveal_strlit("generation");
    reveal_strlit(",\"generation\":");
    assert(",\"generation\":"@ =~= seq![',', '"'] + "generation"@ + seq!['"', ':']);
    let m0 = Seq::<(Seq<char>, Seq<char>)>::empty().push(("version"@, decimal(s.version as nat)));
    let a0 = "{\"version\":"@ + decimal(s.version as nat);
    lemma_open("{\"version\":"@, "version"@, decimal(s.version as nat));
    let m1 = m0.push(("host_id"@, id_json("hst"@, s.host_id.value)));
    let a1 = a0 + ",\"host_id\":"@ + id_json("hst"@, s.host_id.value);
    lemma_more(a0, m0, ",\"host_id\":"@, "host_id"@, id_json("hst"@, s.host_id.value));
    let m2 = m1.push(("host_epoch"@, signed_decimal(s.host_epoch as int)));
    let a2 = a1 + ",\"host_epoch\":"@ + signed_decimal(s.host_epoch as int);
    lemma_more(a1, m1, ",\"host_epoch\":"@, "host_epoch"@, signed_decimal(s.host_epoch as int));
    let m3 = m2.push(("project_id"@, id_json("prj"@, s.project_id.value)));
    let a3 = a2 + ",\"project_id\":"@ + id_json("prj"@, s.project_id.value);
    lemma_more(a2, m2, ",\"project_id\":"@, "project_id"@, id_json("prj"@, s.project_id.value));
    let m4 = m3.push(("sandbox_id"@, id_json("sbx"@, s.sandbox_id.value)));
    let a4 = a3 + ",\"sandbox_id\":"@ + id_json("sbx"@, s.sandbox_id.value);
    lemma_more(a3, m3, ",\"sandbox_id\":"@, "sandbox_id"@, id_json("sbx"@, s.sandbox_id.value));
    let m5 = m4.push(("allocation_id"@, id_json("alc"@, s.allocation_id.value)));
    let a5 = a4 + ",\"allocation_id\":"@ + id_json("alc"@, s.allocation_id.value);
    lemma_more(a4, m4, ",\"allocation_id\":"@, "allocation_id"@, id_json("alc"@, s.allocation_id.value));
    let m6 = m5.push(("generation"@, signed_decimal(s.generation as int)));
    let a6 = a5 + ",\"generation\":"@ + signed_decimal(s.generation as int);
    lemma_more(a5, m5, ",\"generation\":"@, "generation"@, signed_decimal(s.generation as int));
    lemma_close(a6, m6);
    assert(m6 =~= seq![
        ("version"@, decimal(s.version as nat)),
        ("host_id"@, id_json("hst"@, s.host_id.value)),
        ("host_epoch"@, signed_decimal(s.host_epoch as int)),
        ("project_id"@, id_json("prj"@, s.project_id.value)),
        ("sandbox_id"@, id_json("sbx"@, s.sandbox_id.value)),
        ("allocation_id"@, id_json("alc"@, s.allocation_id.value)),
        ("generation"@, signed_decimal(s.generation as int)),
    ]);
}

/// A bootstrap is written with its allocation, its end, its three credentials and the
/// host it pins.
pub proof fn bootstraps_are_written_out(b: Bootstrap)
    ensures
        bootstrap_json(b) == object_text(
            seq![
                ("version"@, decimal(b.version as nat)),
                ("allocation"@, id_json("alc"@, b.allocation.value)),
                ("generation"@, signed_decimal(b.generation as int)),
                ("valid_until_unix_ms"@, signed_decimal(b.valid_until_unix_ms as int)),
                ("ca_pem"@, json_string(b.ca_pem@)),
                ("guest_cert_pem"@, json_string(b.guest_cert_pem@)),
                ("guest_key_pem"@, json_string(b.guest_key_pem@)),
                ("host_pin"@, bytes_json(b.host_pin@)),
            ],
        ),
{
    reveal(bootstrap_json);
    reveal_strlit("version");
    reveal_strlit("{\"version\":");
    assert("{\"version\":"@ =~= seq!['{', '"'] + "version"@ + seq!['"', ':']);
    reveal_strlit("allocation");
    reveal_strlit(",\"allocation\":");
    assert(",\"allocation\":"@ =~= seq![',', '"'] + "allocation"@ + seq!['"', ':']);
    reveal_strlit("generation");
    reveal_strlit(",\"generation\":");
    assert(",\"generation\":"@ =~= seq![',', '"'] + "generation"@ + seq!['"', ':']);
    reveal_strlit("valid_until_unix_ms");
    reveal_strlit(",\"valid_until_unix_ms\":");
    assert(",\"valid_until_unix_ms\":"@ =~= seq![',', '"'] + "valid_until_unix_ms"@ + seq!['"', ':']);
    reveal_strlit("ca_pem");
    reveal_strlit(",\"ca_pem\":");
    assert(",\"ca_pem\":"@ =~= seq![',', '"'] + "ca_pem"@ + seq!['"', ':']);
    reveal_strlit("guest_cert_pem");
    reveal_strlit(",\"guest_cert_pem\":");
    assert(",\"guest_cert_pem\":"@ =~= seq![',', '"'] + "guest_cert_pem"@ + seq!['"', ':']);
    reveal_strlit("guest_key_pem");
    reveal_strlit(",\"guest_key_pem\":");
    assert(",\"guest_key_pem\":"@ =~= seq![',', '"'] + "guest_key_pem"@ + seq!['"', ':']);
    reveal_strlit("host_pin");
    reveal_strlit(",\"host_pin\":");
    assert(",\"host_pin\":"@ =~= seq![',', '"'] + "host_pin"@ + seq!['"', ':']);
    let m0 = Seq::<(Seq<char>, Seq<char>)>::empty().push(("version"@, decimal(b.version as nat)));
    let a0 = "{\"version\":"@ + decimal(b.version as nat);
    lemma_open("{\"version\":"@, "version"@, decimal(b.version as nat));
    let m1 = m0.push(("allocation"@, id_json("alc"@, b.allocation.value)));
    let a1 = a0 + ",\"allocation\":"@ + id_json("alc"@, b.allocation.value);
    lemma_more(a0, m0, ",\"allocation\":"@, "allocation"@, id_json("alc"@, b.allocation.value));
    let m2 = m1.push(("generation"@, signed_decimal(b.generation as int)));
    let a2 = a1 + ",\"generation\":"@ + signed_decimal(b.generation as int);
    lemma_more(a1, m1, ",\"generation\":"@, "generation"@, signed_decimal(b.generation as int));
    let m3 = m2.push(("valid_until_unix_ms"@, signed_decimal(b.valid_until_unix_ms as int)));
    let a3 = a2 + ",\"valid_until_unix_ms\":"@ + signed_decimal(b.valid_until_unix_ms as int);
    lemma_more(a2, m2, ",\"valid_until_unix_ms\":"@, "valid_until_unix_ms"@, signed_decimal(b.valid_until_unix_ms as int));
    let m4 = m3.push(("ca_pem"@, json_string(b.ca_pem@)));
    let a4 = a3 + ",\"ca_pem\":"@ + json_string(b.ca_pem@);
    lemma_more(a3, m3, ",\"ca_pem\":"@, "ca_pem"@, json_string(b.ca_pem@));
    let m5 = m4.push(("guest_cert_pem"@, json_string(b.guest_cert_pem@)));
    let a5 = a4 + ",\"guest_cert_pem\":"@ + json_string(b.guest_cert_pem@);
    lemma_more(a4, m4, ",\"guest_cert_pem\":"@, "guest_cert_pem"@, json_string(b.guest_cert_pem@));
    let m6 = m5.push(("guest_key_pem"@, json_string(b.guest_key_pem@)));
    let a6 = a5 + ",\"guest_key_pem\":"@ + json_string(b.guest_key_pem@);
    lemma_more(a5, m5, ",\"guest_key_pem\":"@, "guest_key_pem"@, json_string(b.guest_key_pem@));
    let m7 = m6.push(("host_pin"@, bytes_json(b.host_pin@)));
    let a7 = a6 + ",\"host_pin\":"@ + bytes_json(b.host_pin@);
    lemma_more(a6, m6, ",\"host_pin\":"@, "host_pin"@, bytes_json(b.host_pin@));
    lemma_close(a7, m7);
    assert(m7 =~= seq![
        ("version"@, decimal(b.version as nat)),
        ("allocation"@, id_json("alc"@, b.allocation.value)),
        ("generation"@, signed_decimal(b.generation as int)),
        ("valid_until_unix_ms"@, signed_decimal(b.valid_until_unix_ms as int)),
        ("ca_pem"@, json_string(b.ca_pem@)),
        ("guest_cert_pem"@, json_string(b.guest_cert_pem@)),
        ("guest_key_pem"@, json_string(b.guest_key_pem@)),
        ("host_pin"@, bytes_json(b.host_pin@)),
    ]);
}

/// A boot is written as its allocation, its generation and its name.
pub proof fn boots_are_written_out(c: Context)
    ensures
        context_json(c) == object_text(
            seq![
                ("allocation_id"@, id_json("alc"@, c.allocation_id.value)),
                ("generation"@, signed_decimal(c.generation as int)),
                ("boot_id"@, json_string(c.boot_id@)),
            ],
        ),
{
    reveal(context_json);
    reveal_strlit("allocation_id");
    reveal_strlit("{\"allocation_id\":");
    assert("{\"allocation_id\":"@ =~= seq!['{', '"'] + "allocation_id"@ + seq!['"', ':']);
    reveal_strlit("generation");
    reveal_strlit(",\"generation\":");
    assert(",\"generation\":"@ =~= seq![',', '"'] + "generation"@ + seq!['"', ':']);
    reveal_strlit("boot_id");
    reveal_strlit(",\"boot_id\":");
    assert(",\"boot_id\":"@ =~= seq![',', '"'] + "boot_id"@ + seq!['"', ':']);
    let m0 = Seq::<(Seq<char>, Seq<char>)>::empty().push(("allocation_id"@, id_json("alc"@, c.allocation_id.value)));
    let a0 = "{\"allocation_id\":"@ + id_json("alc"@, c.allocation_id.value);
    lemma_open("{\"allocation_id\":"@, "allocation_id"@, id_json("alc"@, c.allocation_id.value));
    let m1 = m0.push(("generation"@, signed_decimal(c.generation as int)));
    let a1 = a0 + ",\"generation\":"@ + signed_decimal(c.generation as int);
    lemma_more(a0, m0, ",\"generation\":"@, "generation"@, signed_decimal(c.generation as int));
    let m2 = m1.push(("boot_id"@, json_string(c.boot_id@)));
    let a2 = a1 + ",\"boot_id\":"@ + json_string(c.boot_id@);
    lemma_more(a1, m1, ",\"boot_id\":"@, "boot_id"@, json_string(c.boot_id@));
    lemma_close(a2, m2);
    assert(m2 =~= seq![
        ("allocation_id"@, id_json("alc"@, c.allocation_id.value)),
        ("generation"@, signed_decimal(c.generation as int)),
        ("boot_id"@, json_string(c.boot_id@)),
    ]);
}

/// A kept transfer is written with its digest, its boot, its size, what was asked of it
/// and its state.
pub proof fn transfers_are_written_out(r: FileRecord)
    ensures
        record_json(r) == object_text(
            seq![
                ("digest"@, bytes_json(r.digest@)),
                ("context"@, optional_context_json(r.context)),
                ("size"@, decimal(r.size as nat)),
                ("not_started"@, bool_json(r.not_started)),
                ("commit_requested"@, bool_json(r.commit_requested)),
                ("abort_requested"@, bool_json(r.abort_requested)),
                ("state"@, decimal(r.state as nat)),
            ],
        ),
{
    reveal(record_json);
    reveal_strlit("digest");
    reveal_strlit("{\"digest\":");
    assert("{\"digest\":"@ =~= seq!['{', '"'] + "digest"@ + seq!['"', ':']);
    reveal_strlit("context");
    reveal_strlit(",\"context\":");
    assert(",\"context\":"@ =~= seq![',', '"'] + "context"@ + seq!['"', ':']);
    reveal_strlit("size");
    reveal_strlit(",\"size\":");
    assert(",\"size\":"@ =~= seq![',', '"'] + "size"@ + seq!['"', ':']);
    reveal_strlit("not_started");
    reveal_strlit(",\"not_started\":");
    assert(",\"not_started\":"@ =~= seq![',', '"'] + "not_started"@ + seq!['"', ':']);
    reveal_strlit("commit_requested");
    reveal_strlit(",\"commit_requested\":");
    assert(",\"commit_requested\":"@ =~= seq![',', '"'] + "commit_requested"@ + seq!['"', ':']);
    reveal_strlit("abort_requested");
    reveal_strlit(",\"abort_requested\":");
    assert(",\"abort_requested\":"@ =~= seq![',', '"'] + "abort_requested"@ + seq!['"', ':']);
    reveal_strlit("state");
    reveal_strlit(",\"state\":");
    assert(",\"state\":"@ =~= seq![',', '"'] + "state"@ + seq!['"', ':']);
    let m0 = Seq::<(Seq<char>, Seq<char>)>::empty().push(("digest"@, bytes_json(r.digest@)));
    let a0 = "{\"digest\":"@ + bytes_json(r.digest@);
    lemma_open("{\"digest\":"@, "digest"@, bytes_json(r.digest@));
    let m1 = m0.push(("context"@, optional_context_json(r.context)));
    let a1 = a0 + ",\"context\":"@ + optional_context_json(r.context);
    lemma_more(a0, m0, ",\"context\":"@, "context"@, optional_context_json(r.context));
    let m2 = m1.push(("size"@, decimal(r.size as nat)));
    let a2 = a1 + ",\"size\":"@ + decimal(r.size as nat);
    lemma_more(a1, m1, ",\"size\":"@, "size"@, decimal(r.size as nat));
    let m3 = m2.push(("not_started"@, bool_json(r.not_started)));
    let a3 = a2 + ",\"not_started\":"@ + bool_json(r.not_started);
    lemma_more(a2, m2, ",\"not_started\":"@, "not_started"@, bool_json(r.not_started));
    let m4 = m3.push(("commit_requested"@, bool_json(r.commit_requested)));
    let a4 = a3 + ",\"commit_requested\":"@ + bool_json(r.commit_requested);
    lemma_more(a3, m3, ",\"commit_requested\":"@, "commit_requested"@, bool_json(r.commit_requested));
    let m5 = m4.push(("abort_requested"@, bool_json(r.abort_requested)));
    let a5 = a4 + ",\"abort_requested\":"@ + bool_json(r.abort_requested);
    lemma_more(a4, m4, ",\"abort_requested\":"@, "abort_requested"@, bool_json(r.abort_requested));
    let m6 = m5.push(("state"@, decimal(r.state as nat)));
    let a6 = a5 + ",\"state\":"@ + decimal(r.state as nat);
    lemma_more(a5, m5, ",\"state\":"@, "state"@, decimal(r.state as nat));
    lemma_close(a6, m6);
    assert(m6 =~= seq![
        ("digest"@, bytes_json(r.digest@)),
        ("context"@, optional_context_json(r.context)),
        ("size"@, decimal(r.size as nat)),
        ("not_started"@, bool_json(r.not_started)),
        ("commit_requested"@, bool_json(r.commit_requested)),
        ("abort_requested"@, bool_json(r.abort_requested)),
        ("state"@, decimal(r.state as nat)),
    ]);
}

/// An active state is written by its name alone.
pub proof fn active_states_are_written_out()
    ensures
        state_json(State::Active {  }) == object_text(
            seq![
                ("state"@, "\"active\""@),
            ],
        ),
{
    reveal(state_json);
    reveal_strlit("state");
    reveal_strlit("{\"state\":");
    reveal_strlit("\"active\"");
    assert("{\"state\":"@ =~= seq!['{', '"'] + "state"@ + seq!['"', ':']);
    let m0 = Seq::<(Seq<char>, Seq<char>)>::empty().push(("state"@, "\"active\""@));
    let a0 = "{\"state\":"@ + "\"active\""@;
    lemma_open("{\"state\":"@, "state"@, "\"active\""@);
    reveal_strlit("{\"state\":\"active\"}");
    reveal_strlit("}");
    assert("{\"state\":\"active\"}"@ =~= a0 + "}"@);
    lemma_close(a0, m0);
}

/// A fenced state is written with the retirement that fenced it.
pub proof fn fenced_states_are_written_out(retirement: OperationId)
    ensures
        state_json(State::Fenced { retirement }) == object_text(
            seq![
                ("state"@, "\"fenced\""@),
                ("retirement"@, id_json("op"@, retirement.value)),
            ],
        ),
{
    reveal(state_json);
    reveal_strlit("state");
    reveal_strlit("{\"state\":");
    reveal_strlit("\"fenced\"");
    assert("{\"state\":"@ =~= seq!['{', '"'] + "state"@ + seq!['"', ':']);
    let m0 = Seq::<(Seq<char>, Seq<char>)>::empty().push(("state"@, "\"fenced\""@));
    let a0 = "{\"state\":"@ + "\"fenced\""@;
    lemma_open("{\"state\":"@, "state"@, "\"fenced\""@);
    reveal_strlit("{\"state\":\"fenced\",\"retirement\":");
    reveal_strlit(",\"retirement\":");
    assert("{\"state\":\"fenced\",\"retirement\":"@ =~= a0 + ",\"retirement\":"@);
    reveal_strlit("retirement");
    reveal_strlit(",\"retirement\":");
    assert(",\"retirement\":"@ =~= seq![',', '"'] + "retirement"@ + seq!['"', ':']);
    let m1 = m0.push(("retirement"@, id_json("op"@, retirement.value)));
    let a1 = a0 + ",\"retirement\":"@ + id_json("op"@, retirement.value);
    lemma_more(a0, m0, ",\"retirement\":"@, "retirement"@, id_json("op"@, retirement.value));
    lemma_close(a1, m1);
    assert(m1 =~= seq![
        ("state"@, "\"fenced\""@),
        ("retirement"@, id_json("op"@, retirement.value)),
    ]);
}

/// A complete state is written with its retirement and the digest of what was intended.
pub proof fn complete_states_are_written_out(retirement: OperationId, intent_sha256: [u8; 32])
    ensures
        state_json(State::Complete { retirement, intent_sha256 }) == object_text(
            seq![
                ("state"@, "\"complete\""@),
                ("retirement"@, id_json("op"@, retirement.value)),
                ("intent_sha256"@, bytes_json(intent_sha256@)),
            ],
        ),
{
    reveal(state_json);
    reveal_strlit("state");
    reveal_strlit("{\"state\":");
    reveal_strlit("\"complete\"");
    assert("{\"state\":"@ =~= seq!['{', '"'] + "state"@ + seq!['"', ':']);
    let m0 = Seq::<(Seq<char>, Seq<char>)>::empty().push(("state"@, "\"complete\""@));
    let a0 = "{\"state\":"@ + "\"complete\""@;
    lemma_open("{\"state\":"@, "state"@, "\"complete\""@);
    reveal_strlit("{\"state\":\"complete\",\"retirement\":");
    reveal_strlit(",\"retirement\":");
    assert("{\"state\":\"complete\",\"retirement\":"@ =~= a0 + ",\"retirement\":"@);
    reveal_strlit("retirement");
    reveal_strlit(",\"retirement\":");
    assert(",\"retirement\":"@ =~= seq![',', '"'] + "retirement"@ + seq!['"', ':']);
    let m1 = m0.push(("retirement"@, id_json("op"@, retirement.value)));
    let a1 = a0 + ",\"retirement\":"@ + id_json("op"@, retirement.value);
    lemma_more(a0, m0, ",\"retirement\":"@, "retirement"@, id_json("op"@, retirement.value));
    reveal_strlit("intent_sha256");
    reveal_strlit(",\"intent_sha256\":");
    assert(",\"intent_sha256\":"@ =~= seq![',', '"'] + "intent_sha256"@ + seq!['"', ':']);
    let m2 = m1.push(("intent_sha256"@, bytes_json(intent_sha256@)));
    let a2 = a1 + ",\"intent_sha256\":"@ + bytes_json(intent_sha256@);
    lemma_more(a1, m1, ",\"intent_sha256\":"@, "intent_sha256"@, bytes_json(intent_sha256@));
    lemma_close(a2, m2);
    assert(m2 =~= seq![
        ("state"@, "\"complete\""@),
        ("retirement"@, id_json("op"@, retirement.value)),
        ("intent_sha256"@, bytes_json(intent_sha256@)),
    ]);
}

/// An empty domain is written by its name alone.
pub proof fn empty_closures_are_written_out()
    ensures
        closure_json(DomainClosure::Empty) == object_text(
            seq![
                ("kind"@, "\"empty\""@),
            ],
        ),
{
    reveal(closure_json);
    reveal_strlit("kind");
    reveal_strlit("{\"kind\":");
    reveal_strlit("\"empty\"");
    assert("{\"kind\":"@ =~= seq!['{', '"'] + "kind"@ + seq!['"', ':']);
    let m0 = Seq::<(Seq<char>, Seq<char>)>::empty().push(("kind"@, "\"empty\""@));
    let a0 = "{\"kind\":"@ + "\"empty\""@;
    lemma_open("{\"kind\":"@, "kind"@, "\"empty\""@);
    reveal_strlit("{\"kind\":\"empty\"}");
    reveal_strlit("}");
    assert("{\"kind\":\"empty\"}"@ =~= a0 + "}"@);
    lemma_close(a0, m0);
}

/// A retired domain is written with the operation that it is retired through.
pub proof fn retired_closures_are_written_out(through: OperationId)
    ensures
        closure_json(DomainClosure::Retired { through }) == object_text(
            seq![
                ("kind"@, "\"retired\""@),
                ("through"@, id_json("op"@, through.value)),
            ],
        ),
{
    reveal(closure_json);
    reveal_strlit("kind");
    reveal_strlit("{\"kind\":");
    reveal_strlit("\"retired\"");
    assert("{\"kind\":"@ =~= seq!['{', '"'] + "kind"@ + seq!['"', ':']);
    let m0 = Seq::<(Seq<char>, Seq<char>)>::empty().push(("kind"@, "\"retired\""@));
    let a0 = "{\"kind\":"@ + "\"retired\""@;
    lemma_open("{\"kind\":"@, "kind"@, "\"retired\""@);
    reveal_strlit("{\"kind\":\"retired\",\"through\":");
    reveal_strlit(",\"through\":");
    assert("{\"kind\":\"retired\",\"through\":"@ =~= a0 + ",\"through\":"@);
    reveal_strlit("through");
    reveal_strlit(",\"through\":");
    assert(",\"through\":"@ =~= seq![',', '"'] + "through"@ + seq!['"', ':']);
    let m1 = m0.push(("through"@, id_json("op"@, through.value)));
    let a1 = a0 + ",\"through\":"@ + id_json("op"@, through.value);
    lemma_more(a0, m0, ",\"through\":"@, "through"@, id_json("op"@, through.value));
    lemma_close(a1, m1);
    assert(m1 =~= seq![
        ("kind"@, "\"retired\""@),
        ("through"@, id_json("op"@, through.value)),
    ]);
}


/// A source plan is written with its owner, its upload, its attempt and its times in
/// their order.
pub proof fn source_plans_are_written_out(p: SourcePlan)
    ensures
        source_plan_json(p) == object_text(
            seq![
                ("version"@, decimal(p.version as nat)),
                (
                    "owner"@,
                    object_text(
                        seq![
                            ("scope"@, scope_json(p.owner.scope)),
                            ("operation_id"@, id_json("op"@, p.owner.operation_id.value)),
                        ],
                    ),
                ),
                ("upload"@, upload_json(p.upload)),
                ("source_attempt"@, id_json("op"@, p.source_attempt.value)),
                ("created_unix_ms"@, signed_decimal(p.created_unix_ms as int)),
                ("write_expires_unix_ms"@, signed_decimal(p.write_expires_unix_ms as int)),
                ("expires_unix_ms"@, signed_decimal(p.expires_unix_ms as int)),
                ("delete_after_unix_ms"@, signed_decimal(p.delete_after_unix_ms as int)),
            ],
        ),
{
    reveal(source_plan_json);
    reveal_strlit("version");
    reveal_strlit("{\"version\":");
    assert("{\"version\":"@ =~= seq!['{', '"'] + "version"@ + seq!['"', ':']);
    reveal_strlit("scope");
    reveal_strlit("{\"scope\":");
    assert("{\"scope\":"@ =~= seq!['{', '"'] + "scope"@ + seq!['"', ':']);
    reveal_strlit("operation_id");
    reveal_strlit(",\"operation_id\":");
    assert(",\"operation_id\":"@ =~= seq![',', '"'] + "operation_id"@ + seq!['"', ':']);
    reveal_strlit("owner");
    reveal_strlit(",\"owner\":");
    assert(",\"owner\":"@ =~= seq![',', '"'] + "owner"@ + seq!['"', ':']);
    reveal_strlit("upload");
    reveal_strlit(",\"upload\":");
    assert(",\"upload\":"@ =~= seq![',', '"'] + "upload"@ + seq!['"', ':']);
    reveal_strlit("source_attempt");
    reveal_strlit(",\"source_attempt\":");
    assert(",\"source_attempt\":"@ =~= seq![',', '"'] + "source_attempt"@ + seq!['"', ':']);
    reveal_strlit("created_unix_ms");
    reveal_strlit(",\"created_unix_ms\":");
    assert(",\"created_unix_ms\":"@ =~= seq![',', '"'] + "created_unix_ms"@ + seq!['"', ':']);
    reveal_strlit("write_expires_unix_ms");
    reveal_strlit(",\"write_expires_unix_ms\":");
    assert(",\"write_expires_unix_ms\":"@ =~= seq![',', '"'] + "write_expires_unix_ms"@ + seq!['"', ':']);
    reveal_strlit("expires_unix_ms");
    reveal_strlit(",\"expires_unix_ms\":");
    assert(",\"expires_unix_ms\":"@ =~= seq![',', '"'] + "expires_unix_ms"@ + seq!['"', ':']);
    reveal_strlit("delete_after_unix_ms");
    reveal_strlit(",\"delete_after_unix_ms\":");
    assert(",\"delete_after_unix_ms\":"@ =~= seq![',', '"'] + "delete_after_unix_ms"@ + seq!['"', ':']);
    reveal_strlit(",\"owner\":{\"scope\":");
    reveal_strlit("},\"upload\":");
    reveal_strlit("}");
    assert(",\"owner\":{\"scope\":"@ =~= ",\"owner\":"@ + "{\"scope\":"@);
    assert("},\"upload\":"@ =~= "}"@ + ",\"upload\":"@);
    let scope = scope_json(p.owner.scope);
    let operation = id_json("op"@, p.owner.operation_id.value);
    let o0 = Seq::<(Seq<char>, Seq<char>)>::empty().push(("scope"@, scope));
    let c0 = "{\"scope\":"@ + scope;
    lemma_open("{\"scope\":"@, "scope"@, scope);
    let o1 = o0.push(("operation_id"@, operation));
    let c1 = c0 + ",\"operation_id\":"@ + operation;
    lemma_more(c0, o0, ",\"operation_id\":"@, "operation_id"@, operation);
    lemma_close(c1, o1);
    assert(o1 =~= seq![("scope"@, scope), ("operation_id"@, operation)]);
    let owner = object_text(o1);
    let version = decimal(p.version as nat);
    let m0 = Seq::<(Seq<char>, Seq<char>)>::empty().push(("version"@, version));
    let a0 = "{\"version\":"@ + version;
    lemma_open("{\"version\":"@, "version"@, version);
    let m1 = m0.push(("owner"@, owner));
    let a1 = a0 + ",\"owner\":"@ + owner;
    lemma_more(a0, m0, ",\"owner\":"@, "owner"@, owner);
    let upload = upload_json(p.upload);
    let m2 = m1.push(("upload"@, upload));
    let a2 = a1 + ",\"upload\":"@ + upload;
    lemma_more(a1, m1, ",\"upload\":"@, "upload"@, upload);
    let written = "{\"version\":"@ + version + ",\"owner\":{\"scope\":"@ + scope + ",\"operation_id\":"@ + operation
        + "},\"upload\":"@ + upload;
    assert(written =~= a0 + ",\"owner\":"@ + (c1 + "}"@) + ",\"upload\":"@ + upload);
    let m3 = m2.push(("source_attempt"@, id_json("op"@, p.source_attempt.value)));
    let a3 = a2 + ",\"source_attempt\":"@ + id_json("op"@, p.source_attempt.value);
    lemma_more(a2, m2, ",\"source_attempt\":"@, "source_attempt"@, id_json("op"@, p.source_attempt.value));
    let m4 = m3.push(("created_unix_ms"@, signed_decimal(p.created_unix_ms as int)));
    let a4 = a3 + ",\"created_unix_ms\":"@ + signed_decimal(p.created_unix_ms as int);
    lemma_more(a3, m3, ",\"created_unix_ms\":"@, "created_unix_ms"@, signed_decimal(p.created_unix_ms as int));
    let m5 = m4.push(("write_expires_unix_ms"@, signed_decimal(p.write_expires_unix_ms as int)));
    let a5 = a4 + ",\"write_expires_unix_ms\":"@ + signed_decimal(p.write_expires_unix_ms as int);
    lemma_more(a4, m4, ",\"write_expires_unix_ms\":"@, "write_expires_unix_ms"@, signed_decimal(p.write_expires_unix_ms as int));
    let m6 = m5.push(("expires_unix_ms"@, signed_decimal(p.expires_unix_ms as int)));
    let a6 = a5 + ",\"expires_unix_ms\":"@ + signed_decimal(p.expires_unix_ms as int);
    lemma_more(a5, m5, ",\"expires_unix_ms\":"@, "expires_unix_ms"@, signed_decimal(p.expires_unix_ms as int));
    let m7 = m6.push(("delete_after_unix_ms"@, signed_decimal(p.delete_after_unix_ms as int)));
    let a7 = a6 + ",\"delete_after_unix_ms\":"@ + signed_decimal(p.delete_after_unix_ms as int);
    lemma_more(a6, m6, ",\"delete_after_unix_ms\":"@, "delete_after_unix_ms"@, signed_decimal(p.delete_after_unix_ms as int));
    lemma_close(a7, m7);
    assert(m7 =~= seq![
        ("version"@, version),
        ("owner"@, owner),
        ("upload"@, upload),
        ("source_attempt"@, id_json("op"@, p.source_attempt.value)),
        ("created_unix_ms"@, signed_decimal(p.created_unix_ms as int)),
        ("write_expires_unix_ms"@, signed_decimal(p.write_expires_unix_ms as int)),
        ("expires_unix_ms"@, signed_decimal(p.expires_unix_ms as int)),
        ("delete_after_unix_ms"@, signed_decimal(p.delete_after_unix_ms as int)),
    ]);
}

/// An object's key names its owner, its attempt and its stream, in this order.
pub proof fn object_keys_are_written_out(p: OutputPlan)
    ensures
        object_key_text(p) == path_text(
            seq![
                "output"@,
                "v1"@,
                id_text("prj"@, p.owner.project_id.value),
                id_text("sbx"@, p.owner.sandbox_id.value),
                id_text("op"@, p.owner.operation_id.value),
                id_text("alc"@, p.owner.allocation_id.value),
                signed_decimal(p.owner.generation as int),
                id_text("hst"@, p.owner.host_id.value),
                signed_decimal(p.owner.host_epoch as int),
                id_text("op"@, p.upload_attempt.value),
                output_name_text(p.name),
            ],
        ),
{
    reveal(object_key_text);
    reveal_strlit("output/v1/");
    reveal_strlit("output");
    reveal_strlit("v1");
    reveal_strlit("/");
    assert("output/v1/"@ =~= "output"@ + "/"@ + "v1"@ + "/"@);
    let s0 = Seq::<Seq<char>>::empty().push("output"@);
    assert(s0.len() == 1 && s0[0] == "output"@);
    let k0 = "output"@;
    let s1 = s0.push("v1"@);
    let k1 = k0 + "/"@ + "v1"@;
    lemma_segment(k0, s0, "v1"@);
    let s2 = s1.push(id_text("prj"@, p.owner.project_id.value));
    let k2 = k1 + "/"@ + id_text("prj"@, p.owner.project_id.value);
    lemma_segment(k1, s1, id_text("prj"@, p.owner.project_id.value));
    let s3 = s2.push(id_text("sbx"@, p.owner.sandbox_id.value));
    let k3 = k2 + "/"@ + id_text("sbx"@, p.owner.sandbox_id.value);
    lemma_segment(k2, s2, id_text("sbx"@, p.owner.sandbox_id.value));
    let s4 = s3.push(id_text("op"@, p.owner.operation_id.value));
    let k4 = k3 + "/"@ + id_text("op"@, p.owner.operation_id.value);
    lemma_segment(k3, s3, id_text("op"@, p.owner.operation_id.value));
    let s5 = s4.push(id_text("alc"@, p.owner.allocation_id.value));
    let k5 = k4 + "/"@ + id_text("alc"@, p.owner.allocation_id.value);
    lemma_segment(k4, s4, id_text("alc"@, p.owner.allocation_id.value));
    let s6 = s5.push(signed_decimal(p.owner.generation as int));
    let k6 = k5 + "/"@ + signed_decimal(p.owner.generation as int);
    lemma_segment(k5, s5, signed_decimal(p.owner.generation as int));
    let s7 = s6.push(id_text("hst"@, p.owner.host_id.value));
    let k7 = k6 + "/"@ + id_text("hst"@, p.owner.host_id.value);
    lemma_segment(k6, s6, id_text("hst"@, p.owner.host_id.value));
    let s8 = s7.push(signed_decimal(p.owner.host_epoch as int));
    let k8 = k7 + "/"@ + signed_decimal(p.owner.host_epoch as int);
    lemma_segment(k7, s7, signed_decimal(p.owner.host_epoch as int));
    let s9 = s8.push(id_text("op"@, p.upload_attempt.value));
    let k9 = k8 + "/"@ + id_text("op"@, p.upload_attempt.value);
    lemma_segment(k8, s8, id_text("op"@, p.upload_attempt.value));
    let s10 = s9.push(output_name_text(p.name));
    let k10 = k9 + "/"@ + output_name_text(p.name);
    lemma_segment(k9, s9, output_name_text(p.name));
    assert(s10 =~= seq![
        "output"@,
        "v1"@,
        id_text("prj"@, p.owner.project_id.value),
        id_text("sbx"@, p.owner.sandbox_id.value),
        id_text("op"@, p.owner.operation_id.value),
        id_text("alc"@, p.owner.allocation_id.value),
        signed_decimal(p.owner.generation as int),
        id_text("hst"@, p.owner.host_id.value),
        signed_decimal(p.owner.host_epoch as int),
        id_text("op"@, p.upload_attempt.value),
        output_name_text(p.name),
    ]);
}

/// A source's key names its scope, its operation and its attempt, in this order.
pub proof fn source_keys_are_written_out(p: SourcePlan)
    ensures
        source_key_text(p) == path_text(
            seq![
                "file-source"@,
                "v1"@,
                id_text("prj"@, p.owner.scope.project_id.value),
                id_text("sbx"@, p.owner.scope.sandbox_id.value),
                id_text("op"@, p.upload.operation_id.value),
                id_text("alc"@, p.owner.scope.allocation_id.value),
                signed_decimal(p.owner.scope.generation as int),
                id_text("hst"@, p.owner.scope.host_id.value),
                signed_decimal(p.owner.scope.host_epoch as int),
                id_text("op"@, p.source_attempt.value),
            ],
        ),
{
    reveal(source_key_text);
    reveal_strlit("file-source/v1/");
    reveal_strlit("file-source");
    reveal_strlit("v1");
    reveal_strlit("/");
    assert("file-source/v1/"@ =~= "file-source"@ + "/"@ + "v1"@ + "/"@);
    let s0 = Seq::<Seq<char>>::empty().push("file-source"@);
    assert(s0.len() == 1 && s0[0] == "file-source"@);
    let k0 = "file-source"@;
    let s1 = s0.push("v1"@);
    let k1 = k0 + "/"@ + "v1"@;
    lemma_segment(k0, s0, "v1"@);
    let s2 = s1.push(id_text("prj"@, p.owner.scope.project_id.value));
    let k2 = k1 + "/"@ + id_text("prj"@, p.owner.scope.project_id.value);
    lemma_segment(k1, s1, id_text("prj"@, p.owner.scope.project_id.value));
    let s3 = s2.push(id_text("sbx"@, p.owner.scope.sandbox_id.value));
    let k3 = k2 + "/"@ + id_text("sbx"@, p.owner.scope.sandbox_id.value);
    lemma_segment(k2, s2, id_text("sbx"@, p.owner.scope.sandbox_id.value));
    let s4 = s3.push(id_text("op"@, p.upload.operation_id.value));
    let k4 = k3 + "/"@ + id_text("op"@, p.upload.operation_id.value);
    lemma_segment(k3, s3, id_text("op"@, p.upload.operation_id.value));
    let s5 = s4.push(id_text("alc"@, p.owner.scope.allocation_id.value));
    let k5 = k4 + "/"@ + id_text("alc"@, p.owner.scope.allocation_id.value);
    lemma_segment(k4, s4, id_text("alc"@, p.owner.scope.allocation_id.value));
    let s6 = s5.push(signed_decimal(p.owner.scope.generation as int));
    let k6 = k5 + "/"@ + signed_decimal(p.owner.scope.generation as int);
    lemma_segment(k5, s5, signed_decimal(p.owner.scope.generation as int));
    let s7 = s6.push(id_text("hst"@, p.owner.scope.host_id.value));
    let k7 = k6 + "/"@ + id_text("hst"@, p.owner.scope.host_id.value);
    lemma_segment(k6, s6, id_text("hst"@, p.owner.scope.host_id.value));
    let s8 = s7.push(signed_decimal(p.owner.scope.host_epoch as int));
    let k8 = k7 + "/"@ + signed_decimal(p.owner.scope.host_epoch as int);
    lemma_segment(k7, s7, signed_decimal(p.owner.scope.host_epoch as int));
    let s9 = s8.push(id_text("op"@, p.source_attempt.value));
    let k9 = k8 + "/"@ + id_text("op"@, p.source_attempt.value);
    lemma_segment(k8, s8, id_text("op"@, p.source_attempt.value));
    assert(s9 =~= seq![
        "file-source"@,
        "v1"@,
        id_text("prj"@, p.owner.scope.project_id.value),
        id_text("sbx"@, p.owner.scope.sandbox_id.value),
        id_text("op"@, p.upload.operation_id.value),
        id_text("alc"@, p.owner.scope.allocation_id.value),
        signed_decimal(p.owner.scope.generation as int),
        id_text("hst"@, p.owner.scope.host_id.value),
        signed_decimal(p.owner.scope.host_epoch as int),
        id_text("op"@, p.source_attempt.value),
    ]);
}

/// The digest of a plan is that of its written form, in lower-case digits.
pub proof fn plans_are_digested_as_written(p: OutputPlan, s: SourcePlan)
    ensures
        plan_digest(p) == hex_text(sha256_of(encode_utf8(plan_json(p)))@),
        source_plan_digest(s) == hex_text(
            sha256_of(encode_utf8("hudson-file-source-v1\0"@) + encode_utf8(source_plan_json(s)))@,
        ),
{
}

/// A guest is called by its allocation.
pub proof fn guests_are_called_by_their_allocation(allocation: AllocationId)
    ensures
        guest_name_text(allocation) == "allocation-"@ + hyphenated(allocation.value) + ".sandbox.internal"@,
{
}

} // verus!
