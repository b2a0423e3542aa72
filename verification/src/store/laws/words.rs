//! The words and small documents that the rows hold.
use crate::canonical::Json;
use crate::document::{field, integer_of, lemma_pushed_member, text_of, Doc};
use crate::guest_wire::lemma_id_text_injective;
use crate::history::Domain;
use crate::ids::{
    id_text, is_id_text, parsed_uuid, version_of, AllocationId, HostId, OperationId, ProjectId, SandboxId,
};
use crate::store::allocation_permits::{create_owner_read, CreateOwner, Error};
use crate::store::destroy::superseded_ends;
use crate::store::dispatch::{rejection_code, simulated_result, CreateRejection};
use crate::store::history::domain_name;
use crate::store::placement::positive_field;
use crate::store::recovery::lifecycle;
use crate::supervisor::Ownership;
use vstd::string::*;
use vstd::prelude::*;

verus! {

/// A creation is rejected by one of three codes, each for its own reason, and a domain is
/// called by its own name.
pub proof fn reasons_have_their_own_words()
    ensures
        rejection_code(CreateRejection::Unauthorized) == "authorization_revoked"@,
        rejection_code(CreateRejection::ImageDenied) == "image_not_allowed"@,
        rejection_code(CreateRejection::InvalidResources) == "invalid_resources"@,
        domain_name(Domain::Commands) == "commands"@,
        domain_name(Domain::Files) == "files"@,
{
}

/// The operations of a lifecycle are those that create and those that destroy.
pub proof fn lifecycles_create_and_destroy(kind: Seq<char>)
    ensures
        lifecycle("create"@),
        lifecycle("destroy"@),
        !lifecycle("execute"@),
        !lifecycle("cancel"@),
        lifecycle(kind) ==> kind == "create"@ || kind == "destroy"@,
{
    reveal_strlit("create");
    reveal_strlit("destroy");
    reveal_strlit("execute");
    reveal_strlit("cancel");
    assert("create"@[1] != "execute"@[1] && "destroy"@[0] != "execute"@[0]);
    assert("create"@[1] != "cancel"@[1] && "destroy"@[0] != "cancel"@[0]);
}

/// A result names its sandbox and whether it was simulated, and nothing else.
pub proof fn results_name_their_sandbox(sandbox_id: Seq<char>, simulated: bool)
    ensures
        field(simulated_result(sandbox_id, simulated), "sandbox_id"@) == Some(Doc::Text(sandbox_id)),
        field(simulated_result(sandbox_id, simulated), "simulated"@) == Some(Doc::Bool(simulated)),
        simulated_result(sandbox_id, simulated) matches Doc::Object(members) && members.len() == 2,
{
    broadcast use lemma_pushed_member;

    reveal_strlit("sandbox_id");
    reveal_strlit("simulated");
    assert("sandbox_id"@.len() != "simulated"@.len());
}

/// A limit is what its field says where that is a whole number above zero.
pub proof fn limits_are_above_zero(d: Doc, key: Seq<char>, n: i64)
    ensures
        positive_field(d, key) == Some(n) <==> integer_of(field(d, key)) == Some(n) && n >= 1,
        integer_of(field(d, key)) is None ==> positive_field(d, key) is None,
{
}

/// A create's owner is read as the identities that it names.
pub proof fn create_owners_are_read_as_named(
    o: &Ownership,
    host: HostId,
    project: ProjectId,
    sandbox: SandboxId,
    allocation: AllocationId,
    operation: OperationId,
    r: Result<CreateOwner, Error>,
)
    requires
        create_owner_read(o, r),
        o.host_id@ == id_text("hst"@, host.value) && version_of(host.value) == 7,
        o.project_id@ == id_text("prj"@, project.value) && version_of(project.value) == 7,
        o.sandbox_id@ == id_text("sbx"@, sandbox.value) && version_of(sandbox.value) == 7,
        o.allocation_id@ == id_text("alc"@, allocation.value) && version_of(allocation.value) == 7,
        o.operation_id@ == id_text("op"@, operation.value) && version_of(operation.value) == 7,
    ensures
        r matches Ok(c) && c.host == host && c.project == project && c.sandbox == sandbox && c.allocation == allocation
            && c.create_operation == operation,
{
    assert(is_id_text("hst"@, o.host_id@));
    assert(is_id_text("prj"@, o.project_id@));
    assert(is_id_text("sbx"@, o.sandbox_id@));
    assert(is_id_text("alc"@, o.allocation_id@));
    assert(is_id_text("op"@, o.operation_id@));
    if let Ok(c) = r {
        lemma_id_text_injective("hst"@, host.value, c.host.value);
        lemma_id_text_injective("prj"@, project.value, c.project.value);
        lemma_id_text_injective("sbx"@, sandbox.value, c.sandbox.value);
        lemma_id_text_injective("alc"@, allocation.value, c.allocation.value);
        lemma_id_text_injective("op"@, operation.value, c.create_operation.value);
    }
}

/// An owner is read exactly where each of its five identities is one.
pub proof fn unreadable_owners_are_refused(o: &Ownership, r: Result<CreateOwner, Error>)
    requires
        create_owner_read(o, r),
    ensures
        r is Ok <==> is_id_text("hst"@, o.host_id@) && is_id_text("prj"@, o.project_id@) && is_id_text(
            "sbx"@,
            o.sandbox_id@,
        ) && is_id_text("alc"@, o.allocation_id@) && is_id_text("op"@, o.operation_id@),
        r is Err ==> (r matches Err(Error::Corrupt(text)) && text@ == "invalid create owner"@),
{
}

/// The creation that a destroy took over is the one that its payload names, and its
/// error names the destroy; where the payload names none, none ends.
pub proof fn superseded_creations_are_named_by_the_payload(
    s: Option<(OperationId, Json)>,
    payload: Doc,
    destroy: OperationId,
)
    requires
        superseded_ends(s, payload, destroy),
    ensures
        text_of(field(payload, "supersedes_operation_id"@)) is None <==> s is None,
        text_of(field(payload, "supersedes_operation_id"@)) matches Some(text) ==> (s matches Some((id, error)) && {
            &&& parsed_uuid(text) == Some(id.value)
            &&& field(error@, "code"@) == Some(Doc::Text("destroyed_during_create"@))
            &&& field(error@, "create_outcome_unknown"@) == Some(Doc::Bool(true))
            &&& field(error@, "destroy_operation_id"@) == Some(Doc::Text(id_text("op"@, destroy.value)))
        }),
{
    broadcast use lemma_pushed_member;

    reveal_strlit("code");
    reveal_strlit("create_outcome_unknown");
    reveal_strlit("destroy_operation_id");
    assert("code"@.len() != "create_outcome_unknown"@.len() && "code"@.len() != "destroy_operation_id"@.len());
    assert("create_outcome_unknown"@.len() != "destroy_operation_id"@.len());
}

} // verus!
