//! What evidence documents tell, and whose reports count.
use crate::document::{field, lemma_pushed_member, number, Doc};
use crate::store::dispatch::evidence_members;
use crate::supervisor::{is_owner, Ownership};
use vstd::prelude::*;

verus! {

/// The document names the allocation, the host, the claim and the operation of the
/// owner, each under its own key.
pub open spec fn tells_owner(d: Doc, owner: Ownership) -> bool {
    &&& field(d, "host_id"@) == Some(Doc::Text(owner.host_id@))
    &&& field(d, "project_id"@) == Some(Doc::Text(owner.project_id@))
    &&& field(d, "sandbox_id"@) == Some(Doc::Text(owner.sandbox_id@))
    &&& field(d, "operation_id"@) == Some(Doc::Text(owner.operation_id@))
    &&& field(d, "allocation_id"@) == Some(Doc::Text(owner.allocation_id@))
    &&& field(d, "generation"@) == Some(number(owner.generation as int))
    &&& field(d, "supervisor_epoch"@) == Some(number(owner.supervisor_epoch as int))
    &&& field(d, "claim_revision"@) == Some(number(owner.claim_revision as int))
}

/// A report names exactly this owner: the host, its epoch, the operation, the
/// project, the sandbox, the allocation, its generation, the claim and its end.
pub open spec fn reports_for(o: Option<Ownership>, owner: Ownership) -> bool {
    o matches Some(x) && {
        &&& x.host_id@ == owner.host_id@
        &&& x.supervisor_epoch == owner.supervisor_epoch
        &&& x.operation_id@ == owner.operation_id@
        &&& x.project_id@ == owner.project_id@
        &&& x.sandbox_id@ == owner.sandbox_id@
        &&& x.allocation_id@ == owner.allocation_id@
        &&& x.generation == owner.generation
        &&& x.claim_revision == owner.claim_revision
        &&& x.claim_expires_unix_ms == owner.claim_expires_unix_ms
    }
}

/// Only a report that names the owner in every field is the owner's.
pub proof fn owners_agree_in_every_field(o: Option<Ownership>, owner: Ownership)
    ensures
        is_owner(o, owner) <==> reports_for(o, owner),
{
}

/// The keys of an evidence document are apart.
pub proof fn lemma_evidence_words()
    ensures
        "phase"@ != "host_id"@,
        "phase"@ != "project_id"@,
        "phase"@ != "sandbox_id"@,
        "phase"@ != "operation_id"@,
        "phase"@ != "allocation_id"@,
        "phase"@ != "generation"@,
        "phase"@ != "supervisor_epoch"@,
        "phase"@ != "claim_revision"@,
        "phase"@ != "simulated"@,
        "host_id"@ != "project_id"@,
        "host_id"@ != "sandbox_id"@,
        "host_id"@ != "operation_id"@,
        "host_id"@ != "allocation_id"@,
        "host_id"@ != "generation"@,
        "host_id"@ != "supervisor_epoch"@,
        "host_id"@ != "claim_revision"@,
        "host_id"@ != "simulated"@,
        "project_id"@ != "sandbox_id"@,
        "project_id"@ != "operation_id"@,
        "project_id"@ != "allocation_id"@,
        "project_id"@ != "generation"@,
        "project_id"@ != "supervisor_epoch"@,
        "project_id"@ != "claim_revision"@,
        "project_id"@ != "simulated"@,
        "sandbox_id"@ != "operation_id"@,
        "sandbox_id"@ != "allocation_id"@,
        "sandbox_id"@ != "generation"@,
        "sandbox_id"@ != "supervisor_epoch"@,
        "sandbox_id"@ != "claim_revision"@,
        "sandbox_id"@ != "simulated"@,
        "operation_id"@ != "allocation_id"@,
        "operation_id"@ != "generation"@,
        "operation_id"@ != "supervisor_epoch"@,
        "operation_id"@ != "claim_revision"@,
        "operation_id"@ != "simulated"@,
        "allocation_id"@ != "generation"@,
        "allocation_id"@ != "supervisor_epoch"@,
        "allocation_id"@ != "claim_revision"@,
        "allocation_id"@ != "simulated"@,
        "generation"@ != "supervisor_epoch"@,
        "generation"@ != "claim_revision"@,
        "generation"@ != "simulated"@,
        "supervisor_epoch"@ != "claim_revision"@,
        "supervisor_epoch"@ != "simulated"@,
        "claim_revision"@ != "simulated"@,
{
    reveal_strlit("phase");
    reveal_strlit("host_id");
    reveal_strlit("project_id");
    reveal_strlit("sandbox_id");
    reveal_strlit("operation_id");
    reveal_strlit("allocation_id");
    reveal_strlit("generation");
    reveal_strlit("supervisor_epoch");
    reveal_strlit("claim_revision");
    reveal_strlit("simulated");
    assert("phase"@.len() == 5);
    assert("host_id"@.len() == 7);
    assert("project_id"@.len() == 10);
    assert("sandbox_id"@.len() == 10);
    assert("operation_id"@.len() == 12);
    assert("allocation_id"@.len() == 13);
    assert("generation"@.len() == 10);
    assert("supervisor_epoch"@.len() == 16);
    assert("claim_revision"@.len() == 14);
    assert("simulated"@.len() == 9);
    assert("project_id"@[0] != "sandbox_id"@[0]);
    assert("project_id"@[0] != "generation"@[0]);
    assert("sandbox_id"@[0] != "generation"@[0]);
}

/// An evidence document tells its phase, whether it was simulated where that is
/// known, and its owner.
pub proof fn evidence_tells_its_owner(owner: Ownership, simulated: Option<bool>, phase: Seq<char>)
    ensures
        tells_owner(Doc::Object(evidence_members(owner, simulated, phase)), owner),
        field(Doc::Object(evidence_members(owner, simulated, phase)), "phase"@) == Some(Doc::Text(phase)),
        field(Doc::Object(evidence_members(owner, simulated, phase)), "simulated"@) == Some(
            match simulated {
                Some(b) => Doc::Bool(b),
                None => Doc::Null,
            },
        ),
{
    broadcast use lemma_pushed_member;

    lemma_evidence_words();
}

} // verus!
