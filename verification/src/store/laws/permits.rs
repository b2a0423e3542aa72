//! Issuing permits: which a host is handed, and which a launch carries.
use crate::allocation_authority::Permit;
use crate::guest_wire::lemma_id_text_injective;
use crate::ids::{id_text, is_id_text, version_of, AllocationId, HostId, OperationId, ProjectId, SandboxId};
use crate::store::allocation_permits::{
    batch_fault, batch_size, in_sequence, launch_permit_made, permits_listed, registration_checked, Error, IssuedRow,
    PermitBatch,
};
use crate::supervisor::Ownership;
use vstd::prelude::*;

verus! {

/// A host is handed the permits that follow the last one it has, in order and
/// without a gap, up to thirty-two and no further than was issued; each is of its row
/// and of this host. Anything else that the rows show is no batch.
pub proof fn permits_are_handed_out_in_order(
    host: HostId,
    after: u64,
    through: i64,
    rows: &Vec<IssuedRow>,
    has_unissued_allocations: bool,
    r: Result<PermitBatch, Error>,
)
    requires
        permits_listed(host, after, through, rows, has_unissued_allocations, r),
    ensures
        r is Ok <==> {
            &&& after <= 9223372036854775807
            &&& 0 <= through
            &&& after <= through
            &&& through - after <= 32 ==> rows@.len() == through - after
            &&& through - after > 32 ==> rows@.len() == 32
            &&& forall|i: int| 0 <= i < rows@.len() ==> (#[trigger] rows@[i]).valid && rows@[i].permit.serial == after + i
                + 1
        },
        r matches Ok(b) ==> {
            &&& b.issued_through == through
            &&& b.has_unissued_allocations == has_unissued_allocations
            &&& b.permits@.len() == rows@.len()
            &&& forall|i: int| 0 <= i < b.permits@.len() ==> {
                let p = #[trigger] b.permits@[i];
                let row = rows@[i].permit;
                &&& p.host == host
                &&& p.project == row.project
                &&& p.sandbox == row.sandbox
                &&& p.allocation == row.allocation
                &&& p.create_operation == row.create_operation
                &&& p.generation == row.generation
                &&& p.original_epoch == row.original_epoch
                &&& p.serial == after + i + 1
            }
        },
{
    if batch_fault(after, through, rows@) is None {
        assert forall|i: int| 0 <= i < rows@.len() implies (#[trigger] rows@[i]).valid && rows@[i].permit.serial == after
            + i + 1 by {
            assert(in_sequence(rows@[i], after, i));
        }
    } else if batch_fault(after, through, rows@) == Some("allocation permit mismatch"@) && after
        <= 9223372036854775807 && 0 <= through && after <= through && rows@.len() == batch_size(after, through) {
        let i = choose|i: int| 0 <= i < rows@.len() && !in_sequence(#[trigger] rows@[i], after, i);
        assert(!(rows@[i].valid && rows@[i].permit.serial == after + i + 1));
    }
}

/// Rows that make no batch are refused for the first of these reasons: a serial that is
/// out of range, a frontier behind the host's own, a gap, and a permit that is not the
/// next.
pub proof fn misfit_rows_are_refused_for_their_reason(
    host: HostId,
    after: u64,
    through: i64,
    rows: &Vec<IssuedRow>,
    has_unissued_allocations: bool,
    r: Result<PermitBatch, Error>,
)
    requires
        permits_listed(host, after, through, rows, has_unissued_allocations, r),
    ensures
        after > 9223372036854775807 ==> refused_as(r, "allocation serial out of range"@),
        after <= 9223372036854775807 && after > through ==> refused_as(r, "allocation frontier mismatch"@),
        0 <= after <= through && (if through - after <= 32 {
            rows@.len() != through - after
        } else {
            rows@.len() != 32
        }) ==> refused_as(r, "allocation registration gap"@),
        0 <= after <= through && (if through - after <= 32 {
            rows@.len() == through - after
        } else {
            rows@.len() == 32
        }) && r is Err ==> refused_as(r, "allocation permit mismatch"@),
{
}

/// The answer is a refusal as corrupt, for this reason.
pub open spec fn refused_as(r: Result<PermitBatch, Error>, reason: Seq<char>) -> bool {
    r matches Err(Error::Corrupt(text)) && text@ == reason
}

/// A host registers a real epoch and a frontier that its serials can reach; one that
/// needs no permits registers none.
pub proof fn registrations_are_of_real_epochs(epoch: i64, required: bool, through: u64, r: Result<i64, Error>)
    requires
        registration_checked(epoch, required, through, r),
    ensures
        r is Ok <==> epoch >= 1 && through <= 9223372036854775807 && (!required ==> through == 0),
        r matches Ok(n) ==> n == through,
{
}

/// A launch is permitted by the permit that was issued for exactly its owner, or by
/// none where none was issued.
pub proof fn launches_carry_their_own_permit(
    o: &Ownership,
    serial: i64,
    host: HostId,
    project: ProjectId,
    sandbox: SandboxId,
    allocation: AllocationId,
    operation: OperationId,
    r: Result<Option<Permit>, Error>,
)
    requires
        launch_permit_made(o, Some(serial), r),
        serial >= 0,
        o.host_id@ == id_text("hst"@, host.value) && version_of(host.value) == 7,
        o.project_id@ == id_text("prj"@, project.value) && version_of(project.value) == 7,
        o.sandbox_id@ == id_text("sbx"@, sandbox.value) && version_of(sandbox.value) == 7,
        o.allocation_id@ == id_text("alc"@, allocation.value) && version_of(allocation.value) == 7,
        o.operation_id@ == id_text("op"@, operation.value) && version_of(operation.value) == 7,
    ensures
        r matches Ok(Some(p)) && {
            &&& p.host == host
            &&& p.project == project
            &&& p.sandbox == sandbox
            &&& p.allocation == allocation
            &&& p.create_operation == operation
            &&& p.generation == o.generation
            &&& p.original_epoch == o.supervisor_epoch
            &&& p.serial == serial
        },
{
    assert(is_id_text("hst"@, o.host_id@));
    assert(is_id_text("prj"@, o.project_id@));
    assert(is_id_text("sbx"@, o.sandbox_id@));
    assert(is_id_text("alc"@, o.allocation_id@));
    assert(is_id_text("op"@, o.operation_id@));
    if let Ok(Some(p)) = r {
        lemma_id_text_injective("hst"@, host.value, p.host.value);
        lemma_id_text_injective("prj"@, project.value, p.project.value);
        lemma_id_text_injective("sbx"@, sandbox.value, p.sandbox.value);
        lemma_id_text_injective("alc"@, allocation.value, p.allocation.value);
        lemma_id_text_injective("op"@, operation.value, p.create_operation.value);
    }
}

/// A launch for which no permit was issued carries none, and an owner that names no
/// identities is none.
pub proof fn unissued_launches_carry_no_permit(o: &Ownership, r: Result<Option<Permit>, Error>)
    requires
        launch_permit_made(o, None, r),
    ensures
        r matches Ok(p) ==> p is None,
        !is_id_text("alc"@, o.allocation_id@) || !is_id_text("op"@, o.operation_id@) ==> r is Err,
{
}

} // verus!
