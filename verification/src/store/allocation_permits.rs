//! Stable host-local serials issued inside reservation, never inferred from time.
use crate::allocation_authority::{Permit, MAX_BATCH, MAX_SERIAL};
use crate::guest_model::copy_items;
use crate::ids::{id_text, is_id_text, read_id, AllocationId, HostId, OperationId, ProjectId, SandboxId};
use crate::store::rows::PermitRow;
use crate::supervisor::Ownership;
use vstd::prelude::*;
use vstd::string::*;

verus! {

/// Allocation permit evidence is invalid.
#[derive(Debug, PartialEq, Eq)]
pub enum Error {
    Corrupt(String),
}

pub open spec fn permit_fault(e: Error, reason: Seq<char>) -> bool {
    e matches Error::Corrupt(text) && text@ == reason
}

#[derive(Debug)]
pub struct PermitBatch {
    pub issued_through: u64,
    pub permits: Vec<Permit>,
    /// Missing or inconsistent permits block activation of the new host authority.
    pub has_unissued_allocations: bool,
}

impl Clone for PermitBatch {
    fn clone(&self) -> (r: Self)
        ensures
            r == (PermitBatch { permits: r.permits, ..*self }),
            r.permits@ == self.permits@,
    {
        PermitBatch {
            issued_through: self.issued_through,
            permits: copy_items(&self.permits),
            has_unissued_allocations: self.has_unissued_allocations,
        }
    }
}

/// A stored permit, and whether it agrees with its allocation and its creation.
#[derive(Debug, Clone, Copy)]
pub struct IssuedRow {
    pub permit: PermitRow,
    pub valid: bool,
}

/// How many permits the next batch holds.
pub open spec fn batch_size(after: u64, through: i64) -> int {
    if through - after < MAX_BATCH {
        through - after
    } else {
        MAX_BATCH as int
    }
}

/// The row is the permit that comes next in order.
pub open spec fn in_sequence(row: IssuedRow, after: u64, index: int) -> bool {
    row.valid && row.permit.serial == after + index + 1
}

/// Why the rows are no registration batch.
pub open spec fn batch_fault(after: u64, through: i64, rows: Seq<IssuedRow>) -> Option<Seq<char>> {
    if after > MAX_SERIAL {
        Some("allocation serial out of range"@)
    } else if through < 0 || after > through {
        Some("allocation frontier mismatch"@)
    } else if rows.len() != batch_size(after, through) {
        Some("allocation registration gap"@)
    } else if exists|i: int| 0 <= i < rows.len() && !in_sequence(#[trigger] rows[i], after, i) {
        Some("allocation permit mismatch"@)
    } else {
        None
    }
}

/// The permit of a row on this host.
pub open spec fn issued_permit(row: IssuedRow, host: HostId) -> Permit {
    Permit {
        host,
        project: row.permit.project,
        sandbox: row.permit.sandbox,
        allocation: row.permit.allocation,
        create_operation: row.permit.create_operation,
        generation: row.permit.generation,
        original_epoch: row.permit.original_epoch,
        serial: row.permit.serial as u64,
    }
}

/// What a frontier may be found to be.
pub open spec fn frontier_checked(after: u64, r: Result<(), Error>) -> bool {
    match r {
        Ok(_) => after <= MAX_SERIAL,
        Err(e) => after > MAX_SERIAL && permit_fault(e, "allocation serial out of range"@),
    }
}

/// A frontier to read behind must be a serial.
pub fn check_frontier(after: u64) -> (r: Result<(), Error>)
    ensures
        frontier_checked(after, r),
{
    if after > MAX_SERIAL {
        return Err(Error::Corrupt("allocation serial out of range".to_owned()));
    }
    Ok(())
}

/// What a host may be handed of the permits issued to it.
pub open spec fn permits_listed(
    host: HostId,
    after: u64,
    through: i64,
    rows: &Vec<IssuedRow>,
    has_unissued_allocations: bool,
    r: Result<PermitBatch, Error>,
) -> bool {
    match r {
        Ok(b) => {
            &&& batch_fault(after, through, rows@) is None
            &&& b.issued_through == through
            &&& b.permits@ == rows@.map_values(|row: IssuedRow| issued_permit(row, host))
            &&& b.has_unissued_allocations == has_unissued_allocations
        },
        Err(e) => batch_fault(after, through, rows@) matches Some(reason) && permit_fault(e, reason),
    }
}

/// The next bounded registration batch. `after` must ultimately come from a
/// verified host registration frontier, not an arbitrary client. This read is not
/// itself a registration acknowledgement or launch grant.
pub fn allocation_permits_after(
    host: HostId,
    after: u64,
    through: i64,
    rows: &Vec<IssuedRow>,
    has_unissued_allocations: bool,
) -> (r: Result<PermitBatch, Error>)
    ensures
        permits_listed(host, after, through, rows, has_unissued_allocations, r),
{
    match check_frontier(after) {
        Ok(_) => {},
        Err(e) => {
            return Err(e);
        },
    }
    if through < 0 || after > through as u64 {
        return Err(Error::Corrupt("allocation frontier mismatch".to_owned()));
    }
    let remaining: u64 = through as u64 - after;
    let expected: usize = if remaining < MAX_BATCH as u64 {
        remaining as usize
    } else {
        MAX_BATCH
    };
    if rows.len() != expected {
        return Err(Error::Corrupt("allocation registration gap".to_owned()));
    }
    let mut permits: Vec<Permit> = Vec::new();
    let mut index: usize = 0;
    while index < rows.len()
        invariant
            rows@.len() <= MAX_BATCH,
            rows@.len() == batch_size(after, through),
            0 <= through,
            after <= through,
            after <= MAX_SERIAL,
            index <= rows@.len(),
            permits@.len() == index,
            forall|j: int| 0 <= j < index ==> in_sequence(#[trigger] rows@[j], after, j),
            forall|j: int| 0 <= j < index ==> #[trigger] permits@[j] == issued_permit(rows@[j], host),
        decreases rows@.len() - index,
    {
        let row: &IssuedRow = &rows[index];
        if !row.valid || row.permit.serial < 0 || row.permit.serial as u64 != after + index as u64 + 1 {
            assert(!in_sequence(rows@[index as int], after, index as int));
            return Err(Error::Corrupt("allocation permit mismatch".to_owned()));
        }
        permits.push(
            Permit {
                host,
                project: row.permit.project,
                sandbox: row.permit.sandbox,
                allocation: row.permit.allocation,
                create_operation: row.permit.create_operation,
                generation: row.permit.generation,
                original_epoch: row.permit.original_epoch,
                serial: row.permit.serial as u64,
            },
        );
        index = index + 1;
    }
    assert(permits@ =~= rows@.map_values(|row: IssuedRow| issued_permit(row, host)));
    Ok(PermitBatch { issued_through: through as u64, permits, has_unissued_allocations })
}

/// A checkpoint that a host may report: at a positive epoch, with a frontier only
/// where the new authority is required.
pub open spec fn checkpoint_valid(epoch: i64, required: bool, through: u64) -> bool {
    epoch > 0 && through <= MAX_SERIAL && (required || through == 0)
}

/// What a registration checkpoint may be found to be.
pub open spec fn registration_checked(
    epoch: i64,
    required: bool,
    through: u64,
    r: Result<i64, Error>,
) -> bool {
    match r {
        Ok(n) => checkpoint_valid(epoch, required, through) && n == through,
        Err(e) => !checkpoint_valid(epoch, required, through) && permit_fault(
            e,
            "invalid registration checkpoint"@,
        ),
    }
}

/// Check authenticated host progress before it is persisted.
pub fn check_registration(epoch: i64, required: bool, through: u64) -> (r: Result<i64, Error>)
    ensures
        registration_checked(epoch, required, through, r),
{
    if epoch <= 0 || through > MAX_SERIAL || (!required && through != 0) {
        return Err(Error::Corrupt("invalid registration checkpoint".to_owned()));
    }
    Ok(through as i64)
}

/// What recording a registration may come to.
pub open spec fn registration_recorded(changed: u64, r: Result<(), Error>) -> bool {
    match r {
        Ok(_) => changed == 1,
        Err(e) => changed != 1 && permit_fault(e, "registration rollback, downgrade or stale host"@),
    }
}

/// A downgrade or rollback never lowers the checkpoint: only the one host that it
/// advances is changed.
pub fn record_allocation_registration(changed: u64) -> (r: Result<(), Error>)
    ensures
        registration_recorded(changed, r),
{
    if changed != 1 {
        return Err(Error::Corrupt("registration rollback, downgrade or stale host".to_owned()));
    }
    Ok(())
}

/// The identities of a Create owner.
#[derive(Debug, Clone, Copy, PartialEq, Eq, Structural)]
pub struct CreateOwner {
    pub host: HostId,
    pub project: ProjectId,
    pub sandbox: SandboxId,
    pub allocation: AllocationId,
    pub create_operation: OperationId,
}

pub open spec fn owner_readable(o: Ownership) -> bool {
    &&& is_id_text("hst"@, o.host_id@)
    &&& is_id_text("prj"@, o.project_id@)
    &&& is_id_text("sbx"@, o.sandbox_id@)
    &&& is_id_text("alc"@, o.allocation_id@)
    &&& is_id_text("op"@, o.operation_id@)
}

/// What a create's owner may be read as.
pub open spec fn create_owner_read(o: &Ownership, r: Result<CreateOwner, Error>) -> bool {
    match r {
        Ok(c) => {
            &&& owner_readable(*o)
            &&& o.host_id@ == id_text("hst"@, c.host.value)
            &&& o.project_id@ == id_text("prj"@, c.project.value)
            &&& o.sandbox_id@ == id_text("sbx"@, c.sandbox.value)
            &&& o.allocation_id@ == id_text("alc"@, c.allocation.value)
            &&& o.operation_id@ == id_text("op"@, c.create_operation.value)
        },
        Err(e) => !owner_readable(*o) && permit_fault(e, "invalid create owner"@),
    }
}

/// Read the identities of a Create owner.
pub fn create_owner(o: &Ownership) -> (r: Result<CreateOwner, Error>)
    ensures
        create_owner_read(o, r),
{
    let host: Option<HostId> = read_id(o.host_id.as_str());
    let project: Option<ProjectId> = read_id(o.project_id.as_str());
    let sandbox: Option<SandboxId> = read_id(o.sandbox_id.as_str());
    let allocation: Option<AllocationId> = read_id(o.allocation_id.as_str());
    let create_operation: Option<OperationId> = read_id(o.operation_id.as_str());
    match (host, project, sandbox, allocation, create_operation) {
        (Some(host), Some(project), Some(sandbox), Some(allocation), Some(create_operation)) => Ok(
            CreateOwner { host, project, sandbox, allocation, create_operation },
        ),
        _ => Err(Error::Corrupt("invalid create owner".to_owned())),
    }
}

/// What a launch may be permitted by.
pub open spec fn launch_permit_made(
    o: &Ownership,
    serial: Option<i64>,
    r: Result<Option<Permit>, Error>,
) -> bool {
    match r {
        Ok(Some(p)) => {
            &&& owner_readable(*o)
            &&& o.host_id@ == id_text("hst"@, p.host.value)
            &&& o.project_id@ == id_text("prj"@, p.project.value)
            &&& o.sandbox_id@ == id_text("sbx"@, p.sandbox.value)
            &&& o.allocation_id@ == id_text("alc"@, p.allocation.value)
            &&& o.operation_id@ == id_text("op"@, p.create_operation.value)
            &&& p.generation == o.generation
            &&& p.original_epoch == o.supervisor_epoch
            &&& (serial matches Some(n) && p.serial == n as u64)
        },
        Ok(None) => owner_readable(*o) && serial is None,
        Err(e) => !owner_readable(*o) && permit_fault(e, "invalid create owner"@),
    }
}

/// Only the immutable permit associated with this exact Create owner: `serial` is
/// the one issued to it, where one was.
pub fn allocation_launch_permit(o: &Ownership, serial: Option<i64>) -> (r: Result<Option<Permit>, Error>)
    ensures
        launch_permit_made(o, serial, r),
{
    let c: CreateOwner = match create_owner(o) {
        Ok(c) => c,
        Err(e) => {
            return Err(e);
        },
    };
    match serial {
        None => Ok(None),
        Some(n) => Ok(
            Some(
                Permit {
                    host: c.host,
                    project: c.project,
                    sandbox: c.sandbox,
                    allocation: c.allocation,
                    create_operation: c.create_operation,
                    generation: o.generation,
                    original_epoch: o.supervisor_epoch,
                    serial: n as u64,
                },
            ),
        ),
    }
}

/// A batch is contiguous: it starts right behind the frontier, leaves no gap, and
/// ends at the last issued serial or is full.
pub proof fn batches_are_contiguous(after: u64, through: i64, rows: Seq<IssuedRow>, host: HostId)
    requires
        batch_fault(after, through, rows) is None,
    ensures
        forall|i: int|
            0 <= i < rows.len() ==> (#[trigger] issued_permit(rows[i], host)).serial == after + i + 1,
        rows.len() == MAX_BATCH || after + rows.len() == through,
        rows.len() <= MAX_BATCH,
{
    assert forall|i: int| 0 <= i < rows.len() implies (#[trigger] issued_permit(rows[i], host)).serial == after + i
        + 1 by {
        assert(in_sequence(rows[i], after, i));
    }
}

} // verus!
