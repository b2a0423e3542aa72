//! The columns that decisions read.
use crate::allocation_authority::Permit;
use crate::canonical::Json;
use crate::ids::{AllocationId, HostId, OperationId, ProjectId, SandboxId};
use crate::text::same_text;
use vstd::prelude::*;
use vstd::string::*;

verus! {

#[derive(Debug)]
pub struct OperationRow {
    pub id: OperationId,
    pub project_id: ProjectId,
    pub sandbox_id: SandboxId,
    pub kind: String,
    pub status: String,
    pub phase: Option<String>,
    pub attempt_count: i32,
    pub attempt_receipts: Json,
    pub payload: Json,
    pub claim_revision: i64,
    pub execution_allocation_id: Option<AllocationId>,
    pub lease_expires_at: Option<i128>,
    pub next_retry_at: Option<i128>,
    pub completed_at: Option<i128>,
    pub payload_compacted_at: Option<i128>,
    pub response_expires_at: Option<i128>,
    pub output_status: String,
    pub output_expires_at: Option<i128>,
    pub result: Option<Json>,
    pub error: Option<Json>,
}

#[derive(Debug)]
pub struct SandboxRow {
    pub id: SandboxId,
    pub desired_state: String,
    pub observed_state: String,
    pub observation_simulated: Option<bool>,
    pub generation: i64,
    pub active_transition_operation_id: Option<OperationId>,
    pub current_allocation_id: Option<AllocationId>,
    pub expires_at: Option<i128>,
    pub image_digest: String,
    pub resources: Json,
}

#[derive(Debug)]
pub struct AllocationRow {
    pub id: AllocationId,
    pub project_id: ProjectId,
    pub sandbox_id: SandboxId,
    pub host_id: HostId,
    pub generation: i64,
    pub supervisor_epoch: i64,
    pub status: String,
    pub vcpu: i32,
    pub memory_mib: i64,
    pub disk_mib: i64,
    pub released_at: Option<i128>,
    pub release_evidence: Json,
    pub lease_expires_at: Option<i128>,
    pub lease_requested_until: Option<i128>,
    pub renewal_pending: bool,
    pub maintenance_lease_until: Option<i128>,
}

/// An issued permit as it is stored: the serial is a signed column.
#[derive(Debug, Clone, Copy, PartialEq, Eq, Structural)]
pub struct PermitRow {
    pub host: HostId,
    pub project: ProjectId,
    pub sandbox: SandboxId,
    pub allocation: AllocationId,
    pub create_operation: OperationId,
    pub generation: i64,
    pub original_epoch: i64,
    pub serial: i64,
}

/// The permit of a row, where its serial is not negative.
pub open spec fn permit_of(p: PermitRow) -> Option<Permit> {
    if p.serial < 0 {
        None
    } else {
        Some(
            Permit {
                host: p.host,
                project: p.project,
                sandbox: p.sandbox,
                allocation: p.allocation,
                create_operation: p.create_operation,
                generation: p.generation,
                original_epoch: p.original_epoch,
                serial: p.serial as u64,
            },
        )
    }
}

impl PermitRow {
    pub fn permit(&self) -> (r: Option<Permit>)
        ensures
            r == permit_of(*self),
    {
        if self.serial < 0 {
            return None;
        }
        Some(
            Permit {
                host: self.host,
                project: self.project,
                sandbox: self.sandbox,
                allocation: self.allocation,
                create_operation: self.create_operation,
                generation: self.generation,
                original_epoch: self.original_epoch,
                serial: self.serial as u64,
            },
        )
    }
}

/// An earlier operation with the same idempotency key.
#[derive(Debug)]
pub struct RetryRow {
    pub id: OperationId,
    pub sandbox_id: SandboxId,
    pub request_digest: Vec<u8>,
    pub digest_version: i32,
    pub status: String,
    /// Whether the response was terminal and its retention has ended.
    pub response_expired: bool,
}

pub open spec fn text_is(text: Option<String>, expected: Seq<char>) -> bool {
    text matches Some(t) && t@ == expected
}

pub fn is_text(text: &Option<String>, expected: &str) -> (r: bool)
    ensures
        r == text_is(*text, expected@),
{
    match text {
        Some(t) => same_text(t.as_str(), expected),
        None => false,
    }
}

/// A status that no later report changes.
pub open spec fn final_status(status: Seq<char>) -> bool {
    status == "succeeded"@ || status == "failed"@ || status == "cancelled"@
}

pub fn terminal(status: &str) -> (r: bool)
    ensures
        r == final_status(status@),
{
    same_text(status, "succeeded") || same_text(status, "failed") || same_text(status, "cancelled")
}

/// An operation that has finished and that nobody owns or will retry.
pub open spec fn settled(op: OperationRow) -> bool {
    final_status(op.status@) && op.completed_at is Some && op.lease_expires_at is None && op.next_retry_at is None
}

pub fn is_settled(op: &OperationRow) -> (r: bool)
    ensures
        r == settled(*op),
{
    terminal(op.status.as_str()) && op.completed_at.is_some() && op.lease_expires_at.is_none()
        && op.next_retry_at.is_none()
}

} // verus!
