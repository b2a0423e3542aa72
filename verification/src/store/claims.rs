//! Durable controller ownership. A claim permits reconciliation, not blind dispatch.
//!
//! Expired work retains its status, phase, payload, and receipts. A replacement
//! owner must inspect those facts before choosing its next external action.
//! PostgreSQL time is authoritative; controller clocks never decide ownership.
use crate::canonical::Json;
use crate::document::copy_json;
use crate::guest_model::copy_text;
use crate::ids::{OperationId, ProjectId, SandboxId};
use crate::store::clock::{delay_allowed, lease_allowed};
use vstd::prelude::*;
use vstd::string::*;

verus! {

/// A controller only claims operation kinds it knows how to reconcile.
#[derive(Debug, Clone, Copy, PartialEq, Eq, Structural)]
pub enum OperationKind {
    Create,
    Execute,
    Destroy,
    Cancel,
    FileWrite,
}

pub open spec fn kind_text(kind: OperationKind) -> Seq<char> {
    match kind {
        OperationKind::Create => "create"@,
        OperationKind::Execute => "execute"@,
        OperationKind::Destroy => "destroy"@,
        OperationKind::Cancel => "cancel"@,
        OperationKind::FileWrite => "file_write"@,
    }
}

impl OperationKind {
    pub fn as_str(self) -> (r: &'static str)
        ensures
            r@ == kind_text(self),
    {
        match self {
            OperationKind::Create => "create",
            OperationKind::Execute => "execute",
            OperationKind::Destroy => "destroy",
            OperationKind::Cancel => "cancel",
            OperationKind::FileWrite => "file_write",
        }
    }
}

/// Each kind has its own column text.
pub proof fn kinds_are_distinct(a: OperationKind, b: OperationKind)
    ensures
        kind_text(a) == kind_text(b) <==> a == b,
{
    reveal_strlit("create");
    reveal_strlit("execute");
    reveal_strlit("destroy");
    reveal_strlit("cancel");
    reveal_strlit("file_write");
    if kind_text(a) == kind_text(b) {
        assert(kind_text(a).len() == kind_text(b).len());
        assert(kind_text(a)[0] == kind_text(b)[0]);
        assert(kind_text(a)[1] == kind_text(b)[1]);
    }
}

/// Ownership and the persisted evidence the new owner must reconcile.
#[derive(Debug)]
pub struct Claim {
    pub operation_id: OperationId,
    pub project_id: ProjectId,
    pub sandbox_id: SandboxId,
    pub revision: i64,
    pub lease_expires_at: i128,
    /// Status before claiming: unknown must remain unknown until reconciled.
    pub previous_status: String,
    pub phase: Option<String>,
    pub payload: Json,
    pub receipts: Json,
    pub deadline: Option<i128>,
}

impl Clone for Claim {
    fn clone(&self) -> (r: Self)
        ensures
            r == (Claim { payload: r.payload, receipts: r.receipts, ..*self }),
            r.payload@ == self.payload@,
            r.receipts@ == self.receipts@,
    {
        Claim {
            operation_id: self.operation_id,
            project_id: self.project_id,
            sandbox_id: self.sandbox_id,
            revision: self.revision,
            lease_expires_at: self.lease_expires_at,
            previous_status: self.previous_status.clone(),
            phase: copy_text(&self.phase),
            payload: copy_json(&self.payload),
            receipts: copy_json(&self.receipts),
            deadline: self.deadline,
        }
    }
}

#[derive(Debug, Clone, Copy, PartialEq, Eq, Structural)]
pub enum ClaimError {
    /// Lease must be between 1 and 300 seconds.
    InvalidLease,
    /// Retry delay must be between 1 and 3600 seconds.
    InvalidRetryDelay,
    /// Operation claim is no longer owned.
    LostClaim,
}

/// What a lease's length may be read as.
pub open spec fn lease_read(seconds: u32, r: Result<i32, ClaimError>) -> bool {
    r == (if lease_allowed(seconds) {
        Ok::<i32, ClaimError>(seconds as i32)
    } else {
        Err(ClaimError::InvalidLease)
    })
}

pub fn lease_seconds(seconds: u32) -> (r: Result<i32, ClaimError>)
    ensures
        lease_read(seconds, r),
{
    if seconds < 1 || seconds > 300 {
        return Err(ClaimError::InvalidLease);
    }
    Ok(seconds as i32)
}

/// What a retry's delay may be read as.
pub open spec fn retry_read(seconds: u32, r: Result<i32, ClaimError>) -> bool {
    r == (if delay_allowed(seconds) {
        Ok::<i32, ClaimError>(seconds as i32)
    } else {
        Err(ClaimError::InvalidRetryDelay)
    })
}

/// How long a released operation waits for its next owner.
pub fn retry_seconds(seconds: u32) -> (r: Result<i32, ClaimError>)
    ensures
        retry_read(seconds, r),
{
    if seconds < 1 || seconds > 3600 {
        return Err(ClaimError::InvalidRetryDelay);
    }
    Ok(seconds as i32)
}

/// What renewing a claim may come to.
pub open spec fn claim_renewed(renewed: Option<i128>, r: Result<i128, ClaimError>) -> bool {
    r == (match renewed {
        Some(at) => Ok::<i128, ClaimError>(at),
        None => Err(ClaimError::LostClaim),
    })
}

/// Only a live claim is renewed: `renewed` is the new expiry of the one row that
/// was still owned.
pub fn renew_claim(renewed: Option<i128>) -> (r: Result<i128, ClaimError>)
    ensures
        claim_renewed(renewed, r),
{
    match renewed {
        Some(at) => Ok(at),
        None => Err(ClaimError::LostClaim),
    }
}

/// What deferring a claim may come to.
pub open spec fn claim_deferred(affected: u64, r: Result<(), ClaimError>) -> bool {
    r == (if affected == 0 {
        Err::<(), ClaimError>(ClaimError::LostClaim)
    } else {
        Ok(())
    })
}

/// Releasing ownership succeeds where some owned row was released.
pub fn defer_claim(affected: u64) -> (r: Result<(), ClaimError>)
    ensures
        claim_deferred(affected, r),
{
    if affected == 0 {
        return Err(ClaimError::LostClaim);
    }
    Ok(())
}

} // verus!
