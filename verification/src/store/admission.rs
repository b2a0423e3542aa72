//! Transactional admission.
//!
//! Admitting a request means inserting its operation and the resource changes
//! it implies in one transaction, so a client that receives an operation id
//! knows the work is durable. The controller picks it up independently of the
//! HTTP connection.
//!
//! Deduplication is `UNIQUE (project_id, idempotency_key)` in the schema, not
//! a check-then-insert in this code. Two concurrent identical requests race,
//! one loses on the constraint, and the loser reads the winner's row.
use crate::canonical::Json;
use crate::document::{copy_json, json_integer, number, Doc, Members};
use crate::guest_model::copy_text;
use crate::idempotency::{IdempotencyKey, RequestDigest};
use crate::ids::{OperationId, ProjectId, SandboxId};
use crate::images::ImageAllowlist;
use crate::store::retries::{is_same_content, same_content};
use crate::store::rows::RetryRow;
use crate::text::same_text;
use crate::token::TokenKeyId;
use vstd::prelude::*;
use vstd::string::*;

verus! {

/// A stored row could not be interpreted. The data is wrong, rather than absent:
/// it must never be treated as an absent row.
#[derive(Debug, PartialEq, Eq)]
pub enum StoreError {
    Corrupt(String),
}

pub open spec fn corrupt(e: StoreError, reason: Seq<char>) -> bool {
    e matches StoreError::Corrupt(text) && text@ == reason
}

/// Requested sandbox size.
#[derive(Debug, Clone, Copy, PartialEq, Eq, Structural)]
pub struct Resources {
    /// Virtual CPUs.
    pub vcpu: i32,
    /// Memory in MiB.
    pub memory_mib: i64,
    /// Writable disk in MiB.
    pub disk_mib: i64,
}

/// A validated create request, ready to admit.
pub struct CreateSandbox {
    /// The owning project, resolved from the credential.
    pub project_id: ProjectId,
    /// Which credential admitted it. Recorded for audit.
    pub key_id: TokenKeyId,
    /// The caller's key for this logical mutation.
    pub idempotency_key: IdempotencyKey,
    /// Digest of the normalized request.
    pub request_digest: RequestDigest,
    /// Requested immutable image. Membership is checked after retry resolution.
    pub image_digest: String,
    /// Optional display name. Never a lookup key.
    pub name: Option<String>,
    /// Requested size.
    pub resources: Resources,
    /// The validated payload, stored for reconciliation and audit.
    pub payload: Json,
}

impl Clone for CreateSandbox {
    fn clone(&self) -> (r: Self)
        ensures
            r == (CreateSandbox { payload: r.payload, ..*self }),
            r.payload@ == self.payload@,
    {
        CreateSandbox {
            project_id: self.project_id,
            key_id: self.key_id.clone(),
            idempotency_key: self.idempotency_key.clone(),
            request_digest: self.request_digest,
            image_digest: self.image_digest.clone(),
            name: copy_text(&self.name),
            resources: self.resources,
            payload: copy_json(&self.payload),
        }
    }
}

/// What admission decided.
#[derive(Debug, PartialEq, Eq)]
pub enum Admission {
    /// New work is not permitted by the current operator image policy.
    ImageDenied,
    /// A new operation was inserted.
    Admitted {
        /// The sandbox this created.
        sandbox_id: SandboxId,
        /// The operation to poll.
        operation_id: OperationId,
    },
    /// This key was already used for an identical request.
    ///
    /// Returned instead of running anything again, even if the sandbox has
    /// since moved on.
    Existing {
        /// The sandbox the original request created.
        sandbox_id: SandboxId,
        /// The original operation.
        operation_id: OperationId,
        /// Its status now.
        status: String,
    },
    /// This key was used for a different request. The key is not admitted, and
    /// nothing runs.
    DigestConflict {
        /// The operation the key already belongs to.
        operation_id: OperationId,
    },
}

impl Clone for Admission {
    fn clone(&self) -> (r: Self)
        ensures
            r == *self,
    {
        match self {
            Admission::ImageDenied => Admission::ImageDenied,
            Admission::Admitted { sandbox_id, operation_id } => Admission::Admitted {
                sandbox_id: *sandbox_id,
                operation_id: *operation_id,
            },
            Admission::Existing { sandbox_id, operation_id, status } => Admission::Existing {
                sandbox_id: *sandbox_id,
                operation_id: *operation_id,
                status: status.clone(),
            },
            Admission::DigestConflict { operation_id } => Admission::DigestConflict { operation_id: *operation_id },
        }
    }
}

/// PostgreSQL's unique-violation code.
pub const UNIQUE_VIOLATION: &'static str = "23505";

/// What a database's code may be read as.
pub open spec fn violation_read(code: Option<&str>, r: bool) -> bool {
    r == (code matches Some(c) && c@ == "23505"@)
}

/// Whether a database error code is that of a lost deduplication race.
pub fn is_unique_violation(code: Option<&str>) -> (r: bool)
    ensures
        violation_read(code, r),
{
    match code {
        Some(c) => same_text(c, "23505"),
        None => false,
    }
}

/// How an earlier use of the key answers a create.
pub open spec fn create_retry(row: RetryRow, digest: RequestDigest, r: Result<Admission, StoreError>) -> bool {
    if row.request_digest@.len() != 32 {
        r matches Err(e) && corrupt(e, "stored request digest is not 32 bytes"@)
    } else if !same_content(row, digest) {
        r == Ok::<Admission, StoreError>(Admission::DigestConflict { operation_id: row.id })
    } else {
        r matches Ok(Admission::Existing { sandbox_id, operation_id, status }) && sandbox_id == row.sandbox_id
            && operation_id == row.id && status@ == row.status@
    }
}

/// What an earlier use of the key may be found to say.
pub open spec fn create_looked_up(
    row: Option<&RetryRow>,
    digest: &RequestDigest,
    r: Result<Option<Admission>, StoreError>,
) -> bool {
    match (row, r) {
        (None, Ok(None)) => true,
        (Some(row), Ok(Some(a))) => create_retry(*row, *digest, Ok(a)),
        (Some(row), Err(e)) => create_retry(*row, *digest, Err(e)),
        _ => false,
    }
}

/// Resolve a key that may already exist, comparing digests. Content is compared
/// before today's lifecycle state, so an identical retry resolves the same way
/// whatever has happened since.
pub fn existing_operation(row: Option<&RetryRow>, digest: &RequestDigest) -> (r: Result<Option<Admission>, StoreError>)
    ensures
        create_looked_up(row, digest, r),
{
    let row: &RetryRow = match row {
        Some(row) => row,
        None => {
            return Ok(None);
        },
    };
    if row.request_digest.len() != 32 {
        return Err(StoreError::Corrupt("stored request digest is not 32 bytes".to_owned()));
    }
    if !is_same_content(row, digest) {
        return Ok(Some(Admission::DigestConflict { operation_id: row.id }));
    }
    Ok(
        Some(
            Admission::Existing { sandbox_id: row.sandbox_id, operation_id: row.id, status: row.status.clone() },
        ),
    )
}

/// The stored size of a sandbox.
pub open spec fn resources_doc(r: Resources) -> Doc {
    Doc::Object(
        Seq::<(Seq<char>, Doc)>::empty().push(("vcpu"@, number(r.vcpu as int))).push(
            ("memory_mib"@, number(r.memory_mib as int)),
        ).push(("disk_mib"@, number(r.disk_mib as int))),
    )
}

pub fn resources_document(r: &Resources) -> (d: Json)
    ensures
        d@ == resources_doc(*r),
{
    let mut m: Members = Members::new();
    m.put("vcpu", json_integer(r.vcpu as i64));
    m.put("memory_mib", json_integer(r.memory_mib));
    m.put("disk_mib", json_integer(r.disk_mib));
    m.object()
}

/// What a create request may be answered.
pub open spec fn create_admitted(
    old: Option<&RetryRow>,
    request: &CreateSandbox,
    images: &ImageAllowlist,
    sandbox_id: SandboxId,
    operation_id: OperationId,
    r: Result<Admission, StoreError>,
) -> bool {
    match old {
        Some(row) => create_retry(*row, request.request_digest, r),
        None => r == Ok::<Admission, StoreError>(
            if images@.contains(request.image_digest@) {
                Admission::Admitted { sandbox_id, operation_id }
            } else {
                Admission::ImageDenied
            },
        ),
    }
}

/// Whether a new create is permitted. Policy changes cannot erase a caller's
/// existing retry handle, so this comes after retry resolution; new work must
/// pass it before any resource or operation is written.
pub fn admit_create_sandbox(
    old: Option<&RetryRow>,
    request: &CreateSandbox,
    images: &ImageAllowlist,
    sandbox_id: SandboxId,
    operation_id: OperationId,
) -> (r: Result<Admission, StoreError>)
    ensures
        create_admitted(old, request, images, sandbox_id, operation_id, r),
{
    match existing_operation(old, &request.request_digest) {
        Err(e) => Err(e),
        Ok(Some(found)) => Ok(found),
        Ok(None) => {
            if !images.allows(request.image_digest.as_str()) {
                return Ok(Admission::ImageDenied);
            }
            Ok(Admission::Admitted { sandbox_id, operation_id })
        },
    }
}

/// What a key that turned out to be used may resolve to.
pub open spec fn create_resolved(
    row: Option<&RetryRow>,
    digest: &RequestDigest,
    r: Result<Admission, StoreError>,
) -> bool {
    match row {
        Some(row) => create_retry(*row, *digest, r),
        None => r matches Err(e) && corrupt(e, "duplicate key with no row"@),
    }
}

/// After a lost deduplication race the winner's row must be there.
pub fn resolve_existing(row: Option<&RetryRow>, digest: &RequestDigest) -> (r: Result<Admission, StoreError>)
    ensures
        create_resolved(row, digest, r),
{
    match existing_operation(row, digest) {
        Err(e) => Err(e),
        Ok(Some(found)) => Ok(found),
        Ok(None) => Err(StoreError::Corrupt("duplicate key with no row".to_owned())),
    }
}

/// A key that was used never admits a new sandbox: not after a policy change, and
/// not after a conflict.
pub proof fn a_used_key_admits_nothing_new(row: RetryRow, digest: RequestDigest, r: Result<Admission, StoreError>)
    requires
        create_retry(row, digest, r),
    ensures
        r matches Ok(a) ==> !(a is Admitted) && !(a is ImageDenied),
        row.request_digest@.len() == 32 && same_content(row, digest) ==> (r matches Ok(Admission::Existing {
            operation_id,
            ..
        }) && operation_id == row.id),
{
}

} // verus!
