//! Current tenant-scoped allocation evidence for read-only file access. Never claims work.
use crate::file_downloads::{read_scope_valid, ReadScope};
use crate::ids::{AllocationId, HostId, ProjectId, SandboxId};
use crate::store::admission::{corrupt, StoreError};
use crate::store::clock::{earlier, earlier_of, has_passed, passed};
use crate::store::projects::{ProjectStatus, TokenRecord};
use crate::text::same_text;
use crate::token::{TokenHash, TokenKeyId};
use vstd::prelude::*;
use vstd::string::*;

verus! {

#[derive(Debug, Clone, Copy, PartialEq, Eq, Structural)]
pub struct FileView {
    pub scope: ReadScope,
    pub simulated: bool,
    pub lease_expires_at: i128,
    pub sandbox_expires_at: Option<i128>,
    pub authorization_expires_at: Option<i128>,
}

/// The lease, the sandbox or the authorization has ended.
pub open spec fn view_expired(v: FileView, now: i128) -> bool {
    v.lease_expires_at <= now || passed(v.sandbox_expires_at, now) || passed(v.authorization_expires_at, now)
}

impl FileView {
    pub fn expired(&self, now: i128) -> (r: bool)
        ensures
            r == view_expired(*self, now),
    {
        self.lease_expires_at <= now || has_passed(self.sandbox_expires_at, now) || has_passed(
            self.authorization_expires_at,
            now,
        )
    }

    /// Two views of the same allocation of the same kind, whatever their leases.
    pub fn same_binding(&self, other: &FileView) -> (r: bool)
        ensures
            r == (self.scope == other.scope && self.simulated == other.simulated),
    {
        self.scope == other.scope && self.simulated == other.simulated
    }
}

/// The columns of a sandbox that is running on a live allocation.
#[derive(Debug, Clone, Copy)]
pub struct FileRow {
    pub host_id: HostId,
    pub supervisor_epoch: i64,
    pub project_id: ProjectId,
    pub sandbox_id: SandboxId,
    pub allocation_id: AllocationId,
    pub generation: i64,
    pub simulated: bool,
    pub lease_expires_at: i128,
    pub expires_at: Option<i128>,
}

pub open spec fn scope_of_row(row: FileRow) -> ReadScope {
    ReadScope {
        version: 1,
        host_id: row.host_id,
        host_epoch: row.supervisor_epoch,
        project_id: row.project_id,
        sandbox_id: row.sandbox_id,
        allocation_id: row.allocation_id,
        generation: row.generation,
    }
}

/// What a sandbox's files may be viewed as.
pub open spec fn file_viewed(row: &FileRow, r: Result<FileView, StoreError>) -> bool {
    match r {
        Ok(v) => read_scope_valid(scope_of_row(*row)) && v == (FileView {
            scope: scope_of_row(*row),
            simulated: row.simulated,
            lease_expires_at: row.lease_expires_at,
            sandbox_expires_at: row.expires_at,
            authorization_expires_at: None,
        }),
        Err(e) => !read_scope_valid(scope_of_row(*row)) && corrupt(e, "invalid file read scope"@),
    }
}

/// What may be read of a running sandbox, before any authorization limits it.
pub fn file_view(row: &FileRow) -> (r: Result<FileView, StoreError>)
    ensures
        file_viewed(row, r),
{
    let scope: ReadScope = ReadScope {
        version: 1,
        host_id: row.host_id,
        host_epoch: row.supervisor_epoch,
        project_id: row.project_id,
        sandbox_id: row.sandbox_id,
        allocation_id: row.allocation_id,
        generation: row.generation,
    };
    if scope.validate().is_err() {
        return Err(StoreError::Corrupt("invalid file read scope".to_owned()));
    }
    Ok(
        FileView {
            scope,
            simulated: row.simulated,
            lease_expires_at: row.lease_expires_at,
            sandbox_expires_at: row.expires_at,
            authorization_expires_at: None,
        },
    )
}

#[derive(Debug, Clone, Copy, PartialEq, Eq, Structural)]
pub enum FileAccess {
    Unauthorized,
    NotFound,
    Ready(FileView),
}

/// The stored token is the presented one, of an active project, and live.
pub open spec fn token_live(t: TokenRecord, project: ProjectId, key: Seq<char>, hash: TokenHash, checked: i128) -> bool {
    &&& t.project_id == project
    &&& t.key_id@ == key
    &&& hash.bytes@ == t.hash.bytes@
    &&& t.project_status == ProjectStatus::Active
    &&& !passed(t.expires_at, checked)
    &&& !passed(t.revoked_at, checked)
}

/// What a request for files may be answered.
pub open spec fn file_authorized(
    token: Option<&TokenRecord>,
    project: ProjectId,
    key: &TokenKeyId,
    hash: &TokenHash,
    checked: i128,
    row: Option<&FileRow>,
    now: i128,
    r: Result<FileAccess, StoreError>,
) -> bool {
    let live = token matches Some(t) && token_live(*t, project, key@, *hash, checked);
    match r {
        Err(e) => live && (row matches Some(row) && !read_scope_valid(scope_of_row(*row))) && corrupt(
            e,
            "invalid file read scope"@,
        ),
        Ok(a) => {
            &&& (live && row is Some ==> read_scope_valid(scope_of_row(*row->0)))
            &&& a == (if !live || passed(token->0.expires_at, now) || passed(token->0.revoked_at, now) {
                FileAccess::Unauthorized
            } else {
                match row {
                    None => FileAccess::NotFound,
                    Some(row) => FileAccess::Ready(
                        FileView {
                            scope: scope_of_row(*row),
                            simulated: row.simulated,
                            lease_expires_at: row.lease_expires_at,
                            sandbox_expires_at: row.expires_at,
                            authorization_expires_at: earlier_of(token->0.expires_at, token->0.revoked_at),
                        },
                    ),
                }
            })
        },
    }
}

/// Decide a file access. `token` is the stored token of the presented key, where
/// the project has it; `checked` is database time when it was read; `row` the
/// sandbox where it is running on a live allocation; `now` the time once the
/// reading transaction has committed. Rows are locked before the final reads, so
/// that a lock wait cannot return a stale combination of credential and scope.
pub fn authorized_file_view(
    token: Option<&TokenRecord>,
    project: ProjectId,
    key: &TokenKeyId,
    hash: &TokenHash,
    checked: i128,
    row: Option<&FileRow>,
    now: i128,
) -> (r: Result<FileAccess, StoreError>)
    ensures
        file_authorized(token, project, key, hash, checked, row, now, r),
{
    let token: &TokenRecord = match token {
        Some(t) => t,
        None => {
            return Ok(FileAccess::Unauthorized);
        },
    };
    let active: bool = match token.project_status {
        ProjectStatus::Active => true,
        _ => false,
    };
    if token.project_id != project || !same_text(token.key_id.as_str(), key.as_str()) || !hash.verify(&token.hash)
        || !active || has_passed(token.expires_at, checked) || has_passed(token.revoked_at, checked) {
        return Ok(FileAccess::Unauthorized);
    }
    let view: Option<FileView> = match row {
        None => None,
        Some(row) => match file_view(row) {
            Ok(v) => Some(
                FileView {
                    scope: v.scope,
                    simulated: v.simulated,
                    lease_expires_at: v.lease_expires_at,
                    sandbox_expires_at: v.sandbox_expires_at,
                    authorization_expires_at: earlier(token.expires_at, token.revoked_at),
                },
            ),
            Err(e) => {
                return Err(e);
            },
        },
    };
    if has_passed(token.expires_at, now) || has_passed(token.revoked_at, now) {
        return Ok(FileAccess::Unauthorized);
    }
    Ok(
        match view {
            Some(v) => FileAccess::Ready(v),
            None => FileAccess::NotFound,
        },
    )
}

/// A view never outlives the credential that it was authorized by: it is expired
/// once the credential has expired or been revoked.
pub proof fn views_end_with_their_credential(v: FileView, t: TokenRecord, now: i128)
    requires
        v.authorization_expires_at == earlier_of(t.expires_at, t.revoked_at),
        passed(t.expires_at, now) || passed(t.revoked_at, now),
    ensures
        view_expired(v, now),
{
}

} // verus!
