//! Reading a sandbox's files: of which allocation, for whom, and for how long.
use crate::ids::ProjectId;
use crate::store::admission::StoreError;
use crate::store::files::{file_authorized, file_viewed, view_expired, FileAccess, FileRow, FileView};
use crate::store::projects::{ProjectStatus, TokenRecord};
use crate::token::{TokenHash, TokenKeyId};
use vstd::prelude::*;

verus! {

/// A view of a sandbox's files is of exactly the allocation that the row names, and
/// lasts no longer than the allocation's lease or the sandbox.
pub proof fn file_views_are_of_the_rows_allocation(row: &FileRow, r: Result<FileView, StoreError>)
    requires
        file_viewed(row, r),
    ensures
        r is Ok <==> row.supervisor_epoch >= 1 && row.generation >= 1,
        r matches Ok(v) ==> {
            &&& v.scope.version == 1
            &&& v.scope.host_id == row.host_id
            &&& v.scope.host_epoch == row.supervisor_epoch
            &&& v.scope.project_id == row.project_id
            &&& v.scope.sandbox_id == row.sandbox_id
            &&& v.scope.allocation_id == row.allocation_id
            &&& v.scope.generation == row.generation
            &&& v.simulated == row.simulated
            &&& v.lease_expires_at == row.lease_expires_at
            &&& v.sandbox_expires_at == row.expires_at
            &&& v.authorization_expires_at is None
        },
{
}

/// The token is this project's credential and counts at the time: its key and its
/// hash are the ones presented, its project is active, and it is neither expired nor
/// revoked.
pub open spec fn credential_counts(
    t: TokenRecord,
    project: ProjectId,
    key: Seq<char>,
    hash: TokenHash,
    at: i128,
) -> bool {
    &&& t.project_id == project
    &&& t.key_id@ == key
    &&& t.hash.bytes@ == hash.bytes@
    &&& t.project_status == ProjectStatus::Active
    &&& t.expires_at matches Some(end) ==> at < end
    &&& t.revoked_at matches Some(end) ==> at < end
}

/// Files are shown exactly to a credential of their own project that counts both when
/// it was read and now; the view ends with the credential.
pub proof fn files_are_shown_to_live_credentials(
    token: Option<&TokenRecord>,
    project: ProjectId,
    key: &TokenKeyId,
    hash: &TokenHash,
    checked: i128,
    row: Option<&FileRow>,
    now: i128,
    r: Result<FileAccess, StoreError>,
)
    requires
        file_authorized(token, project, key, hash, checked, row, now, r),
        row matches Some(x) ==> x.supervisor_epoch >= 1 && x.generation >= 1,
    ensures
        ({
            let counts = token matches Some(t) && credential_counts(*t, project, key@, *hash, checked) && (
            t.expires_at matches Some(end) ==> now < end) && (t.revoked_at matches Some(end) ==> now < end);
            &&& !counts <==> r == Ok::<FileAccess, StoreError>(FileAccess::Unauthorized)
            &&& counts && row is None <==> r == Ok::<FileAccess, StoreError>(FileAccess::NotFound)
            &&& counts && row is Some ==> (r matches Ok(FileAccess::Ready(v)) && {
                let x = row->0;
                &&& v.scope.version == 1
                &&& v.scope.host_id == x.host_id
                &&& v.scope.host_epoch == x.supervisor_epoch
                &&& v.scope.project_id == x.project_id
                &&& v.scope.sandbox_id == x.sandbox_id
                &&& v.scope.allocation_id == x.allocation_id
                &&& v.scope.generation == x.generation
                &&& v.simulated == x.simulated
                &&& v.lease_expires_at == x.lease_expires_at
                &&& v.sandbox_expires_at == x.expires_at
                &&& v.authorization_expires_at is None <==> token->0.expires_at is None && token->0.revoked_at is None
                &&& v.authorization_expires_at matches Some(end) ==> {
                    &&& token->0.expires_at == Some(end) || token->0.revoked_at == Some(end)
                    &&& token->0.expires_at matches Some(t) ==> end <= t
                    &&& token->0.revoked_at matches Some(t) ==> end <= t
                }
            })
        }),
{
}

/// A row of no real epoch or generation is shown to nobody: a credential that counts is
/// told that it is corrupt, and any other is not authorized.
pub proof fn unreal_rows_are_shown_to_nobody(
    token: Option<&TokenRecord>,
    project: ProjectId,
    key: &TokenKeyId,
    hash: &TokenHash,
    checked: i128,
    row: &FileRow,
    now: i128,
    r: Result<FileAccess, StoreError>,
)
    requires
        file_authorized(token, project, key, hash, checked, Some(row), now, r),
        row.supervisor_epoch <= 0 || row.generation <= 0,
    ensures
        token matches Some(t) && credential_counts(*t, project, key@, *hash, checked) <==> r is Err,
        r is Ok ==> r == Ok::<FileAccess, StoreError>(FileAccess::Unauthorized),
{
}

/// A view has expired exactly where its lease, its sandbox or its credential has.
pub proof fn file_views_end_with_what_they_rest_on(v: FileView, now: i128)
    ensures
        view_expired(v, now) <==> v.lease_expires_at <= now || (v.sandbox_expires_at matches Some(t) && t <= now) || (
        v.authorization_expires_at matches Some(t) && t <= now),
{
}

} // verus!
