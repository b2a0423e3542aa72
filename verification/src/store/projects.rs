//! Project rows and their API token metadata.
use crate::guest_model::digest_of;
use crate::ids::ProjectId;
use crate::store::admission::{corrupt, StoreError};
use crate::text::{debug_quote, debug_quoted, same_text};
use crate::token::{TokenHash, TokenKeyId};
use vstd::prelude::*;
use vstd::string::*;

verus! {

/// A project's lifecycle state.
#[derive(Debug, Clone, Copy, PartialEq, Eq, Structural)]
pub enum ProjectStatus {
    /// Ordinary operation.
    Active,
    /// Access blocked; the project and its data still exist.
    Suspended,
    /// Being torn down. No new work is admitted.
    Deleting,
}

pub open spec fn project_status(column: Seq<char>) -> Option<ProjectStatus> {
    if column == "active"@ {
        Some(ProjectStatus::Active)
    } else if column == "suspended"@ {
        Some(ProjectStatus::Suspended)
    } else if column == "deleting"@ {
        Some(ProjectStatus::Deleting)
    } else {
        None
    }
}

impl ProjectStatus {
    pub fn from_column(value: &str) -> (r: Option<Self>)
        ensures
            r == project_status(value@),
    {
        if same_text(value, "active") {
            Some(ProjectStatus::Active)
        } else if same_text(value, "suspended") {
            Some(ProjectStatus::Suspended)
        } else if same_text(value, "deleting") {
            Some(ProjectStatus::Deleting)
        } else {
            None
        }
    }
}

/// One token's stored metadata. Never the secret, only its hash.
pub struct TokenRecord {
    /// The project the token belongs to.
    pub project_id: ProjectId,
    /// That project's current status, read in the same query so a suspended
    /// project cannot be missed by checking the token alone.
    pub project_status: ProjectStatus,
    /// Which credential this is.
    pub key_id: TokenKeyId,
    /// SHA-256 of the secret.
    pub hash: TokenHash,
    /// When the token stops being valid, if ever.
    pub expires_at: Option<i128>,
    /// When the token was revoked, if it was.
    pub revoked_at: Option<i128>,
}

impl Clone for TokenRecord {
    fn clone(&self) -> (r: Self)
        ensures
            r == *self,
    {
        TokenRecord {
            project_id: self.project_id,
            project_status: self.project_status,
            key_id: self.key_id.clone(),
            hash: self.hash,
            expires_at: self.expires_at,
            revoked_at: self.revoked_at,
        }
    }
}

/// A token row as it is stored.
pub struct TokenRow {
    pub project_id: ProjectId,
    pub project_status: String,
    pub key_id: String,
    pub hash: Vec<u8>,
    pub expires_at: Option<i128>,
    pub revoked_at: Option<i128>,
}

/// What a stored token may be read as.
pub open spec fn token_read(row: TokenRow, r: Result<TokenRecord, StoreError>) -> bool {
    match r {
        Ok(t) => {
            &&& t.project_id == row.project_id
            &&& Some(t.project_status) == project_status(row.project_status@)
            &&& t.key_id@ == row.key_id@
            &&& t.hash.bytes@ == row.hash@
            &&& t.expires_at == row.expires_at
            &&& t.revoked_at == row.revoked_at
        },
        Err(e) => if project_status(row.project_status@) is None {
            corrupt(e, "unknown project status "@ + debug_quoted(row.project_status@))
        } else {
            row.hash@.len() != 32 && corrupt(e, "stored token hash is not 32 bytes"@)
        },
    }
}

/// Interpret a token row. A hash of the wrong length or an unknown status is a
/// bug or tampering, never something to treat as "no match".
pub fn token_record(row: TokenRow) -> (r: Result<TokenRecord, StoreError>)
    ensures
        token_read(row, r),
{
    let status: ProjectStatus = match ProjectStatus::from_column(row.project_status.as_str()) {
        Some(s) => s,
        None => {
            let mut text: String = "unknown project status ".to_owned();
            text.append(debug_quote(row.project_status.as_str()).as_str());
            return Err(StoreError::Corrupt(text));
        },
    };
    match digest_of(row.hash.as_slice()) {
        Some(hash) => Ok(
            TokenRecord {
                project_id: row.project_id,
                project_status: status,
                key_id: TokenKeyId::from_stored(row.key_id),
                hash: TokenHash::from_bytes(hash),
                expires_at: row.expires_at,
                revoked_at: row.revoked_at,
            },
        ),
        None => Err(StoreError::Corrupt("stored token hash is not 32 bytes".to_owned())),
    }
}

} // verus!
