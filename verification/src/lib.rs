//! Identities, requests, receipts and errors of the sandbox service, and the
//! rules by which its durable store decides.
//!
//! The modules at the root are the vocabulary that the API, the controller, the
//! supervisor and the guest agent share: how each value is read, checked, encoded
//! and digested. [`store`] holds what the store decides on the rows it has read:
//! admission, placement, dispatch, recovery, leases, output retention, history
//! and retirement. Every decision is a function from plain values to plain values,
//! so that a transaction can be retried, and its outcome told, from its contract.
//!
//! Ghost models of the values stand beside them: a JSON value is seen as a
//! [`document::Doc`], an identity as its number, text as a sequence of characters.

pub use idempotency::{IdempotencyKey, KeyError, RequestDigest, DIGEST_VERSION};
pub use ids::{AllocationId, HostId, Id, IdParseError, OperationId, ProjectId, SandboxId, SnapshotId};
pub use token::{ProjectToken, TokenHash, TokenKeyId, TokenParseError};

pub mod allocation_authority;
pub mod allocation_retirement;
pub mod api;
pub mod authority_laws;
pub mod bootstrap;
pub mod canonical;
pub mod command;
pub mod digest;
pub mod document;
pub mod document_laws;
pub mod encoding_laws;
pub mod file_downloads;
pub mod file_sources;
pub mod file_wire;
pub mod files;
pub mod guest;
pub mod guest_model;
pub mod guest_wire;
pub mod history;
pub mod idempotency;
pub mod ids;
pub mod images;
pub mod json;
pub mod key_laws;
pub mod laws;
pub mod live_output;
pub mod output;
pub mod resources;
pub mod storage_laws;
pub mod store;
pub mod supervisor;
pub mod supervisor_files;
pub mod text;
pub mod token;
