//! Versioned internal supervisor messages, as plain values.
use crate::guest;
use crate::history::{same_barrier, Barrier};
use crate::text::same_text;
use vstd::prelude::*;
use vstd::string::*;

verus! {

/// Who a host acts for, with every identity in its public text.
#[derive(Debug, PartialEq, Eq)]
pub struct Ownership {
    pub host_id: String,
    pub supervisor_epoch: i64,
    pub operation_id: String,
    pub project_id: String,
    pub sandbox_id: String,
    pub allocation_id: String,
    pub generation: i64,
    pub claim_revision: i64,
    pub claim_expires_unix_ms: i64,
}

pub open spec fn same_ownership(a: Ownership, b: Ownership) -> bool {
    &&& a.host_id@ == b.host_id@
    &&& a.supervisor_epoch == b.supervisor_epoch
    &&& a.operation_id@ == b.operation_id@
    &&& a.project_id@ == b.project_id@
    &&& a.sandbox_id@ == b.sandbox_id@
    &&& a.allocation_id@ == b.allocation_id@
    &&& a.generation == b.generation
    &&& a.claim_revision == b.claim_revision
    &&& a.claim_expires_unix_ms == b.claim_expires_unix_ms
}

impl Clone for Ownership {
    fn clone(&self) -> (r: Self)
        ensures
            r == *self,
    {
        Ownership {
            host_id: self.host_id.clone(),
            supervisor_epoch: self.supervisor_epoch,
            operation_id: self.operation_id.clone(),
            project_id: self.project_id.clone(),
            sandbox_id: self.sandbox_id.clone(),
            allocation_id: self.allocation_id.clone(),
            generation: self.generation,
            claim_revision: self.claim_revision,
            claim_expires_unix_ms: self.claim_expires_unix_ms,
        }
    }
}

impl Ownership {
    pub fn same(&self, other: &Ownership) -> (r: bool)
        ensures
            r == same_ownership(*self, *other),
    {
        same_text(self.host_id.as_str(), other.host_id.as_str()) && self.supervisor_epoch == other.supervisor_epoch
            && same_text(self.operation_id.as_str(), other.operation_id.as_str()) && same_text(
            self.project_id.as_str(),
            other.project_id.as_str(),
        ) && same_text(self.sandbox_id.as_str(), other.sandbox_id.as_str()) && same_text(
            self.allocation_id.as_str(),
            other.allocation_id.as_str(),
        ) && self.generation == other.generation && self.claim_revision == other.claim_revision
            && self.claim_expires_unix_ms == other.claim_expires_unix_ms
    }
}

/// Whether an optional owner is exactly this one.
pub open spec fn is_owner(o: Option<Ownership>, owner: Ownership) -> bool {
    o matches Some(x) && same_ownership(x, owner)
}

pub fn owned_by(o: &Option<Ownership>, owner: &Ownership) -> (r: bool)
    ensures
        r == is_owner(*o, *owner),
{
    match o {
        Some(x) => x.same(owner),
        None => false,
    }
}

/// What a host says has become of an allocation.
#[derive(Debug, Clone, Copy, PartialEq, Eq, Structural)]
pub enum AllocationState {
    Ready,
    Released,
    /// Fenced without ever having existed on the host.
    FencedAbsent,
    Other,
}

/// An enumeration value as it was carried: its number, and what it means where
/// the enumeration names it.
#[derive(Debug, Clone, Copy, PartialEq, Eq, Structural)]
pub struct ObservedState {
    pub number: i32,
    pub meaning: Option<AllocationState>,
}

#[derive(Debug, Clone, Copy, PartialEq, Eq, Structural)]
pub struct Resources {
    pub vcpu: u32,
    pub memory_mib: u64,
    pub disk_mib: u64,
}

#[derive(Debug)]
pub struct CreateRequest {
    pub ownership: Option<Ownership>,
    pub image_digest: String,
    pub resources: Option<Resources>,
    pub allocation_expires_unix_ms: i64,
}

/// What a host reports of an allocation.
#[derive(Debug)]
pub struct Observation {
    pub ownership: Option<Ownership>,
    pub create_operation_id: String,
    pub state: ObservedState,
    pub simulated: bool,
    pub observed_unix_ms: i64,
    pub start_count: u64,
}

#[derive(Debug)]
pub struct PreviousAllocationRequest {
    pub ownership: Option<Ownership>,
    pub reporting_epoch: i64,
}

#[derive(Debug)]
pub struct PreviousAllocationObservation {
    pub request: Option<PreviousAllocationRequest>,
    pub release: Option<Observation>,
}

/// Who maintains an allocation's execution lease.
#[derive(Debug, PartialEq, Eq)]
pub struct LeaseOwnership {
    pub host_id: String,
    pub project_id: String,
    pub sandbox_id: String,
    pub allocation_id: String,
    pub generation: i64,
    pub supervisor_epoch: i64,
    pub revision: i64,
    pub claim_expires_unix_ms: i64,
}

pub open spec fn same_lease_owner(a: LeaseOwnership, b: LeaseOwnership) -> bool {
    &&& a.host_id@ == b.host_id@
    &&& a.project_id@ == b.project_id@
    &&& a.sandbox_id@ == b.sandbox_id@
    &&& a.allocation_id@ == b.allocation_id@
    &&& a.generation == b.generation
    &&& a.supervisor_epoch == b.supervisor_epoch
    &&& a.revision == b.revision
    &&& a.claim_expires_unix_ms == b.claim_expires_unix_ms
}

pub open spec fn is_lease_owner(o: Option<LeaseOwnership>, owner: LeaseOwnership) -> bool {
    o matches Some(x) && same_lease_owner(x, owner)
}

impl LeaseOwnership {
    pub fn same(&self, other: &LeaseOwnership) -> (r: bool)
        ensures
            r == same_lease_owner(*self, *other),
    {
        same_text(self.host_id.as_str(), other.host_id.as_str()) && same_text(
            self.project_id.as_str(),
            other.project_id.as_str(),
        ) && same_text(self.sandbox_id.as_str(), other.sandbox_id.as_str()) && same_text(
            self.allocation_id.as_str(),
            other.allocation_id.as_str(),
        ) && self.generation == other.generation && self.supervisor_epoch == other.supervisor_epoch && self.revision
            == other.revision && self.claim_expires_unix_ms == other.claim_expires_unix_ms
    }
}

pub fn lease_owned_by(o: &Option<LeaseOwnership>, owner: &LeaseOwnership) -> (r: bool)
    ensures
        r == is_lease_owner(*o, *owner),
{
    match o {
        Some(x) => x.same(owner),
        None => false,
    }
}

#[derive(Debug)]
pub struct LeaseRequest {
    pub ownership: Option<LeaseOwnership>,
    pub allocation_expires_unix_ms: i64,
}

#[derive(Debug)]
pub struct LeaseObservation {
    pub ownership: Option<LeaseOwnership>,
    pub state: ObservedState,
    pub simulated: bool,
    pub allocation_expires_unix_ms: i64,
    pub observed_unix_ms: i64,
}

#[derive(Debug)]
pub struct LeaseInspection {
    pub ownership: Option<LeaseOwnership>,
}

/// Ask a host to retire the history behind a barrier.
#[derive(Debug)]
pub struct HistoryRequest {
    pub ownership: Option<LeaseOwnership>,
    pub barrier: Option<Barrier>,
}

pub open spec fn same_optional_barrier(a: Option<Barrier>, b: Option<Barrier>) -> bool {
    match (a, b) {
        (Some(x), Some(y)) => same_barrier(x, y),
        (None, None) => true,
        _ => false,
    }
}

pub fn barriers_agree(a: &Option<Barrier>, b: &Option<Barrier>) -> (r: bool)
    ensures
        r == same_optional_barrier(*a, *b),
{
    match (a, b) {
        (Some(x), Some(y)) => x.version == y.version && x.context.same(&y.context) && x.domain == y.domain && x.through
            == y.through,
        (None, None) => true,
        _ => false,
    }
}

pub open spec fn same_history_request(a: HistoryRequest, b: HistoryRequest) -> bool {
    &&& match (a.ownership, b.ownership) {
        (Some(x), Some(y)) => same_lease_owner(x, y),
        (None, None) => true,
        _ => false,
    }
    &&& same_optional_barrier(a.barrier, b.barrier)
}

impl HistoryRequest {
    pub fn same(&self, other: &HistoryRequest) -> (r: bool)
        ensures
            r == same_history_request(*self, *other),
    {
        let owners: bool = match (&self.ownership, &other.ownership) {
            (Some(x), Some(y)) => x.same(y),
            (None, None) => true,
            _ => false,
        };
        owners && barriers_agree(&self.barrier, &other.barrier)
    }
}

pub struct HistoryBindingObservation {
    pub request: Option<LeaseInspection>,
    pub context: Option<guest::Context>,
    pub simulated: bool,
    pub observed_unix_ms: i64,
}

#[derive(Debug)]
pub struct HistoryObservation {
    pub request: Option<HistoryRequest>,
    pub completed: Option<Barrier>,
    pub simulated: bool,
    pub observed_unix_ms: i64,
}

/// Ask a host to retire the history of an allocation that it has released.
#[derive(Debug)]
pub struct ReleasedHistoryRequest {
    pub ownership: Option<LeaseOwnership>,
    pub reporting_epoch: i64,
    pub domain: i32,
    pub through: String,
}

pub open spec fn same_released_request(a: ReleasedHistoryRequest, b: ReleasedHistoryRequest) -> bool {
    &&& match (a.ownership, b.ownership) {
        (Some(x), Some(y)) => same_lease_owner(x, y),
        (None, None) => true,
        _ => false,
    }
    &&& a.reporting_epoch == b.reporting_epoch
    &&& a.domain == b.domain
    &&& a.through@ == b.through@
}

impl ReleasedHistoryRequest {
    pub fn same(&self, other: &ReleasedHistoryRequest) -> (r: bool)
        ensures
            r == same_released_request(*self, *other),
    {
        let owners: bool = match (&self.ownership, &other.ownership) {
            (Some(x), Some(y)) => x.same(y),
            (None, None) => true,
            _ => false,
        };
        owners && self.reporting_epoch == other.reporting_epoch && self.domain == other.domain && same_text(
            self.through.as_str(),
            other.through.as_str(),
        )
    }
}

#[derive(Debug)]
pub struct ReleasedHistoryObservation {
    pub request: Option<ReleasedHistoryRequest>,
    pub completed_through: String,
    pub release_state: ObservedState,
    pub simulated: bool,
    pub observed_unix_ms: i64,
}

/// A retirement request as its exact encoding.
#[derive(Debug)]
pub struct EncodedRequest {
    pub request_json: Vec<u8>,
}

#[derive(Debug)]
pub struct AllocationMetadataObservation {
    pub request: Option<EncodedRequest>,
    pub observed_unix_ms: i64,
}

#[derive(Debug, Clone, Copy, PartialEq, Eq, Structural)]
pub enum AllocationForgetState {
    Forgotten,
    /// Only that the serial is denied.
    Retired,
    Other,
}

#[derive(Debug)]
pub struct AllocationForgetObservation {
    pub request: Option<EncodedRequest>,
    /// Nothing for a number that the enumeration does not name.
    pub state: Option<AllocationForgetState>,
    pub observed_unix_ms: i64,
}

/// What a host reports of a command.
pub struct CommandObservation {
    pub ownership: Option<Ownership>,
    pub simulated: bool,
    pub observed_unix_ms: i64,
    pub command_digest: Vec<u8>,
    pub receipt: Option<guest::Receipt>,
    pub not_started: bool,
}

/// What a host reports of a file transfer.
pub struct FileObservation {
    pub ownership: Option<Ownership>,
    pub simulated: bool,
    pub observed_unix_ms: i64,
    pub upload_digest: Vec<u8>,
    pub context: Option<guest::Context>,
    pub state: i32,
    pub not_started: bool,
    pub stored: Option<u64>,
}

/// A capture that a host holds open for reading.
pub struct FileDownloadHandle {
    pub id: String,
    pub context: Option<guest::Context>,
    pub capture: Option<guest::FileCapture>,
    pub expires_unix_ms: i64,
}

pub open spec fn same_download(a: FileDownloadHandle, b: FileDownloadHandle) -> bool {
    &&& a.id@ == b.id@
    &&& match (a.context, b.context) {
        (Some(x), Some(y)) => guest::same_context(x, y),
        (None, None) => true,
        _ => false,
    }
    &&& match (a.capture, b.capture) {
        (Some(x), Some(y)) => guest::same_capture(x, y),
        (None, None) => true,
        _ => false,
    }
    &&& a.expires_unix_ms == b.expires_unix_ms
}

impl FileDownloadHandle {
    pub fn same(&self, other: &FileDownloadHandle) -> (r: bool)
        ensures
            r == same_download(*self, *other),
    {
        let contexts: bool = match (&self.context, &other.context) {
            (Some(x), Some(y)) => x.same(y),
            (None, None) => true,
            _ => false,
        };
        let captures: bool = match (&self.capture, &other.capture) {
            (Some(x), Some(y)) => x.same(y),
            (None, None) => true,
            _ => false,
        };
        same_text(self.id.as_str(), other.id.as_str()) && contexts && captures && self.expires_unix_ms
            == other.expires_unix_ms
    }
}

impl Clone for FileDownloadHandle {
    fn clone(&self) -> (r: Self)
        ensures
            same_download(r, *self),
    {
        FileDownloadHandle {
            id: self.id.clone(),
            context: match &self.context {
                Some(c) => Some(c.clone()),
                None => None,
            },
            capture: match &self.capture {
                Some(c) => Some(c.clone()),
                None => None,
            },
            expires_unix_ms: self.expires_unix_ms,
        }
    }
}

pub struct FileCaptureRequest {
    pub scope_json: Vec<u8>,
    pub expires_unix_ms: i64,
    pub path: String,
}

pub struct FileDownloadRequest {
    pub scope_json: Vec<u8>,
    pub expires_unix_ms: i64,
    pub handle: Option<FileDownloadHandle>,
    pub offset: u64,
    pub limit: u32,
}

pub struct FileReleaseRequest {
    pub scope_json: Vec<u8>,
    pub expires_unix_ms: i64,
    pub handle: Option<FileDownloadHandle>,
}

/// What a file access came to.
pub enum FileAccessResult {
    Captured(FileDownloadHandle),
    Chunk(guest::FileChunk),
    Released(FileDownloadHandle),
}

pub struct FileAccessObservation {
    pub scope_json: Vec<u8>,
    pub simulated: bool,
    pub observed_unix_ms: i64,
    pub result: Option<FileAccessResult>,
}

pub struct FileWriteRequest {
    pub ownership: Option<Ownership>,
    pub offset: u64,
    pub data: Vec<u8>,
}

} // verus!
