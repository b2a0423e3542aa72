//! Single-host reservations. No method here starts a VM or releases capacity.
//!
//! Lock order is operation -> project -> sandbox -> host. All placement writers
//! must take the same project and host locks before reading aggregate usage.
//! Existing reservations always require reconciliation, even when a lease expired.
use crate::canonical::Json;
use crate::document::{field, integer_of, json_integer, json_text, number, Doc, Members};
use crate::ids::{id_text, AllocationId, HostId, Id};
use crate::resources::{size_supported, supported};
use crate::store::rows::{AllocationRow, OperationRow, SandboxRow};
use crate::text::same_text;
use vstd::prelude::*;
use vstd::string::*;

verus! {

#[derive(Debug, Clone, Copy, PartialEq, Eq, Structural)]
pub struct Allocation {
    pub id: AllocationId,
    pub host_id: HostId,
    pub generation: i64,
    pub supervisor_epoch: i64,
}

#[derive(Debug, Clone, Copy, PartialEq, Eq, Structural)]
pub enum Reservation {
    /// Capacity is reserved; boot has not been dispatched or confirmed.
    Reserved(Allocation),
    /// Reconcile this incarnation instead of allocating or blindly starting another.
    Existing(Allocation),
}

#[derive(Debug, Clone, Copy, PartialEq, Eq, Structural)]
pub enum PlacementError {
    /// Operation claim expired or changed.
    LostClaim,
    /// Current project credential does not permit execution.
    Unauthorized,
    /// Sandbox requires reconciliation before placement.
    Reconcile,
    /// Host is not ready, fresh, or at the expected epoch.
    HostUnavailable,
    /// Insufficient host capacity.
    Capacity,
    /// Project allocation quota exceeded.
    Quota,
    /// Invalid resource or quota metadata.
    InvalidResources,
}

/// A positive integer member.
pub open spec fn positive_field(d: Doc, key: Seq<char>) -> Option<i64> {
    match integer_of(field(d, key)) {
        Some(n) => if n > 0 {
            Some(n)
        } else {
            None
        },
        None => None,
    }
}

pub fn positive(value: &Json, key: &str) -> (r: Result<i64, PlacementError>)
    ensures
        match r {
            Ok(n) => positive_field(value@, key@) == Some(n),
            Err(e) => e == PlacementError::InvalidResources && positive_field(value@, key@) is None,
        },
{
    match value.get(key) {
        Some(v) => match v.integer() {
            Some(n) => if n > 0 {
                Ok(n)
            } else {
                Err(PlacementError::InvalidResources)
            },
            None => Err(PlacementError::InvalidResources),
        },
        None => Err(PlacementError::InvalidResources),
    }
}

/// A quota: the default where the member is absent, an error where it is there
/// and no natural number.
pub open spec fn quota(limits: Doc, key: Seq<char>, default: i64) -> Option<i64> {
    match field(limits, key) {
        None => Some(default),
        Some(v) => match integer_of(Some(v)) {
            Some(n) => if n >= 0 {
                Some(n)
            } else {
                None
            },
            None => None,
        },
    }
}

/// What a quota may be read as.
pub open spec fn limit_read(value: &Json, key: &str, default: i64, r: Result<i64, PlacementError>) -> bool {
    match r {
        Ok(n) => quota(value@, key@, default) == Some(n),
        Err(e) => e == PlacementError::InvalidResources && quota(value@, key@, default) is None,
    }
}

pub fn limit(value: &Json, key: &str, default: i64) -> (r: Result<i64, PlacementError>)
    ensures
        limit_read(value, key, default, r),
{
    match value.get(key) {
        None => Ok(default),
        Some(v) => match v.integer() {
            Some(n) => if n >= 0 {
                Ok(n)
            } else {
                Err(PlacementError::InvalidResources)
            },
            None => Err(PlacementError::InvalidResources),
        },
    }
}

/// What unreleased allocations add up to.
#[derive(Debug, Clone, Copy, PartialEq, Eq, Structural)]
pub struct Usage {
    pub count: i64,
    pub vcpu: i64,
    pub memory_mib: i64,
    pub disk_mib: i64,
}

#[derive(Debug, Clone, Copy, PartialEq, Eq, Structural)]
pub struct HostCapacity {
    pub cpu: i32,
    pub memory_mib: i64,
    pub disk_mib: i64,
}

/// A size that a sandbox may have.
#[derive(Debug, Clone, Copy, PartialEq, Eq, Structural)]
pub struct Size {
    pub vcpu: i64,
    pub memory_mib: i64,
    pub disk_mib: i64,
}

/// What a claimed create is placed on. `op` is the operation where its claim is
/// live at its revision; `held` the sandbox's current allocation, where it is not
/// released; `host` the host, where it is registered; `host_ready` whether it is
/// ready, recently seen and at the expected epoch; `authorized` whether the
/// initiating credential, the deadline and the sandbox's expiry permit it now.
pub struct PlacementRows<'a> {
    pub op: Option<&'a OperationRow>,
    pub sandbox: &'a SandboxRow,
    pub held: Option<&'a AllocationRow>,
    pub limits: &'a Json,
    pub project_usage: Usage,
    pub host: Option<HostCapacity>,
    pub host_ready: bool,
    pub authorized: bool,
    pub host_usage: Usage,
}

/// The requested size, where it is a supported one.
pub open spec fn requested(resources: Doc) -> Option<Size> {
    match (
        positive_field(resources, "vcpu"@),
        positive_field(resources, "memory_mib"@),
        positive_field(resources, "disk_mib"@),
    ) {
        (Some(vcpu), Some(memory_mib), Some(disk_mib)) => if size_supported(
            vcpu as int,
            memory_mib as int,
            disk_mib as int,
        ) {
            Some(Size { vcpu, memory_mib, disk_mib })
        } else {
            None
        },
        _ => None,
    }
}

/// A new size fits beside what is used, within a limit on each dimension.
pub open spec fn fits(size: Size, used: Usage, vcpu: int, memory_mib: int, disk_mib: int) -> bool {
    used.vcpu + size.vcpu <= vcpu && used.memory_mib + size.memory_mib <= memory_mib && used.disk_mib + size.disk_mib
        <= disk_mib
}

/// Why a project's quota refuses the size. The dimensions are looked at in turn,
/// so a malformed quota only counts once the ones before it admit the size.
pub open spec fn quota_refusal(limits: Doc, used: Usage, size: Size) -> Option<PlacementError> {
    match quota(limits, "sandboxes"@, 25) {
        None => Some(PlacementError::InvalidResources),
        Some(n) => if used.count >= n {
            Some(PlacementError::Quota)
        } else {
            match quota(limits, "vcpu"@, 100) {
                None => Some(PlacementError::InvalidResources),
                Some(n) => if used.vcpu + size.vcpu > n {
                    Some(PlacementError::Quota)
                } else {
                    match quota(limits, "memory_mib"@, 204800) {
                        None => Some(PlacementError::InvalidResources),
                        Some(n) => if used.memory_mib + size.memory_mib > n {
                            Some(PlacementError::Quota)
                        } else {
                            match quota(limits, "disk_mib"@, 1638400) {
                                None => Some(PlacementError::InvalidResources),
                                Some(n) => if used.disk_mib + size.disk_mib > n {
                                    Some(PlacementError::Quota)
                                } else {
                                    None
                                },
                            }
                        },
                    }
                },
            }
        },
    }
}

fn check_quota(limits: &Json, used: &Usage, size: &Size) -> (r: Result<(), PlacementError>)
    ensures
        match r {
            Ok(_) => quota_refusal(limits@, *used, *size) is None,
            Err(e) => quota_refusal(limits@, *used, *size) == Some(e),
        },
{
    let sandboxes: i64 = match limit(limits, "sandboxes", 25) {
        Ok(n) => n,
        Err(e) => {
            return Err(e);
        },
    };
    if used.count >= sandboxes {
        return Err(PlacementError::Quota);
    }
    let vcpu: i64 = match limit(limits, "vcpu", 100) {
        Ok(n) => n,
        Err(e) => {
            return Err(e);
        },
    };
    if used.vcpu as i128 + size.vcpu as i128 > vcpu as i128 {
        return Err(PlacementError::Quota);
    }
    let memory: i64 = match limit(limits, "memory_mib", 204800) {
        Ok(n) => n,
        Err(e) => {
            return Err(e);
        },
    };
    if used.memory_mib as i128 + size.memory_mib as i128 > memory as i128 {
        return Err(PlacementError::Quota);
    }
    let disk: i64 = match limit(limits, "disk_mib", 1638400) {
        Ok(n) => n,
        Err(e) => {
            return Err(e);
        },
    };
    if used.disk_mib as i128 + size.disk_mib as i128 > disk as i128 {
        return Err(PlacementError::Quota);
    }
    Ok(())
}

/// The sandbox has not been placed or attempted, and is wanted.
pub open spec fn unplaced(op: OperationRow, sandbox: SandboxRow) -> bool {
    &&& op.status@ != "unknown"@
    &&& op.attempt_count == 0
    &&& sandbox.generation == 0
    &&& sandbox.observed_state@ == "creating"@
    &&& sandbox.desired_state@ == "running"@
}

/// Why a sandbox without an allocation is not placed.
pub open spec fn new_refusal(rows: PlacementRows, op: OperationRow) -> Option<PlacementError> {
    if !unplaced(op, *rows.sandbox) {
        Some(PlacementError::Reconcile)
    } else {
        match requested(rows.sandbox.resources@) {
            None => Some(PlacementError::InvalidResources),
            Some(size) => match quota_refusal(rows.limits@, rows.project_usage, size) {
                Some(e) => Some(e),
                None => match rows.host {
                    None => Some(PlacementError::HostUnavailable),
                    Some(host) => if !rows.host_ready {
                        Some(PlacementError::HostUnavailable)
                    } else if !rows.authorized {
                        Some(PlacementError::Unauthorized)
                    } else if !fits(
                        size,
                        rows.host_usage,
                        host.cpu as int,
                        host.memory_mib as int,
                        host.disk_mib as int,
                    ) {
                        Some(PlacementError::Capacity)
                    } else {
                        None
                    },
                },
            },
        }
    }
}

/// Why a claimed create is not placed. An existing incarnation is resolved before
/// today's authority or capacity: a revoked caller still needs service-owned
/// reconciliation.
pub open spec fn placement_refusal(rows: PlacementRows) -> Option<PlacementError> {
    match rows.op {
        None => Some(PlacementError::LostClaim),
        Some(op) => if op.kind@ != "create"@ || rows.sandbox.active_transition_operation_id != Some(op.id) {
            Some(PlacementError::Reconcile)
        } else if rows.sandbox.current_allocation_id is Some {
            if rows.held is None {
                Some(PlacementError::Reconcile)
            } else {
                None
            }
        } else {
            new_refusal(rows, *op)
        },
    }
}

/// What reserving writes.
#[derive(Debug)]
pub struct ReservationPlan {
    pub reservation: Reservation,
    /// For a new reservation: what it takes, and the receipt that is retained.
    pub size: Option<Size>,
    pub receipt: Option<Json>,
}

pub open spec fn reserved_receipt(allocation: AllocationId, epoch: i64, revision: i64) -> Doc {
    Doc::Object(
        Seq::<(Seq<char>, Doc)>::empty().push(("phase"@, Doc::Text("reserved"@))).push(
            ("allocation_id"@, Doc::Text(id_text("alc"@, allocation.value))),
        ).push(("generation"@, number(1))).push(("supervisor_epoch"@, number(epoch as int))).push(
            ("claim_revision"@, number(revision as int)),
        ),
    )
}

pub open spec fn placed_plan(
    p: ReservationPlan,
    rows: PlacementRows,
    host: HostId,
    epoch: i64,
    revision: i64,
    allocation: AllocationId,
) -> bool {
    match rows.sandbox.current_allocation_id {
        Some(id) => {
            &&& p.reservation == Reservation::Existing(
                Allocation {
                    id,
                    host_id: rows.held->0.host_id,
                    generation: rows.held->0.generation,
                    supervisor_epoch: rows.held->0.supervisor_epoch,
                },
            )
            &&& p.size is None
            &&& p.receipt is None
        },
        None => {
            &&& p.reservation == Reservation::Reserved(
                Allocation { id: allocation, host_id: host, generation: 1, supervisor_epoch: epoch },
            )
            &&& p.size == requested(rows.sandbox.resources@)
            &&& (p.receipt matches Some(d) && d@ == reserved_receipt(allocation, epoch, revision))
        },
    }
}

/// What placing a create may come to.
pub open spec fn create_reserved(
    rows: &PlacementRows,
    host: HostId,
    expected_epoch: i64,
    revision: i64,
    allocation: AllocationId,
    r: Result<ReservationPlan, PlacementError>,
) -> bool {
    match r {
        Ok(p) => placement_refusal(*rows) is None && placed_plan(
            p,
            *rows,
            host,
            expected_epoch,
            revision,
            allocation,
        ),
        Err(e) => placement_refusal(*rows) == Some(e),
    }
}

/// Reserve CPU, memory and disk on a single registered host. This is a storage
/// primitive, not a scheduler: an authenticated host registration and
/// operator-verified image compatibility are prerequisites at the caller.
/// Reauthorization here does not replace a fresh check before dispatch.
/// `allocation` is the identity that a new reservation takes.
pub fn reserve_create(
    rows: &PlacementRows,
    host: HostId,
    expected_epoch: i64,
    revision: i64,
    allocation: AllocationId,
) -> (r: Result<ReservationPlan, PlacementError>)
    ensures
        create_reserved(rows, host, expected_epoch, revision, allocation, r),
{
    let op: &OperationRow = match rows.op {
        Some(op) => op,
        None => {
            return Err(PlacementError::LostClaim);
        },
    };
    let sandbox: &SandboxRow = rows.sandbox;
    let owned: bool = match sandbox.active_transition_operation_id {
        Some(id) => id == op.id,
        None => false,
    };
    if !same_text(op.kind.as_str(), "create") || !owned {
        return Err(PlacementError::Reconcile);
    }
    if let Some(id) = sandbox.current_allocation_id {
        return match rows.held {
            None => Err(PlacementError::Reconcile),
            Some(held) => Ok(
                ReservationPlan {
                    reservation: Reservation::Existing(
                        Allocation {
                            id,
                            host_id: held.host_id,
                            generation: held.generation,
                            supervisor_epoch: held.supervisor_epoch,
                        },
                    ),
                    size: None,
                    receipt: None,
                },
            ),
        };
    }
    if same_text(op.status.as_str(), "unknown") || op.attempt_count != 0 || sandbox.generation != 0 || !same_text(
        sandbox.observed_state.as_str(),
        "creating",
    ) || !same_text(sandbox.desired_state.as_str(), "running") {
        return Err(PlacementError::Reconcile);
    }
    let vcpu: i64 = match positive(&sandbox.resources, "vcpu") {
        Ok(n) => n,
        Err(e) => {
            return Err(e);
        },
    };
    let memory_mib: i64 = match positive(&sandbox.resources, "memory_mib") {
        Ok(n) => n,
        Err(e) => {
            return Err(e);
        },
    };
    let disk_mib: i64 = match positive(&sandbox.resources, "disk_mib") {
        Ok(n) => n,
        Err(e) => {
            return Err(e);
        },
    };
    if !supported(vcpu as i128, memory_mib as i128, disk_mib as i128) {
        return Err(PlacementError::InvalidResources);
    }
    let size: Size = Size { vcpu, memory_mib, disk_mib };
    match check_quota(rows.limits, &rows.project_usage, &size) {
        Ok(_) => {},
        Err(e) => {
            return Err(e);
        },
    }
    let capacity: HostCapacity = match rows.host {
        Some(c) => c,
        None => {
            return Err(PlacementError::HostUnavailable);
        },
    };
    if !rows.host_ready {
        return Err(PlacementError::HostUnavailable);
    }
    if !rows.authorized {
        return Err(PlacementError::Unauthorized);
    }
    let used: &Usage = &rows.host_usage;
    if used.vcpu as i128 + vcpu as i128 > capacity.cpu as i128 || used.memory_mib as i128 + memory_mib as i128
        > capacity.memory_mib as i128 || used.disk_mib as i128 + disk_mib as i128 > capacity.disk_mib as i128 {
        return Err(PlacementError::Capacity);
    }
    let mut receipt: Members = Members::new();
    receipt.put("phase", json_text("reserved"));
    receipt.put("allocation_id", json_text(allocation.to_string().as_str()));
    receipt.put("generation", json_integer(1));
    receipt.put("supervisor_epoch", json_integer(expected_epoch));
    receipt.put("claim_revision", json_integer(revision));
    Ok(
        ReservationPlan {
            reservation: Reservation::Reserved(
                Allocation { id: allocation, host_id: host, generation: 1, supervisor_epoch: expected_epoch },
            ),
            size: Some(size),
            receipt: Some(receipt.object()),
        },
    )
}

/// What the write of a reservation may be found to be.
pub open spec fn reservation_written(changed: u64, r: Result<(), PlacementError>) -> bool {
    r == (if changed == 1 {
        Ok::<(), PlacementError>(())
    } else {
        Err(PlacementError::LostClaim)
    })
}

/// The lease is checked again once every lock is held: a reservation whose claim
/// expired meanwhile rolls back whole.
pub fn reserved_write(changed: u64) -> (r: Result<(), PlacementError>)
    ensures
        reservation_written(changed, r),
{
    if changed != 1 {
        return Err(PlacementError::LostClaim);
    }
    Ok(())
}

/// A new reservation fits both the host's capacity and the project's quotas,
/// counting everything that is not released.
pub proof fn reservations_fit(rows: PlacementRows)
    requires
        placement_refusal(rows) is None,
        rows.sandbox.current_allocation_id is None,
    ensures
        requested(rows.sandbox.resources@) is Some,
        rows.host is Some,
        ({
            let size = requested(rows.sandbox.resources@)->0;
            &&& fits(
                size,
                rows.host_usage,
                rows.host->0.cpu as int,
                rows.host->0.memory_mib as int,
                rows.host->0.disk_mib as int,
            )
            &&& rows.project_usage.count < quota(rows.limits@, "sandboxes"@, 25)->0
            &&& fits(
                size,
                rows.project_usage,
                quota(rows.limits@, "vcpu"@, 100)->0 as int,
                quota(rows.limits@, "memory_mib"@, 204800)->0 as int,
                quota(rows.limits@, "disk_mib"@, 1638400)->0 as int,
            )
        }),
{
}

/// A sandbox that is to be placed and asks for a size that is not supported is
/// refused as invalid, whatever the quotas and the host.
pub proof fn unsupported_sizes_are_refused(rows: PlacementRows, op: OperationRow, size: Size)
    requires
        rows.op == Some(&op),
        op.kind@ == "create"@,
        rows.sandbox.active_transition_operation_id == Some(op.id),
        rows.sandbox.current_allocation_id is None,
        unplaced(op, *rows.sandbox),
        integer_of(field(rows.sandbox.resources@, "vcpu"@)) == Some(size.vcpu),
        integer_of(field(rows.sandbox.resources@, "memory_mib"@)) == Some(size.memory_mib),
        integer_of(field(rows.sandbox.resources@, "disk_mib"@)) == Some(size.disk_mib),
        !size_supported(size.vcpu as int, size.memory_mib as int, size.disk_mib as int),
    ensures
        placement_refusal(rows) == Some(PlacementError::InvalidResources),
{
}

/// A new reservation takes a size that every host supports, and the one that the
/// sandbox asked for.
pub proof fn reserved_sizes_are_supported(
    p: ReservationPlan,
    rows: PlacementRows,
    host: HostId,
    epoch: i64,
    revision: i64,
    allocation: AllocationId,
)
    requires
        placement_refusal(rows) is None,
        placed_plan(p, rows, host, epoch, revision, allocation),
        p.reservation is Reserved,
    ensures
        p.size matches Some(size) && size_supported(
            size.vcpu as int,
            size.memory_mib as int,
            size.disk_mib as int,
        ) && integer_of(field(rows.sandbox.resources@, "vcpu"@)) == Some(size.vcpu) && integer_of(
            field(rows.sandbox.resources@, "memory_mib"@),
        ) == Some(size.memory_mib) && integer_of(field(rows.sandbox.resources@, "disk_mib"@)) == Some(size.disk_mib),
{
}

/// A sandbox that has an allocation is never given another, whatever its lease,
/// its caller's authority or the host's capacity.
pub proof fn held_sandboxes_are_not_placed_again(
    p: ReservationPlan,
    rows: PlacementRows,
    host: HostId,
    epoch: i64,
    revision: i64,
    allocation: AllocationId,
)
    requires
        placed_plan(p, rows, host, epoch, revision, allocation),
        rows.sandbox.current_allocation_id is Some,
    ensures
        p.reservation matches Reservation::Existing(a) && Some(a.id) == rows.sandbox.current_allocation_id,
        p.receipt is None,
{
}

} // verus!
