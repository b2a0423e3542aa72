//! Placing a create: what fits where, and what a reservation takes.
use crate::canonical::Json;
use crate::document::{field, integer_of, lemma_pushed_member, number, Doc};
use crate::ids::{id_text, AllocationId, HostId};
use crate::store::placement::{
    create_reserved, limit_read, Allocation, PlacementError, PlacementRows, Reservation, ReservationPlan, Size,
};
use crate::store::rows::{AllocationRow, OperationRow};
use vstd::prelude::*;

verus! {

/// The keys of a reservation's receipt are apart.
proof fn lemma_reservation_words()
    ensures
        "phase"@ != "allocation_id"@,
        "phase"@ != "generation"@,
        "phase"@ != "supervisor_epoch"@,
        "phase"@ != "claim_revision"@,
        "allocation_id"@ != "generation"@,
        "allocation_id"@ != "supervisor_epoch"@,
        "allocation_id"@ != "claim_revision"@,
        "generation"@ != "supervisor_epoch"@,
        "generation"@ != "claim_revision"@,
        "supervisor_epoch"@ != "claim_revision"@,
{
    reveal_strlit("phase");
    reveal_strlit("allocation_id");
    reveal_strlit("generation");
    reveal_strlit("supervisor_epoch");
    reveal_strlit("claim_revision");
    assert("phase"@.len() == 5);
    assert("allocation_id"@.len() == 13);
    assert("generation"@.len() == 10);
    assert("supervisor_epoch"@.len() == 16);
    assert("claim_revision"@.len() == 14);
}

/// The project's limit of this name admits the amount: a limit that is not set is
/// the default, and one that is set is a whole number that is not negative.
pub open spec fn within_limit(limits: Doc, key: Seq<char>, default: i64, amount: int) -> bool {
    match field(limits, key) {
        None => amount <= default,
        Some(v) => integer_of(Some(v)) matches Some(n) && n >= 0 && amount <= n,
    }
}

/// The sizes that a sandbox may ask for: one to four virtual CPUs, 128 MiB to 8 GiB
/// of memory and 64 MiB to 64 GiB of disk.
pub open spec fn size_offered(resources: Doc, size: Size) -> bool {
    &&& integer_of(field(resources, "vcpu"@)) == Some(size.vcpu)
    &&& integer_of(field(resources, "memory_mib"@)) == Some(size.memory_mib)
    &&& integer_of(field(resources, "disk_mib"@)) == Some(size.disk_mib)
    &&& 1 <= size.vcpu <= 4
    &&& 128 <= size.memory_mib <= 8192
    &&& 64 <= size.disk_mib <= 65536
}

/// A reservation stays within its host: what the host has given out and what the
/// reservation takes never exceed the host's CPUs, its memory or its disk.
pub proof fn reservations_stay_within_the_host(
    rows: &PlacementRows,
    host: HostId,
    expected_epoch: i64,
    revision: i64,
    allocation: AllocationId,
    p: ReservationPlan,
)
    requires
        create_reserved(rows, host, expected_epoch, revision, allocation, Ok::<ReservationPlan, PlacementError>(p)),
        p.reservation is Reserved,
    ensures
        p.size matches Some(s) && rows.host matches Some(capacity) && {
            &&& rows.host_usage.vcpu + s.vcpu <= capacity.cpu
            &&& rows.host_usage.memory_mib + s.memory_mib <= capacity.memory_mib
            &&& rows.host_usage.disk_mib + s.disk_mib <= capacity.disk_mib
            &&& rows.host_ready
        },
{
}

/// A reservation stays within its project's limits: twenty-five sandboxes, a hundred
/// CPUs, 200 GiB of memory and 1600 GiB of disk, or what the project sets instead.
pub proof fn reservations_stay_within_the_project(
    rows: &PlacementRows,
    host: HostId,
    expected_epoch: i64,
    revision: i64,
    allocation: AllocationId,
    p: ReservationPlan,
)
    requires
        create_reserved(rows, host, expected_epoch, revision, allocation, Ok::<ReservationPlan, PlacementError>(p)),
        p.reservation is Reserved,
    ensures
        p.size matches Some(s) && {
            &&& within_limit(rows.limits@, "sandboxes"@, 25, rows.project_usage.count + 1)
            &&& within_limit(rows.limits@, "vcpu"@, 100, rows.project_usage.vcpu + s.vcpu)
            &&& within_limit(rows.limits@, "memory_mib"@, 204800, rows.project_usage.memory_mib + s.memory_mib)
            &&& within_limit(rows.limits@, "disk_mib"@, 1638400, rows.project_usage.disk_mib + s.disk_mib)
        },
{
}

/// A claimed create that waits for its first allocation is given one exactly where
/// its size is offered, it stays within the project and the host, the host is ready
/// and the project authorized. The allocation is the new one, on the chosen host and
/// epoch, of the first generation, and of the size that the sandbox asked for.
pub proof fn waiting_creates_are_reserved_where_they_fit(
    rows: &PlacementRows,
    host: HostId,
    expected_epoch: i64,
    revision: i64,
    allocation: AllocationId,
    op: OperationRow,
    s: Size,
    r: Result<ReservationPlan, PlacementError>,
)
    requires
        create_reserved(rows, host, expected_epoch, revision, allocation, r),
        rows.op == Some(&op),
        op.kind@ == "create"@,
        op.status@ != "unknown"@,
        op.attempt_count == 0,
        rows.sandbox.active_transition_operation_id == Some(op.id),
        rows.sandbox.current_allocation_id is None,
        rows.sandbox.generation == 0,
        rows.sandbox.observed_state@ == "creating"@,
        rows.sandbox.desired_state@ == "running"@,
        size_offered(rows.sandbox.resources@, s),
    ensures
        ({
            let in_project = within_limit(rows.limits@, "sandboxes"@, 25, rows.project_usage.count + 1) && within_limit(
                rows.limits@,
                "vcpu"@,
                100,
                rows.project_usage.vcpu + s.vcpu,
            ) && within_limit(rows.limits@, "memory_mib"@, 204800, rows.project_usage.memory_mib + s.memory_mib)
                && within_limit(rows.limits@, "disk_mib"@, 1638400, rows.project_usage.disk_mib + s.disk_mib);
            let on_host = rows.host matches Some(capacity) && rows.host_usage.vcpu + s.vcpu <= capacity.cpu
                && rows.host_usage.memory_mib + s.memory_mib <= capacity.memory_mib && rows.host_usage.disk_mib
                + s.disk_mib <= capacity.disk_mib;
            &&& r is Ok <==> in_project && on_host && rows.host_ready && rows.authorized
            &&& in_project && (rows.host is None || !rows.host_ready) ==> r == Err::<ReservationPlan, PlacementError>(
                PlacementError::HostUnavailable,
            )
            &&& in_project && rows.host is Some && rows.host_ready && !rows.authorized ==> r == Err::<
                ReservationPlan,
                PlacementError,
            >(PlacementError::Unauthorized)
            &&& in_project && rows.host is Some && rows.host_ready && rows.authorized && !on_host ==> r == Err::<
                ReservationPlan,
                PlacementError,
            >(PlacementError::Capacity)
            &&& !in_project ==> r == Err::<ReservationPlan, PlacementError>(PlacementError::Quota) || r == Err::<
                ReservationPlan,
                PlacementError,
            >(PlacementError::InvalidResources)
        }),
        r matches Ok(p) ==> {
            &&& p.reservation == Reservation::Reserved(
                Allocation { id: allocation, host_id: host, generation: 1, supervisor_epoch: expected_epoch },
            )
            &&& p.size == Some(s)
            &&& p.receipt matches Some(d) && {
                &&& field(d@, "phase"@) == Some(Doc::Text("reserved"@))
                &&& field(d@, "allocation_id"@) == Some(Doc::Text(id_text("alc"@, allocation.value)))
                &&& field(d@, "generation"@) == Some(number(1))
                &&& field(d@, "supervisor_epoch"@) == Some(number(expected_epoch as int))
                &&& field(d@, "claim_revision"@) == Some(number(revision as int))
            }
        },
{
    broadcast use lemma_pushed_member;

    lemma_reservation_words();
}

/// Only a size that is offered is ever reserved, and it is the size that the sandbox
/// asked for.
pub proof fn reserved_sizes_are_offered(
    rows: &PlacementRows,
    host: HostId,
    expected_epoch: i64,
    revision: i64,
    allocation: AllocationId,
    p: ReservationPlan,
)
    requires
        create_reserved(rows, host, expected_epoch, revision, allocation, Ok::<ReservationPlan, PlacementError>(p)),
        p.reservation is Reserved,
    ensures
        p.size matches Some(s) && size_offered(rows.sandbox.resources@, s),
{
}

/// A sandbox that has an allocation keeps it: the create goes on with the allocation
/// it has, and nothing new is taken.
pub proof fn placed_creates_keep_their_allocation(
    rows: &PlacementRows,
    host: HostId,
    expected_epoch: i64,
    revision: i64,
    allocation: AllocationId,
    op: OperationRow,
    id: AllocationId,
    held: AllocationRow,
    r: Result<ReservationPlan, PlacementError>,
)
    requires
        create_reserved(rows, host, expected_epoch, revision, allocation, r),
        rows.op == Some(&op),
        op.kind@ == "create"@,
        rows.sandbox.active_transition_operation_id == Some(op.id),
        rows.sandbox.current_allocation_id == Some(id),
        rows.held == Some(&held),
    ensures
        r matches Ok(p) && {
            &&& p.reservation == Reservation::Existing(
                Allocation {
                    id,
                    host_id: held.host_id,
                    generation: held.generation,
                    supervisor_epoch: held.supervisor_epoch,
                },
            )
            &&& p.size is None
            &&& p.receipt is None
        },
{
}

/// Nothing is placed for an operation that is no longer claimed, that is no create,
/// that does not own its sandbox, or that may already have been placed.
pub proof fn only_waiting_creates_are_placed(
    rows: &PlacementRows,
    host: HostId,
    expected_epoch: i64,
    revision: i64,
    allocation: AllocationId,
    r: Result<ReservationPlan, PlacementError>,
)
    requires
        create_reserved(rows, host, expected_epoch, revision, allocation, r),
    ensures
        rows.op is None <==> r == Err::<ReservationPlan, PlacementError>(PlacementError::LostClaim),
        rows.op matches Some(op) ==> {
            let owns = op.kind@ == "create"@ && rows.sandbox.active_transition_operation_id == Some(op.id);
            let fresh = op.status@ != "unknown"@ && op.attempt_count == 0 && rows.sandbox.generation == 0
                && rows.sandbox.observed_state@ == "creating"@ && rows.sandbox.desired_state@ == "running"@;
            let lost = rows.sandbox.current_allocation_id is Some && rows.held is None;
            let stale = rows.sandbox.current_allocation_id is None && !fresh;
            r == Err::<ReservationPlan, PlacementError>(PlacementError::Reconcile) <==> !owns || lost || stale
        },
{
}

/// A project's limit is what it sets, where that is a whole number that is not
/// negative; what is not set is the default.
pub proof fn unset_limits_are_the_default(value: &Json, key: &str, default: i64, r: Result<i64, PlacementError>)
    requires
        limit_read(value, key, default, r),
    ensures
        field(value@, key@) is None ==> r == Ok::<i64, PlacementError>(default),
        field(value@, key@) matches Some(v) ==> match integer_of(Some(v)) {
            Some(n) => if n >= 0 {
                r == Ok::<i64, PlacementError>(n)
            } else {
                r is Err
            },
            None => r is Err,
        },
{
}

} // verus!
