//! Keeping an allocation running: when its lease is renewed, and when it is cleaned
//! up.
use crate::document::{field, lemma_pushed_member, number, Doc};
use crate::ids::{id_text, OperationId};
use crate::store::clock::{delay_allowed, lease_allowed};
use crate::store::dispatch::DispatchError;
use crate::store::leases::{
    cleanup_planned, lease_found, lease_observed, lease_prepared, lease_receipt, renewal_requested, simulation_admitted,
    CleanupPlan, LeaseOutcome, LeaseRows, LeaseStep,
};
use crate::store::retries::request_digest;
use crate::store::rows::{AllocationRow, SandboxRow};
use crate::supervisor::{is_lease_owner, AllocationState, LeaseObservation, LeaseOwnership, LeaseRequest};
use vstd::prelude::*;

verus! {

/// The keys of each of a lease's documents are apart.
proof fn lemma_lease_words()
    ensures
        "reason"@ != "allocation_id"@,
        "allocation_id"@ != "host_id"@,
        "allocation_id"@ != "supervisor_epoch"@,
        "allocation_id"@ != "generation"@,
        "allocation_id"@ != "revision"@,
        "allocation_id"@ != "state"@,
        "allocation_id"@ != "simulated"@,
        "allocation_id"@ != "lease_expires_unix_ms"@,
        "allocation_id"@ != "observed_unix_ms"@,
        "host_id"@ != "supervisor_epoch"@,
        "host_id"@ != "generation"@,
        "host_id"@ != "revision"@,
        "host_id"@ != "state"@,
        "host_id"@ != "simulated"@,
        "host_id"@ != "lease_expires_unix_ms"@,
        "host_id"@ != "observed_unix_ms"@,
        "supervisor_epoch"@ != "generation"@,
        "supervisor_epoch"@ != "revision"@,
        "supervisor_epoch"@ != "state"@,
        "supervisor_epoch"@ != "simulated"@,
        "supervisor_epoch"@ != "lease_expires_unix_ms"@,
        "supervisor_epoch"@ != "observed_unix_ms"@,
        "generation"@ != "revision"@,
        "generation"@ != "state"@,
        "generation"@ != "simulated"@,
        "generation"@ != "lease_expires_unix_ms"@,
        "generation"@ != "observed_unix_ms"@,
        "revision"@ != "state"@,
        "revision"@ != "simulated"@,
        "revision"@ != "lease_expires_unix_ms"@,
        "revision"@ != "observed_unix_ms"@,
        "state"@ != "simulated"@,
        "state"@ != "lease_expires_unix_ms"@,
        "state"@ != "observed_unix_ms"@,
        "simulated"@ != "lease_expires_unix_ms"@,
        "simulated"@ != "observed_unix_ms"@,
        "lease_expires_unix_ms"@ != "observed_unix_ms"@,
{
    reveal_strlit("reason");
    reveal_strlit("allocation_id");
    reveal_strlit("host_id");
    reveal_strlit("supervisor_epoch");
    reveal_strlit("generation");
    reveal_strlit("revision");
    reveal_strlit("state");
    reveal_strlit("simulated");
    reveal_strlit("lease_expires_unix_ms");
    reveal_strlit("observed_unix_ms");
    assert("reason"@.len() == 6);
    assert("allocation_id"@.len() == 13);
    assert("host_id"@.len() == 7);
    assert("supervisor_epoch"@.len() == 16);
    assert("generation"@.len() == 10);
    assert("revision"@.len() == 8);
    assert("state"@.len() == 5);
    assert("simulated"@.len() == 9);
    assert("lease_expires_unix_ms"@.len() == 21);
    assert("observed_unix_ms"@.len() == 16);
    assert("supervisor_epoch"@[0] != "observed_unix_ms"@[0]);
}

/// A report names exactly this maintainer of a lease.
pub open spec fn lease_reports_for(o: Option<LeaseOwnership>, owner: LeaseOwnership) -> bool {
    o matches Some(x) && {
        &&& x.host_id@ == owner.host_id@
        &&& x.project_id@ == owner.project_id@
        &&& x.sandbox_id@ == owner.sandbox_id@
        &&& x.allocation_id@ == owner.allocation_id@
        &&& x.generation == owner.generation
        &&& x.supervisor_epoch == owner.supervisor_epoch
        &&& x.revision == owner.revision
        &&& x.claim_expires_unix_ms == owner.claim_expires_unix_ms
    }
}

/// Only a report that names the maintainer in every field is the maintainer's.
pub proof fn lease_owners_agree_in_every_field(o: Option<LeaseOwnership>, owner: LeaseOwnership)
    ensures
        is_lease_owner(o, owner) <==> lease_reports_for(o, owner),
{
}

/// A lease may be held for one second to five minutes, and a retry put off for one
/// second to an hour.
pub proof fn claims_are_short(seconds: u32)
    ensures
        lease_allowed(seconds) <==> seconds >= 1 && seconds <= 300,
        delay_allowed(seconds) <==> seconds >= 1 && seconds <= 3600,
{
}

/// A claimed lease acts for an allocation exactly where the allocation is known and
/// still the sandbox's own at its generation, nothing else is changing the sandbox,
/// it is wanted running, and the host has not gone back behind the allocation's
/// epoch; the maintainer is made of the rows' own identities and the claim.
pub proof fn leases_act_for_the_running_allocation(
    rows: &LeaseRows,
    revision: i64,
    a: AllocationRow,
    until: i128,
    r: Result<LeaseOwnership, DispatchError>,
)
    requires
        lease_found(rows, revision, r),
        rows.allocation == Some(&a),
        a.maintenance_lease_until == Some(until),
        0 <= until <= 9223372036854775807 * 1000000,
    ensures
        r is Ok <==> rows.known && rows.host_epoch >= a.supervisor_epoch && rows.sandbox.generation == a.generation
            && rows.sandbox.current_allocation_id == Some(a.id) && rows.sandbox.active_transition_operation_id is None
            && rows.sandbox.desired_state@ == "running"@,
        r is Err ==> r == Err::<LeaseOwnership, DispatchError>(DispatchError::Conflict),
        r matches Ok(o) ==> {
            &&& o.host_id@ == id_text("hst"@, a.host_id.value)
            &&& o.project_id@ == id_text("prj"@, a.project_id.value)
            &&& o.sandbox_id@ == id_text("sbx"@, a.sandbox_id.value)
            &&& o.allocation_id@ == id_text("alc"@, a.id.value)
            &&& o.generation == a.generation
            &&& o.supervisor_epoch == a.supervisor_epoch
            &&& o.revision == revision
            &&& o.claim_expires_unix_ms * 1000000 <= until < o.claim_expires_unix_ms * 1000000 + 1000000
        },
{
}

/// A lease whose claim is gone acts for nothing.
pub proof fn lost_lease_claims_act_for_nothing(
    rows: &LeaseRows,
    revision: i64,
    r: Result<LeaseOwnership, DispatchError>,
)
    requires
        lease_found(rows, revision, r),
    ensures
        rows.known && rows.allocation is None <==> r == Err::<LeaseOwnership, DispatchError>(DispatchError::LostClaim),
        rows.allocation matches Some(a) ==> (a.maintenance_lease_until is None ==> r is Err),
{
}

/// An allocation whose host has moved on, whose project is not active, or whose
/// sandbox has reached its end or holds a lease past it, is cleaned up, and for that
/// reason.
pub proof fn revoked_allocations_are_cleaned_up(
    a: &AllocationRow,
    sandbox: &SandboxRow,
    project_status: &str,
    host_epoch: i64,
    now: i128,
    r: LeaseStep,
)
    requires
        lease_prepared(a, sandbox, project_status, host_epoch, now, r),
    ensures
        host_epoch > a.supervisor_epoch ==> (r matches LeaseStep::Cleanup { reason } && reason@
            == "host_epoch_changed"@),
        host_epoch <= a.supervisor_epoch && project_status@ != "active"@ ==> (r matches LeaseStep::Cleanup { reason }
            && reason@ == "execution_policy_revoked"@),
        host_epoch <= a.supervisor_epoch && (sandbox.expires_at matches Some(end) && (end <= now || (
        a.lease_expires_at matches Some(t) && t > end) || (a.lease_requested_until matches Some(t) && t > end))) ==> (
        r matches LeaseStep::Cleanup { reason } && reason@ == "execution_policy_revoked"@),
{
}

/// An allocation that may go on is asked to renew its lease for half a minute from
/// now, and not past its sandbox's end, where its lease lives and no renewal is
/// already on its way; otherwise it is inspected.
pub proof fn living_leases_are_renewed_for_half_a_minute(
    a: &AllocationRow,
    sandbox: &SandboxRow,
    project_status: &str,
    host_epoch: i64,
    now: i128,
    r: LeaseStep,
)
    requires
        lease_prepared(a, sandbox, project_status, host_epoch, now, r),
        host_epoch <= a.supervisor_epoch,
        project_status@ == "active"@,
        sandbox.expires_at matches Some(end) ==> end > now && (a.lease_expires_at matches Some(t) ==> t <= end) && (
        a.lease_requested_until matches Some(t) ==> t <= end),
    ensures
        a.renewal_pending || a.lease_expires_at is None || a.lease_expires_at->0 <= now <==> r is Inspect,
        !a.renewal_pending && a.lease_expires_at is Some && a.lease_expires_at->0 > now ==> (
        r matches LeaseStep::Renew { until } && {
            &&& sandbox.expires_at is None ==> until == now + 30000000000
            &&& sandbox.expires_at matches Some(end) ==> until == now + 30000000000 || until == end
            &&& sandbox.expires_at matches Some(end) ==> until <= end
            &&& until <= now + 30000000000
            &&& until > now
        }),
{
}

/// What a host is asked to renew is the maintainer's allocation, until the stamp in
/// whole milliseconds.
pub proof fn renewals_ask_for_the_stamp(owner: LeaseOwnership, until: i128, r: Result<LeaseRequest, DispatchError>)
    requires
        renewal_requested(owner, until, r),
        0 <= until <= 9223372036854775807 * 1000000,
    ensures
        r matches Ok(q) && q.ownership == Some(owner) && q.allocation_expires_unix_ms * 1000000 <= until
            < q.allocation_expires_unix_ms * 1000000 + 1000000,
{
}

/// A report that the allocation is gone, from the maintainer at the host's own epoch,
/// leads to its cleanup; one that names another maintainer or comes of another epoch
/// counts for nothing.
pub proof fn observed_releases_are_cleaned_up(
    o: &LeaseObservation,
    owner: &LeaseOwnership,
    a: &AllocationRow,
    sandbox: &SandboxRow,
    project_status: &str,
    host_epoch: i64,
    now: i128,
    r: Result<LeaseOutcome, DispatchError>,
)
    requires
        lease_observed(o, owner, a, sandbox, project_status, host_epoch, now, r),
    ensures
        host_epoch != owner.supervisor_epoch ==> r == Err::<LeaseOutcome, DispatchError>(DispatchError::Conflict),
        host_epoch == owner.supervisor_epoch && !lease_reports_for(o.ownership, *owner) ==> r == Err::<
            LeaseOutcome,
            DispatchError,
        >(DispatchError::BadEvidence),
        host_epoch == owner.supervisor_epoch && lease_reports_for(o.ownership, *owner) && (o.state.meaning == Some(
            AllocationState::Released,
        ) || o.state.meaning == Some(AllocationState::FencedAbsent)) ==> (r matches Ok(LeaseOutcome::Cleanup { reason })
            && reason@ == "allocation_release_observed"@),
        r is Ok ==> host_epoch == owner.supervisor_epoch && lease_reports_for(o.ownership, *owner) && (o.state.meaning
            == Some(AllocationState::Released) || o.state.meaning == Some(AllocationState::FencedAbsent)
            || o.state.meaning == Some(AllocationState::Ready)),
{
    lease_owners_agree_in_every_field(o.ownership, *owner);
}

/// The stamp lies in this millisecond.
pub open spec fn in_millisecond(stamp: Option<i128>, millis: i64) -> bool {
    stamp matches Some(t) && millis * 1000000 <= t < millis * 1000000 + 1000000
}

/// A report that the allocation is ready confirms a lease exactly where it reports
/// the end that was asked for or the one that was confirmed before, does not go back,
/// and has not passed; the allocation goes on until then where its project is active
/// and its sandbox lasts as long, and is cleaned up otherwise.
pub proof fn confirmed_leases_run_until_the_reported_end(
    o: &LeaseObservation,
    owner: &LeaseOwnership,
    a: &AllocationRow,
    sandbox: &SandboxRow,
    project_status: &str,
    host_epoch: i64,
    now: i128,
    r: Result<LeaseOutcome, DispatchError>,
)
    requires
        lease_observed(o, owner, a, sandbox, project_status, host_epoch, now, r),
        host_epoch == owner.supervisor_epoch,
        lease_reports_for(o.ownership, *owner),
        o.state.meaning == Some(AllocationState::Ready),
        0 <= now <= 253402300799999999999,
        a.lease_requested_until matches Some(t) ==> 0 <= t <= 253402300799999999999,
        a.lease_expires_at matches Some(t) ==> 0 <= t <= 253402300799999999999,
        o.allocation_expires_unix_ms > 0,
    ensures
        ({
            let end = o.allocation_expires_unix_ms;
            let known = in_millisecond(a.lease_requested_until, end) || in_millisecond(a.lease_expires_at, end);
            let forward = a.lease_expires_at matches Some(t) ==> t < end * 1000000 + 1000000;
            let ahead = end * 1000000 > now - now % 1000000;
            let lasts = project_status@ == "active"@ && (sandbox.expires_at matches Some(t) ==> t >= end * 1000000);
            &&& r is Ok <==> known && forward && ahead
            &&& r is Ok && lasts <==> (r matches Ok(LeaseOutcome::Renewed { until }) && until == end * 1000000)
            &&& r is Ok && !lasts <==> (r matches Ok(LeaseOutcome::Cleanup { reason }) && reason@
                == "execution_policy_revoked"@)
            &&& r is Err ==> r == Err::<LeaseOutcome, DispatchError>(DispatchError::BadEvidence)
        }),
{
}

/// Simulated reports count only where simulation is allowed.
pub proof fn simulated_reports_need_leave(simulated: bool, allow_simulated: bool, r: Result<(), DispatchError>)
    requires
        simulation_admitted(simulated, allow_simulated, r),
    ensures
        simulated && !allow_simulated <==> r == Err::<(), DispatchError>(DispatchError::SimulationDenied),
        !simulated || allow_simulated <==> r is Ok,
{
}

/// A cleanup is a destroy of its own: it names the allocation and the reason, its
/// digest is that of a service request with this payload, and its key names the
/// operation.
pub proof fn cleanups_name_the_allocation_and_the_reason(
    owner: &LeaseOwnership,
    reason: &str,
    operation: OperationId,
    p: CleanupPlan,
)
    requires
        cleanup_planned(owner, reason, operation, p),
    ensures
        field(p.payload@, "reason"@) == Some(Doc::Text(reason@)),
        field(p.payload@, "allocation_id"@) == Some(Doc::Text(owner.allocation_id@)),
        p.request_digest.bytes == request_digest("SERVICE"@, "/allocation-cleanup"@, p.payload@),
        p.idempotency_key@ == "service-destroy-"@ + id_text("op"@, operation.value),
{
    broadcast use lemma_pushed_member;

    lemma_lease_words();
}

/// What is kept of a lease's report is what was reported: whose allocation, at which
/// claim, the state as it was carried, whether it was simulated, until when, and when
/// it was seen.
pub proof fn lease_receipts_say_what_was_reported(o: LeaseObservation, x: LeaseOwnership)
    requires
        o.ownership == Some(x),
    ensures
        field(lease_receipt(o), "allocation_id"@) == Some(Doc::Text(x.allocation_id@)),
        field(lease_receipt(o), "host_id"@) == Some(Doc::Text(x.host_id@)),
        field(lease_receipt(o), "supervisor_epoch"@) == Some(number(x.supervisor_epoch as int)),
        field(lease_receipt(o), "generation"@) == Some(number(x.generation as int)),
        field(lease_receipt(o), "revision"@) == Some(number(x.revision as int)),
        field(lease_receipt(o), "state"@) == Some(number(o.state.number as int)),
        field(lease_receipt(o), "simulated"@) == Some(Doc::Bool(o.simulated)),
        field(lease_receipt(o), "lease_expires_unix_ms"@) == Some(number(o.allocation_expires_unix_ms as int)),
        field(lease_receipt(o), "observed_unix_ms"@) == Some(number(o.observed_unix_ms as int)),
{
    broadcast use lemma_pushed_member;

    lemma_lease_words();
}

} // verus!
