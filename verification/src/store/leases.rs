//! Fenced allocation maintenance, independent of completed customer operations.
use crate::canonical::Json;
use crate::document::{json_integer, json_text, number, Doc, Members};
use crate::idempotency::RequestDigest;
use crate::ids::{id_text, AllocationId, Id, OperationId};
use crate::store::clock::{
    has_passed, lease_allowed, millis, millis_if_any, millis_of, optional_millis, passed, representable, stamp, stamp_of,
};
use crate::store::destroy::{gone, is_gone};
use crate::store::dispatch::DispatchError;
use crate::store::retries::{digest_request, request_digest};
use crate::store::rows::{AllocationRow, SandboxRow};
use crate::supervisor::{
    is_lease_owner, lease_owned_by, AllocationState, LeaseObservation, LeaseOwnership, LeaseRequest,
};
use crate::text::same_text;
use vstd::prelude::*;
use vstd::string::*;

verus! {

#[derive(Debug, Clone, Copy, PartialEq, Eq, Structural)]
pub struct AllocationClaim {
    pub allocation_id: AllocationId,
    pub revision: i64,
}

#[derive(Debug)]
pub enum LeaseAction {
    Renew(LeaseRequest),
    Inspect(LeaseOwnership),
    Cleanup(OperationId),
}

#[derive(Debug, Clone, Copy, PartialEq, Eq, Structural)]
pub enum LeaseResult {
    Renewed,
    Cleanup(OperationId),
}

/// How long an execution lease is extended at a time: thirty seconds.
pub const LEASE_NANOS: i128 = 30000000000;

/// The rows of a maintained allocation. `known` is whether the allocation exists
/// at all; `allocation` is it where the claim is live at its revision and it is
/// running and not released.
pub struct LeaseRows<'a> {
    pub known: bool,
    pub allocation: Option<&'a AllocationRow>,
    pub sandbox: &'a SandboxRow,
    pub host_epoch: i64,
}

/// The allocation is the sandbox's current one, no transition owns the sandbox,
/// and the host's epoch has not gone back.
pub open spec fn maintained(a: AllocationRow, sandbox: SandboxRow, host_epoch: i64) -> bool {
    &&& host_epoch >= a.supervisor_epoch
    &&& sandbox.generation == a.generation
    &&& sandbox.current_allocation_id == Some(a.id)
    &&& sandbox.active_transition_operation_id is None
    &&& sandbox.desired_state@ == "running"@
}

/// Why the rows do not amount to ownership of the lease.
pub open spec fn lease_refusal(rows: LeaseRows) -> Option<DispatchError> {
    if !rows.known {
        Some(DispatchError::Conflict)
    } else {
        match rows.allocation {
            None => Some(DispatchError::LostClaim),
            Some(a) => if !maintained(*a, *rows.sandbox, rows.host_epoch) {
                Some(DispatchError::Conflict)
            } else if a.maintenance_lease_until is None || millis_of(a.maintenance_lease_until->0) is None {
                Some(DispatchError::InvalidData)
            } else {
                None
            },
        }
    }
}

pub open spec fn lease_owner_of(o: LeaseOwnership, a: AllocationRow, revision: i64, expires: i64) -> bool {
    &&& o.host_id@ == id_text("hst"@, a.host_id.value)
    &&& o.project_id@ == id_text("prj"@, a.project_id.value)
    &&& o.sandbox_id@ == id_text("sbx"@, a.sandbox_id.value)
    &&& o.allocation_id@ == id_text("alc"@, a.id.value)
    &&& o.generation == a.generation
    &&& o.supervisor_epoch == a.supervisor_epoch
    &&& o.revision == revision
    &&& o.claim_expires_unix_ms == expires
}

/// Who maintains an allocation under a claim.
pub fn lease_owner(a: &AllocationRow, revision: i64, expires: i64) -> (r: LeaseOwnership)
    ensures
        lease_owner_of(r, *a, revision, expires),
{
    LeaseOwnership {
        host_id: a.host_id.to_string(),
        project_id: a.project_id.to_string(),
        sandbox_id: a.sandbox_id.to_string(),
        allocation_id: a.id.to_string(),
        generation: a.generation,
        supervisor_epoch: a.supervisor_epoch,
        revision,
        claim_expires_unix_ms: expires,
    }
}

/// What a claimed lease may be found to act for.
pub open spec fn lease_found(
    rows: &LeaseRows,
    revision: i64,
    r: Result<LeaseOwnership, DispatchError>,
) -> bool {
    match r {
        Ok(o) => lease_refusal(*rows) is None && lease_owner_of(
            o,
            *rows.allocation->0,
            revision,
            millis_of(rows.allocation->0.maintenance_lease_until->0)->0,
        ),
        Err(e) => lease_refusal(*rows) == Some(e),
    }
}

/// Current ownership of an allocation's lease.
pub fn context(rows: &LeaseRows, revision: i64) -> (r: Result<LeaseOwnership, DispatchError>)
    ensures
        lease_found(rows, revision, r),
{
    if !rows.known {
        return Err(DispatchError::Conflict);
    }
    let a: &AllocationRow = match rows.allocation {
        Some(a) => a,
        None => {
            return Err(DispatchError::LostClaim);
        },
    };
    let current: bool = match rows.sandbox.current_allocation_id {
        Some(id) => id == a.id,
        None => false,
    };
    if rows.host_epoch < a.supervisor_epoch || rows.sandbox.generation != a.generation || !current
        || rows.sandbox.active_transition_operation_id.is_some() || !same_text(
        rows.sandbox.desired_state.as_str(),
        "running",
    ) {
        return Err(DispatchError::Conflict);
    }
    match a.maintenance_lease_until {
        Some(at) => match millis(at) {
            Some(expires) => Ok(lease_owner(a, revision, expires)),
            None => Err(DispatchError::InvalidData),
        },
        None => Err(DispatchError::InvalidData),
    }
}

/// A service-owned destroy, as it is inserted.
pub struct CleanupPlan {
    pub payload: Json,
    pub request_digest: RequestDigest,
    pub idempotency_key: String,
}

pub open spec fn cleanup_payload(reason: Seq<char>, allocation_id: Seq<char>) -> Doc {
    Doc::Object(
        Seq::<(Seq<char>, Doc)>::empty().push(("reason"@, Doc::Text(reason))).push(
            ("allocation_id"@, Doc::Text(allocation_id)),
        ),
    )
}

/// What a cleanup may be planned as.
pub open spec fn cleanup_planned(
    owner: &LeaseOwnership,
    reason: &str,
    operation: OperationId,
    r: CleanupPlan,
) -> bool {
    &&& r.payload@ == cleanup_payload(reason@, owner.allocation_id@)
    &&& r.request_digest.bytes == request_digest("SERVICE"@, "/allocation-cleanup"@, r.payload@)
    &&& r.idempotency_key@ == "service-destroy-"@ + id_text("op"@, operation.value)
}

/// The ordinary service-owned destroy of an allocation, with a key of its own.
pub fn cleanup(owner: &LeaseOwnership, reason: &str, operation: OperationId) -> (r: CleanupPlan)
    ensures
        cleanup_planned(owner, reason, operation, r),
{
    let mut payload: Members = Members::new();
    payload.put("reason", json_text(reason));
    payload.put("allocation_id", json_text(owner.allocation_id.as_str()));
    let payload: Json = payload.object();
    let digest: RequestDigest = digest_request("SERVICE", "/allocation-cleanup", &payload);
    let mut key: String = "service-destroy-".to_owned();
    key.append(operation.to_string().as_str());
    CleanupPlan { payload, request_digest: digest, idempotency_key: key }
}

pub open spec fn owner_field(o: Option<LeaseOwnership>, f: spec_fn(LeaseOwnership) -> Doc) -> Doc {
    match o {
        Some(x) => f(x),
        None => Doc::Null,
    }
}

/// What is retained of a lease observation.
pub open spec fn lease_receipt(o: LeaseObservation) -> Doc {
    Doc::Object(
        Seq::<(Seq<char>, Doc)>::empty().push(
            ("allocation_id"@, owner_field(o.ownership, |x: LeaseOwnership| Doc::Text(x.allocation_id@))),
        ).push(("host_id"@, owner_field(o.ownership, |x: LeaseOwnership| Doc::Text(x.host_id@)))).push(
            ("supervisor_epoch"@, owner_field(o.ownership, |x: LeaseOwnership| number(x.supervisor_epoch as int))),
        ).push(("generation"@, owner_field(o.ownership, |x: LeaseOwnership| number(x.generation as int)))).push(
            ("revision"@, owner_field(o.ownership, |x: LeaseOwnership| number(x.revision as int))),
        ).push(("state"@, number(o.state.number as int))).push(("simulated"@, Doc::Bool(o.simulated))).push(
            ("lease_expires_unix_ms"@, number(o.allocation_expires_unix_ms as int)),
        ).push(("observed_unix_ms"@, number(o.observed_unix_ms as int))),
    )
}

pub fn receipt(o: &LeaseObservation) -> (r: Json)
    ensures
        r@ == lease_receipt(*o),
{
    let mut m: Members = Members::new();
    match &o.ownership {
        Some(x) => {
            m.put("allocation_id", json_text(x.allocation_id.as_str()));
            m.put("host_id", json_text(x.host_id.as_str()));
            m.put("supervisor_epoch", json_integer(x.supervisor_epoch));
            m.put("generation", json_integer(x.generation));
            m.put("revision", json_integer(x.revision));
        },
        None => {
            m.put("allocation_id", Json::Null);
            m.put("host_id", Json::Null);
            m.put("supervisor_epoch", Json::Null);
            m.put("generation", Json::Null);
            m.put("revision", Json::Null);
        },
    }
    m.put("state", json_integer(o.state.number as i64));
    m.put("simulated", Json::Bool(o.simulated));
    m.put("lease_expires_unix_ms", json_integer(o.allocation_expires_unix_ms));
    m.put("observed_unix_ms", json_integer(o.observed_unix_ms));
    m.object()
}

/// What a lease's length may be read as.
pub open spec fn lease_length_read(seconds: u32, r: Result<i32, DispatchError>) -> bool {
    r == (if lease_allowed(seconds) {
        Ok::<i32, DispatchError>(seconds as i32)
    } else {
        Err(DispatchError::InvalidData)
    })
}

/// How long a maintenance claim may be asked for.
pub fn claim_seconds(seconds: u32) -> (r: Result<i32, DispatchError>)
    ensures
        lease_length_read(seconds, r),
{
    if seconds < 1 || seconds > 300 {
        return Err(DispatchError::InvalidData);
    }
    Ok(seconds as i32)
}

/// What maintenance does next.
#[derive(Debug, Clone, Copy)]
pub enum LeaseStep {
    /// Stop through the ordinary service-owned lifecycle.
    Cleanup { reason: &'static str },
    Inspect,
    /// Ask for the lease to run until this stamp.
    Renew { until: i128 },
}

/// The sandbox's deadline has been reached, or a lease already runs past it. A
/// shortened deadline cannot be implemented by extending a lease.
pub open spec fn deadline_exceeded(sandbox: SandboxRow, a: AllocationRow, now: i128) -> bool {
    sandbox.expires_at matches Some(e) && (e <= now || (a.lease_expires_at matches Some(v) && v > e) || (
    a.lease_requested_until matches Some(v) && v > e))
}

/// Policy no longer lets the allocation run.
pub open spec fn execution_revoked(
    a: AllocationRow,
    sandbox: SandboxRow,
    project_status: Seq<char>,
    host_epoch: i64,
    now: i128,
) -> bool {
    host_epoch > a.supervisor_epoch || project_status != "active"@ || deadline_exceeded(sandbox, a, now)
}

/// How far a lease is extended from now: thirty seconds, and not past the
/// sandbox's deadline.
pub open spec fn extension(sandbox: SandboxRow, now: i128) -> int {
    match sandbox.expires_at {
        Some(e) => if e <= now + LEASE_NANOS {
            e as int
        } else {
            now + LEASE_NANOS
        },
        None => now + LEASE_NANOS,
    }
}

/// What a claimed lease may do next.
pub open spec fn lease_prepared(
    a: &AllocationRow,
    sandbox: &SandboxRow,
    project_status: &str,
    host_epoch: i64,
    now: i128,
    r: LeaseStep,
) -> bool {
    match r {
        LeaseStep::Cleanup { reason } => {
            &&& execution_revoked(*a, *sandbox, project_status@, host_epoch, now)
            &&& reason@ == (if host_epoch > a.supervisor_epoch {
                "host_epoch_changed"@
            } else {
                "execution_policy_revoked"@
            })
        },
        LeaseStep::Inspect => {
            &&& !execution_revoked(*a, *sandbox, project_status@, host_epoch, now)
            &&& (a.renewal_pending || a.lease_expires_at is None || passed(a.lease_expires_at, now))
        },
        LeaseStep::Renew { until } => {
            &&& !execution_revoked(*a, *sandbox, project_status@, host_epoch, now)
            &&& !a.renewal_pending
            &&& (a.lease_expires_at matches Some(v) && v > now)
            &&& until == extension(*sandbox, now)
        },
    }
}

/// Decide how to maintain an allocation at the database time `now`.
pub fn prepare_lease(a: &AllocationRow, sandbox: &SandboxRow, project_status: &str, host_epoch: i64, now: i128) -> (r: LeaseStep)
    requires
        representable(now as int),
    ensures
        lease_prepared(a, sandbox, project_status, host_epoch, now, r),
{
    let over: bool = match sandbox.expires_at {
        Some(e) => {
            let confirmed: bool = match a.lease_expires_at {
                Some(v) => v > e,
                None => false,
            };
            let requested: bool = match a.lease_requested_until {
                Some(v) => v > e,
                None => false,
            };
            e <= now || confirmed || requested
        },
        None => false,
    };
    if host_epoch > a.supervisor_epoch {
        return LeaseStep::Cleanup { reason: "host_epoch_changed" };
    }
    if !same_text(project_status, "active") || over {
        return LeaseStep::Cleanup { reason: "execution_policy_revoked" };
    }
    if a.renewal_pending || a.lease_expires_at.is_none() || has_passed(a.lease_expires_at, now) {
        return LeaseStep::Inspect;
    }
    let longest: i128 = now + LEASE_NANOS;
    let until: i128 = match sandbox.expires_at {
        Some(e) => if e <= longest {
            e
        } else {
            longest
        },
        None => longest,
    };
    LeaseStep::Renew { until }
}

/// What a host may be asked to renew.
pub open spec fn renewal_requested(
    owner: LeaseOwnership,
    until: i128,
    r: Result<LeaseRequest, DispatchError>,
) -> bool {
    match r {
        Ok(q) => q.ownership == Some(owner) && Some(q.allocation_expires_unix_ms) == millis_of(until),
        Err(e) => e == DispatchError::InvalidData && millis_of(until) is None,
    }
}

/// The request that a committed extension permits.
pub fn renewal(owner: LeaseOwnership, until: i128) -> (r: Result<LeaseRequest, DispatchError>)
    ensures
        renewal_requested(owner, until, r),
{
    match millis(until) {
        Some(expires) => Ok(LeaseRequest { ownership: Some(owner), allocation_expires_unix_ms: expires }),
        None => Err(DispatchError::InvalidData),
    }
}

/// What comes of a lease observation.
#[derive(Debug, Clone, Copy)]
pub enum LeaseOutcome {
    Renewed { until: i128 },
    Cleanup { reason: &'static str },
}

/// The expiry that a host reports was asked for or confirmed before, does not go
/// back, and is still to come.
pub open spec fn expiry_plausible(observed: i64, requested: Option<i64>, confirmed: Option<i64>, now: i64) -> bool {
    &&& (Some(observed) == requested || Some(observed) == confirmed)
    &&& (confirmed matches Some(previous) ==> observed >= previous)
    &&& observed > now
}

/// Why a readiness report renews nothing, once its owner is right.
pub open spec fn ready_refusal(o: LeaseObservation, a: AllocationRow, now: i128) -> Option<DispatchError> {
    let observed = o.allocation_expires_unix_ms;
    let requested = optional_millis(a.lease_requested_until);
    let confirmed = optional_millis(a.lease_expires_at);
    if requested is None || confirmed is None {
        Some(DispatchError::InvalidData)
    } else if (Some(observed) != requested->0 && Some(observed) != confirmed->0) || (confirmed->0 matches Some(p)
        && observed < p) {
        Some(DispatchError::BadEvidence)
    } else if millis_of(now) is None {
        Some(DispatchError::InvalidData)
    } else if observed <= millis_of(now)->0 || stamp_of(observed) is None {
        Some(DispatchError::BadEvidence)
    } else {
        None
    }
}

/// Why an observation says nothing about the lease.
pub open spec fn lease_observation_refusal(
    o: LeaseObservation,
    owner: LeaseOwnership,
    a: AllocationRow,
    host_epoch: i64,
    now: i128,
) -> Option<DispatchError> {
    if host_epoch != owner.supervisor_epoch {
        Some(DispatchError::Conflict)
    } else if !is_lease_owner(o.ownership, owner) {
        Some(DispatchError::BadEvidence)
    } else if gone(o.state.meaning) {
        None
    } else if o.state.meaning == Some(AllocationState::Ready) {
        ready_refusal(o, a, now)
    } else {
        Some(DispatchError::BadEvidence)
    }
}

/// What a report of a lease may come to.
pub open spec fn lease_observed(
    o: &LeaseObservation,
    owner: &LeaseOwnership,
    a: &AllocationRow,
    sandbox: &SandboxRow,
    project_status: &str,
    host_epoch: i64,
    now: i128,
    r: Result<LeaseOutcome, DispatchError>,
) -> bool {
    match r {
        Ok(LeaseOutcome::Cleanup { reason }) => {
            &&& lease_observation_refusal(*o, *owner, *a, host_epoch, now) is None
            &&& if gone(o.state.meaning) {
                reason@ == "allocation_release_observed"@
            } else {
                &&& reason@ == "execution_policy_revoked"@
                &&& (project_status@ != "active"@ || (sandbox.expires_at matches Some(e) && e < stamp_of(
                    o.allocation_expires_unix_ms,
                )->0))
            }
        },
        Ok(LeaseOutcome::Renewed { until }) => {
            &&& lease_observation_refusal(*o, *owner, *a, host_epoch, now) is None
            &&& o.state.meaning == Some(AllocationState::Ready)
            &&& Some(until) == stamp_of(o.allocation_expires_unix_ms)
            &&& project_status@ == "active"@
            &&& (sandbox.expires_at matches Some(e) ==> e >= until)
        },
        Err(e) => lease_observation_refusal(*o, *owner, *a, host_epoch, now) == Some(e),
    }
}

/// Decide a lease observation at the database time `now`. Simulated evidence was
/// admitted before.
pub fn record_lease_observation(
    o: &LeaseObservation,
    owner: &LeaseOwnership,
    a: &AllocationRow,
    sandbox: &SandboxRow,
    project_status: &str,
    host_epoch: i64,
    now: i128,
) -> (r: Result<LeaseOutcome, DispatchError>)
    ensures
        lease_observed(o, owner, a, sandbox, project_status, host_epoch, now, r),
{
    if host_epoch != owner.supervisor_epoch {
        return Err(DispatchError::Conflict);
    }
    if !lease_owned_by(&o.ownership, owner) {
        return Err(DispatchError::BadEvidence);
    }
    if is_gone(o.state.meaning) {
        return Ok(LeaseOutcome::Cleanup { reason: "allocation_release_observed" });
    }
    match o.state.meaning {
        Some(AllocationState::Ready) => {},
        _ => {
            return Err(DispatchError::BadEvidence);
        },
    }
    let observed: i64 = o.allocation_expires_unix_ms;
    let requested: Option<i64> = match millis_if_any(a.lease_requested_until) {
        Some(m) => m,
        None => {
            return Err(DispatchError::InvalidData);
        },
    };
    let confirmed: Option<i64> = match millis_if_any(a.lease_expires_at) {
        Some(m) => m,
        None => {
            return Err(DispatchError::InvalidData);
        },
    };
    let was_requested: bool = match requested {
        Some(m) => m == observed,
        None => false,
    };
    let was_confirmed: bool = match confirmed {
        Some(m) => m == observed,
        None => false,
    };
    let shortened: bool = match confirmed {
        Some(m) => observed < m,
        None => false,
    };
    if (!was_requested && !was_confirmed) || shortened {
        return Err(DispatchError::BadEvidence);
    }
    match millis(now) {
        Some(m) => {
            if observed <= m {
                return Err(DispatchError::BadEvidence);
            }
        },
        None => {
            return Err(DispatchError::InvalidData);
        },
    }
    let until: i128 = match stamp(observed) {
        Some(t) => t,
        None => {
            return Err(DispatchError::BadEvidence);
        },
    };
    let beyond: bool = match sandbox.expires_at {
        Some(e) => e < until,
        None => false,
    };
    if !same_text(project_status, "active") || beyond {
        return Ok(LeaseOutcome::Cleanup { reason: "execution_policy_revoked" });
    }
    Ok(LeaseOutcome::Renewed { until })
}

/// What a report may be taken for.
pub open spec fn simulation_admitted(
    simulated: bool,
    allow_simulated: bool,
    r: Result<(), DispatchError>,
) -> bool {
    r == (if simulated && !allow_simulated {
        Err::<(), DispatchError>(DispatchError::SimulationDenied)
    } else {
        Ok(())
    })
}

/// Simulated maintenance evidence needs the development opt-in.
pub fn admit_simulated(simulated: bool, allow_simulated: bool) -> (r: Result<(), DispatchError>)
    ensures
        simulation_admitted(simulated, allow_simulated, r),
{
    if simulated && !allow_simulated {
        return Err(DispatchError::SimulationDenied);
    }
    Ok(())
}

/// A lease is never asked for past the sandbox's deadline, nor for more than
/// thirty seconds.
pub proof fn extensions_are_bounded(sandbox: SandboxRow, now: i128)
    ensures
        extension(sandbox, now) <= now + LEASE_NANOS,
        sandbox.expires_at matches Some(e) ==> extension(sandbox, now) <= e,
{
}

/// A renewal never shortens a confirmed lease, and is always of an expiry that
/// was asked for or confirmed before.
pub proof fn renewals_do_not_go_back(o: LeaseObservation, owner: LeaseOwnership, a: AllocationRow, host_epoch: i64, now: i128)
    requires
        o.state.meaning == Some(AllocationState::Ready),
        lease_observation_refusal(o, owner, a, host_epoch, now) is None,
    ensures
        expiry_plausible(
            o.allocation_expires_unix_ms,
            optional_millis(a.lease_requested_until)->0,
            optional_millis(a.lease_expires_at)->0,
            millis_of(now)->0,
        ),
{
}

} // verus!
