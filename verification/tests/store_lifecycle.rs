//! What the store decides on a sandbox's life: admission, placement, dispatch,
//! recovery, leases, destroy and cancel.
use hudson_sandbox::canonical::{canonical_text, Json};
use hudson_sandbox::idempotency::{IdempotencyKey, RequestDigest};
use hudson_sandbox::images::ImageAllowlist;
use hudson_sandbox::store::admission::{
    admit_create_sandbox, existing_operation, is_unique_violation, resolve_existing, resources_document, Admission,
    CreateSandbox, Resources, StoreError,
};
use hudson_sandbox::store::allocation_permits::{
    allocation_launch_permit, allocation_permits_after, check_frontier, check_registration, create_owner,
    record_allocation_registration, IssuedRow,
};
use hudson_sandbox::store::cancel::{
    admit_cancel, admitted_write, cancel_digest, reconcile_cancel, CancelAdmission, CancelDecision, CancelProgress,
    CancelRows,
};
use hudson_sandbox::store::claims::{
    defer_claim, lease_seconds, renew_claim, retry_seconds, ClaimError, OperationKind,
};
use hudson_sandbox::store::clock::{earlier, has_passed, is_timely, millis, millis_if_any, stamp, whole};
use hudson_sandbox::store::destroy::{
    admit_destroy, existing as existing_destroy, is_gone, prepare_destroy, record_destroy_observation,
    DestroyAdmission, DestroyDecision, DestroyRows, DestroySandbox, MAX_STOPS,
};
use hudson_sandbox::store::dispatch::{
    context, create_request, fence, observe_configured_host, observed_write, owned_write, prepare_create_dispatch,
    record_create_observation, reject_undispatched_create, superseded, CreateRejection, CreateStep, DispatchError,
    LifecycleRows,
};
use hudson_sandbox::store::files::{authorized_file_view, file_view, FileAccess, FileRow};
use hudson_sandbox::store::leases::{
    admit_simulated, claim_seconds, cleanup, context as lease_context, prepare_lease, receipt,
    record_lease_observation, renewal, LeaseOutcome, LeaseRows, LeaseStep, LEASE_NANOS,
};
use hudson_sandbox::store::lists::{page, PageLimit, Position};
use hudson_sandbox::store::placement::{
    limit, positive, reserve_create, reserved_write, HostCapacity, PlacementError, PlacementRows, Reservation, Usage,
};
use hudson_sandbox::store::projects::{token_record, ProjectStatus, TokenRow};
use hudson_sandbox::store::provision::{provision_project, ProjectProvision};
use hudson_sandbox::store::recovery::{
    check_previous, is_lifecycle, prepare_previous_allocation, previous_release_parts, record_previous_release,
    record_previous_unknown, PreviousAction,
};
use hudson_sandbox::store::retention::ResponseRetention;
use hudson_sandbox::store::rows::{AllocationRow, OperationRow, PermitRow, RetryRow, SandboxRow};
use hudson_sandbox::supervisor::{
    AllocationState, LeaseObservation, ObservedState, Observation, Ownership, PreviousAllocationObservation,
    Resources as Requested,
};
use hudson_sandbox::token::{TokenHash, TokenKeyId};
use hudson_sandbox::{AllocationId, HostId, Id, OperationId, ProjectId, SandboxId};

const SECOND: i128 = 1_000_000_000;

fn parse(text: &str) -> Json {
    fn json(value: &serde_json::Value) -> Json {
        match value {
            serde_json::Value::Null => Json::Null,
            serde_json::Value::Bool(b) => Json::Bool(*b),
            serde_json::Value::Number(n) => Json::Number(n.to_string()),
            serde_json::Value::String(s) => Json::Text(s.clone()),
            serde_json::Value::Array(items) => Json::List(items.iter().map(json).collect()),
            serde_json::Value::Object(m) => Json::Object(m.iter().map(|(k, v)| (k.clone(), json(v))).collect()),
        }
    }
    json(&serde_json::from_str(text).unwrap())
}
fn value(document: &Json) -> serde_json::Value {
    serde_json::from_str(&canonical_text(document)).unwrap()
}
fn operation(kind: &str, status: &str, phase: Option<&str>) -> OperationRow {
    OperationRow {
        id: OperationId::generate(),
        project_id: ProjectId::generate(),
        sandbox_id: SandboxId::generate(),
        kind: kind.into(),
        status: status.into(),
        phase: phase.map(str::to_owned),
        attempt_count: 0,
        attempt_receipts: Json::List(vec![]),
        payload: Json::Object(vec![]),
        claim_revision: 4,
        execution_allocation_id: None,
        lease_expires_at: Some(50 * SECOND),
        next_retry_at: None,
        completed_at: None,
        payload_compacted_at: None,
        response_expires_at: None,
        output_status: "none".into(),
        output_expires_at: None,
        result: None,
        error: None,
    }
}
fn allocation(op: &OperationRow) -> AllocationRow {
    AllocationRow {
        id: AllocationId::generate(),
        project_id: op.project_id,
        sandbox_id: op.sandbox_id,
        host_id: HostId::generate(),
        generation: 1,
        supervisor_epoch: 2,
        status: "reserved".into(),
        vcpu: 1,
        memory_mib: 128,
        disk_mib: 64,
        released_at: None,
        release_evidence: Json::Null,
        lease_expires_at: Some(100 * SECOND),
        lease_requested_until: None,
        renewal_pending: false,
        maintenance_lease_until: Some(40 * SECOND),
    }
}
fn sandbox(op: &OperationRow, a: Option<&AllocationRow>) -> SandboxRow {
    SandboxRow {
        id: op.sandbox_id,
        desired_state: "running".into(),
        observed_state: "creating".into(),
        observation_simulated: None,
        generation: if a.is_some() { 1 } else { 0 },
        active_transition_operation_id: Some(op.id),
        current_allocation_id: a.map(|a| a.id),
        expires_at: None,
        image_digest: "sha256:x".into(),
        resources: parse(r#"{"vcpu":1,"memory_mib":128,"disk_mib":64}"#),
    }
}
fn owner_rows<'a>(op: &'a OperationRow, s: &'a SandboxRow, a: &'a AllocationRow) -> LifecycleRows<'a> {
    LifecycleRows { op: Some(op), superseded_found: true, sandbox: s, allocation: Some(a), host_epoch: 2 }
}
fn owner_of(op: &OperationRow, a: &AllocationRow) -> Ownership {
    context(&owner_rows(op, &sandbox(op, Some(a)), a), &op.kind, 4, None).unwrap()
}
fn state(meaning: AllocationState) -> ObservedState {
    ObservedState { number: 3, meaning: Some(meaning) }
}
fn observed(owner: &Ownership, meaning: AllocationState) -> Observation {
    Observation {
        ownership: Some(owner.clone()),
        create_operation_id: owner.operation_id.clone(),
        state: state(meaning),
        simulated: false,
        observed_unix_ms: 1000,
        start_count: 1,
    }
}
fn retry(digest: &RequestDigest) -> RetryRow {
    RetryRow {
        id: OperationId::generate(),
        sandbox_id: SandboxId::generate(),
        request_digest: digest.as_bytes().to_vec(),
        digest_version: 1,
        status: "running".into(),
        response_expired: false,
    }
}

#[test]
fn stamps_and_milliseconds_convert_within_their_ranges() {
    assert_eq!(stamp(1500), Some(1_500_000_000));
    assert_eq!(stamp(-1), Some(-1_000_000));
    // Year 9999 and not a second more.
    assert_eq!(stamp(253_402_300_799_999), Some(253_402_300_799_999_000_000));
    assert_eq!(stamp(253_402_300_800_000), None);
    assert_eq!(stamp(i64::MIN), None);
    assert_eq!(millis(1_999_999), Some(1));
    assert_eq!(millis(i128::MAX), None);
    assert_eq!(whole(-1_999_999), -1);
    assert_eq!(millis_if_any(None), Some(None));
    assert_eq!(millis_if_any(Some(2_000_000)), Some(Some(2)));
    assert_eq!(millis_if_any(Some(i128::MAX)), None);
    assert!(has_passed(Some(5), 5) && !has_passed(Some(6), 5) && !has_passed(None, 5));
    assert_eq!(earlier(Some(3), None), Some(3));
    assert_eq!(earlier(Some(3), Some(2)), Some(2));
    // Either of two deadlines ends what both bound.
    for (a, b) in [(Some(3), Some(9)), (Some(9), Some(3)), (None, Some(3)), (None, None)] {
        assert_eq!(has_passed(earlier(a, b), 5), has_passed(a, 5) || has_passed(b, 5));
    }
    assert!(is_timely(1000, 1000, 2000) && is_timely(6000, 1000, 9000) && is_timely(1, 10_001, 2000));
    assert!(!is_timely(6001, 1000, 9000) && !is_timely(0, 0, 1) && !is_timely(2001, 2000, 2000));
    assert!(!is_timely(999, 11_000, 20_000));
}

#[test]
fn claims_are_bounded_and_lost_claims_are_told() {
    assert_eq!(lease_seconds(1), Ok(1));
    assert_eq!(lease_seconds(300), Ok(300));
    assert_eq!(lease_seconds(0), Err(ClaimError::InvalidLease));
    assert_eq!(lease_seconds(301), Err(ClaimError::InvalidLease));
    assert_eq!(retry_seconds(0), Err(ClaimError::InvalidRetryDelay));
    assert!(retry_seconds(1).is_ok());
    assert_eq!(renew_claim(Some(7)), Ok(7));
    assert_eq!(renew_claim(None), Err(ClaimError::LostClaim));
    assert_eq!(defer_claim(1), Ok(()));
    assert_eq!(defer_claim(0), Err(ClaimError::LostClaim));
    let kinds = [
        OperationKind::Create,
        OperationKind::Execute,
        OperationKind::Destroy,
        OperationKind::Cancel,
        OperationKind::FileWrite,
    ];
    assert_eq!(kinds.map(OperationKind::as_str), ["create", "execute", "destroy", "cancel", "file_write"]);
}

fn create(digest: RequestDigest, image: &str) -> CreateSandbox {
    CreateSandbox {
        project_id: ProjectId::generate(),
        key_id: TokenKeyId::from_stored("key".into()),
        idempotency_key: IdempotencyKey::parse("0123456789abcdef").unwrap(),
        request_digest: digest,
        image_digest: image.into(),
        name: None,
        resources: Resources { vcpu: 1, memory_mib: 128, disk_mib: 64 },
        payload: Json::Null,
    }
}

#[test]
fn admission_answers_retries_before_anything_else() {
    let image = format!("sha256:{}", "a".repeat(64));
    let images = ImageAllowlist::new(vec![image.clone()]).unwrap();
    let digest = RequestDigest::from_bytes([1; 32]);
    let (s, o) = (SandboxId::generate(), OperationId::generate());
    match admit_create_sandbox(None, &create(digest, &image), &images, s, o) {
        Ok(Admission::Admitted { sandbox_id, operation_id }) => assert_eq!((sandbox_id, operation_id), (s, o)),
        _ => panic!("not admitted"),
    }
    assert!(matches!(
        admit_create_sandbox(None, &create(digest, "sha256:other"), &images, s, o),
        Ok(Admission::ImageDenied)
    ));
    let old = retry(&digest);
    // The key was used for this very request: the image policy is not asked again.
    match admit_create_sandbox(Some(&old), &create(digest, "sha256:other"), &images, s, o) {
        Ok(Admission::Existing { operation_id, status, .. }) => {
            assert_eq!((operation_id, status.as_str()), (old.id, "running"))
        }
        _ => panic!("not existing"),
    }
    let other = RequestDigest::from_bytes([2; 32]);
    assert!(matches!(
        admit_create_sandbox(Some(&old), &create(other, &image), &images, s, o),
        Ok(Admission::DigestConflict { operation_id }) if operation_id == old.id
    ));
    assert!(matches!(existing_operation(None, &digest), Ok(None)));
    let mut short = retry(&digest);
    short.request_digest.pop();
    assert!(matches!(existing_operation(Some(&short), &digest), Err(StoreError::Corrupt(_))));
    assert!(matches!(resolve_existing(None, &digest), Err(StoreError::Corrupt(_))));
    assert!(matches!(resolve_existing(Some(&old), &digest), Ok(Admission::Existing { .. })));
    assert!(is_unique_violation(Some("23505")));
    assert!(!is_unique_violation(Some("23503")) && !is_unique_violation(None));
    assert_eq!(
        canonical_text(&resources_document(&Resources { vcpu: 1, memory_mib: 128, disk_mib: 64 })),
        r#"{"disk_mib":64,"memory_mib":128,"vcpu":1}"#
    );
}

const NOTHING: Usage = Usage { count: 0, vcpu: 0, memory_mib: 0, disk_mib: 0 };

fn place(change: fn(&mut OperationRow, &mut SandboxRow, &mut Usage, &mut HostCapacity, &mut [bool; 2])) -> Result<(), PlacementError> {
    let mut op = operation("create", "running", Some("admitted"));
    let mut s = sandbox(&op, None);
    let mut used = NOTHING;
    let mut host = HostCapacity { cpu: 4, memory_mib: 8192, disk_mib: 65536 };
    let mut flags = [true, true];
    change(&mut op, &mut s, &mut used, &mut host, &mut flags);
    let limits = parse(r#"{"sandboxes":2}"#);
    let rows = PlacementRows {
        op: Some(&op),
        sandbox: &s,
        held: None,
        limits: &limits,
        project_usage: used,
        host: Some(host),
        host_ready: flags[0],
        authorized: flags[1],
        host_usage: NOTHING,
    };
    reserve_create(&rows, HostId::generate(), 2, 4, AllocationId::generate()).map(|_| ())
}

#[test]
fn placement_reserves_once_within_quota_and_capacity() {
    assert_eq!(place(|_, _, _, _, _| {}), Ok(()));
    assert_eq!(place(|op, _, _, _, _| op.attempt_count = 1), Err(PlacementError::Reconcile));
    assert_eq!(place(|_, s, _, _, _| s.generation = 1), Err(PlacementError::Reconcile));
    assert_eq!(
        place(|_, s, _, _, _| s.resources = parse(r#"{"vcpu":5,"memory_mib":128,"disk_mib":64}"#)),
        Err(PlacementError::InvalidResources)
    );
    assert_eq!(place(|_, _, u, _, _| u.count = 2), Err(PlacementError::Quota));
    assert_eq!(place(|_, _, u, _, _| u.vcpu = 100), Err(PlacementError::Quota));
    assert_eq!(place(|_, _, _, h, _| h.memory_mib = 127), Err(PlacementError::Capacity));
    assert_eq!(place(|_, _, _, _, f| f[0] = false), Err(PlacementError::HostUnavailable));
    assert_eq!(place(|_, _, _, _, f| f[1] = false), Err(PlacementError::Unauthorized));
    assert_eq!(reserved_write(1), Ok(()));
    assert!(reserved_write(0).is_err());
    let document = parse(r#"{"a":3,"b":-1,"c":"x"}"#);
    assert_eq!(positive(&document, "a"), Ok(3));
    assert_eq!(positive(&document, "b"), Err(PlacementError::InvalidResources));
    assert_eq!(limit(&document, "missing", 9), Ok(9));
    assert_eq!(limit(&document, "c", 9), Err(PlacementError::InvalidResources));
}

#[test]
fn placement_takes_exactly_the_supported_sizes() {
    let refused = Err(PlacementError::InvalidResources);
    let mut op = operation("create", "running", Some("admitted"));
    op.attempt_count = 0;
    let limits = parse("{}");
    for (vcpu, memory_mib, disk_mib, supported) in [
        (1, 128, 64, true),
        (4, 8192, 65536, true),
        (1, 127, 64, false),
        (1, 100, 64, false),
        (1, 128, 63, false),
        (0, 128, 64, false),
        (5, 8192, 65536, false),
        (4, 8193, 65536, false),
        (4, 8192, 65537, false),
    ] {
        let mut s = sandbox(&op, None);
        s.resources = parse(&format!("{{\"vcpu\":{vcpu},\"memory_mib\":{memory_mib},\"disk_mib\":{disk_mib}}}"));
        let rows = PlacementRows {
            op: Some(&op),
            sandbox: &s,
            held: None,
            limits: &limits,
            project_usage: NOTHING,
            host: Some(HostCapacity { cpu: 64, memory_mib: 1 << 20, disk_mib: 1 << 20 }),
            host_ready: true,
            authorized: true,
            host_usage: NOTHING,
        };
        let reserved = reserve_create(&rows, HostId::generate(), 2, 4, AllocationId::generate());
        if supported {
            let size = reserved.unwrap().size.unwrap();
            assert_eq!((size.vcpu, size.memory_mib, size.disk_mib), (vcpu, memory_mib, disk_mib));
        } else {
            assert_eq!(reserved.map(|_| ()), refused);
        }
    }
}

#[test]
fn a_held_allocation_is_returned_not_replaced() {
    let op = operation("create", "running", Some("reserved"));
    let a = allocation(&op);
    let s = sandbox(&op, Some(&a));
    let limits = parse("{}");
    let mut rows = PlacementRows {
        op: Some(&op),
        sandbox: &s,
        held: Some(&a),
        limits: &limits,
        project_usage: NOTHING,
        host: None,
        host_ready: false,
        authorized: false,
        host_usage: NOTHING,
    };
    let plan = reserve_create(&rows, a.host_id, 2, 4, AllocationId::generate()).unwrap();
    assert!(matches!(plan.reservation, Reservation::Existing(x) if x.id == a.id));
    assert!(plan.size.is_none() && plan.receipt.is_none());
    rows.op = None;
    assert!(matches!(
        reserve_create(&rows, a.host_id, 2, 4, AllocationId::generate()),
        Err(PlacementError::LostClaim)
    ));
}

#[test]
fn current_ownership_needs_a_live_claim_and_a_current_allocation() {
    let op = operation("create", "running", None);
    let a = allocation(&op);
    let s = sandbox(&op, Some(&a));
    let owner = context(&owner_rows(&op, &s, &a), "create", 4, None).unwrap();
    assert_eq!(owner.host_id, a.host_id.to_string());
    assert_eq!((owner.claim_revision, owner.claim_expires_unix_ms, owner.supervisor_epoch), (4, 50_000, 2));
    let refused = |rows: &LifecycleRows, kind: &str, reporting: Option<i64>| context(rows, kind, 4, reporting).err();
    let mut rows = owner_rows(&op, &s, &a);
    assert_eq!(refused(&rows, "destroy", None), Some(DispatchError::Conflict));
    rows.host_epoch = 3;
    assert_eq!(refused(&rows, "create", None), Some(DispatchError::Conflict));
    assert_eq!(refused(&rows, "create", Some(3)), None);
    rows.allocation = None;
    assert_eq!(refused(&rows, "create", None), Some(DispatchError::Conflict));
    rows.op = None;
    assert_eq!(refused(&rows, "create", None), Some(DispatchError::LostClaim));
    let mut unleased = operation("create", "running", None);
    unleased.lease_expires_at = None;
    let s = sandbox(&unleased, Some(&a));
    assert_eq!(refused(&owner_rows(&unleased, &s, &a), "create", None), Some(DispatchError::InvalidData));
    let id = OperationId::generate();
    let text = format!("{{\"supersedes_operation_id\":\"{}\"}}", uuid::Uuid::from_u128(id.uuid()));
    assert_eq!(superseded(&parse(&text)), Ok(Some(id)));
    assert_eq!(superseded(&parse("{}")), Ok(None));
    assert_eq!(superseded(&parse(r#"{"supersedes_operation_id":"x"}"#)), Err(DispatchError::InvalidData));
    assert_eq!(fence(false), Err(DispatchError::LostClaim));
    assert_eq!(owned_write(1), Ok(()));
    assert_eq!(owned_write(0), Err(DispatchError::LostClaim));
    assert_eq!(observed_write(0, true), Err(DispatchError::BadEvidence));
    assert_eq!(observed_write(0, false), Err(DispatchError::LostClaim));
    assert!(observe_configured_host(0).is_err() && observe_configured_host(1).is_ok());
}

#[test]
fn a_create_is_dispatched_at_most_once() {
    let mut op = operation("create", "running", Some("reserved"));
    let a = allocation(&op);
    let s = sandbox(&op, Some(&a));
    let owner = owner_of(&op, &a);
    let images = vec!["sha256:x".to_owned()];
    let step = |op: &OperationRow, authorized, images: &Vec<String>, ready| {
        prepare_create_dispatch(op, &s, &a, &owner, authorized, images, ready)
    };
    match step(&op, true, &images, true).unwrap() {
        CreateStep::Dispatch { resources, intent } => {
            assert_eq!(resources, Requested { vcpu: 1, memory_mib: 128, disk_mib: 64 });
            let intent = value(&intent);
            assert_eq!(intent["phase"], "create_dispatch_intent");
            assert_eq!(intent["operation_id"], owner.operation_id.as_str());
            assert!(intent["simulated"].is_null());
            let q = create_request(owner.clone(), "sha256:x", resources, 60 * SECOND).unwrap();
            assert_eq!((q.allocation_expires_unix_ms, q.resources), (60_000, Some(resources)));
        }
        CreateStep::Inspect => panic!("inspected"),
    }
    assert_eq!(step(&op, false, &images, true).err(), Some(DispatchError::Unauthorized));
    assert_eq!(step(&op, true, &vec![], true).err(), Some(DispatchError::ImageDenied));
    assert_eq!(step(&op, true, &images, false).err(), Some(DispatchError::HostUnavailable));
    op.phase = Some("admitted".into());
    assert_eq!(step(&op, true, &images, true).err(), Some(DispatchError::Conflict));
    // A committed intent is only ever inspected, whatever policy says by now.
    op.attempt_count = 1;
    assert!(matches!(step(&op, false, &vec![], false), Ok(CreateStep::Inspect)));
}

#[test]
fn only_matching_fresh_evidence_completes_a_create() {
    let op = operation("create", "unknown", None);
    let a = allocation(&op);
    let owner = owner_of(&op, &a);
    let ready = observed(&owner, AllocationState::Ready);
    let done = record_create_observation(&ready, false, &owner, 1, true, true).unwrap();
    assert_eq!((done.ready, done.status, done.phase), (true, "succeeded", "ready"));
    assert_eq!(value(&done.receipt)["start_count"], 1);
    assert_eq!(value(done.result.as_ref().unwrap())["sandbox_id"], owner.sandbox_id.as_str());
    let gone = observed(&owner, AllocationState::Released);
    let done = record_create_observation(&gone, false, &owner, 1, true, false).unwrap();
    assert_eq!((done.ready, done.status, done.phase), (false, "failed", "released_before_completion"));
    let refused = |o: &Observation, attempts, fresh, lease| {
        record_create_observation(o, false, &owner, attempts, fresh, lease).err()
    };
    assert_eq!(refused(&ready, 1, true, false), Some(DispatchError::BadEvidence));
    assert_eq!(refused(&ready, 1, false, true), Some(DispatchError::BadEvidence));
    assert_eq!(refused(&ready, 2, true, true), Some(DispatchError::BadEvidence));
    assert_eq!(refused(&observed(&owner, AllocationState::Other), 1, true, true), Some(DispatchError::BadEvidence));
    let mut foreign = observed(&owner, AllocationState::Ready);
    foreign.ownership.as_mut().unwrap().generation = 9;
    assert_eq!(refused(&foreign, 1, true, true), Some(DispatchError::BadEvidence));
    let mut simulated = observed(&owner, AllocationState::Ready);
    simulated.simulated = true;
    assert_eq!(refused(&simulated, 1, true, true), Some(DispatchError::SimulationDenied));
    assert!(record_create_observation(&simulated, true, &owner, 1, true, true).is_ok());
}

#[test]
fn undispatched_creates_are_rejected_with_their_reason() {
    let op = operation("create", "running", Some("reserved"));
    let s = sandbox(&op, None);
    let done = reject_undispatched_create(Some(&op), &s, true, 4, CreateRejection::ImageDenied).unwrap();
    assert_eq!(value(&done.receipt)["phase"], "rejected_before_dispatch");
    assert_eq!(value(&done.receipt)["dispatch_intent_absent"], true);
    assert_eq!(value(&done.error)["code"], CreateRejection::ImageDenied.code());
    assert_eq!(CreateRejection::Unauthorized.code(), "authorization_revoked");
    assert_eq!(
        reject_undispatched_create(None, &s, true, 4, CreateRejection::Unauthorized).err(),
        Some(DispatchError::Conflict)
    );
    let mut dispatched = operation("create", "running", Some("reserved"));
    dispatched.attempt_count = 1;
    let s = sandbox(&dispatched, None);
    assert!(reject_undispatched_create(Some(&dispatched), &s, true, 4, CreateRejection::Unauthorized).is_err());
}

fn destroy(s: SandboxId) -> DestroySandbox {
    DestroySandbox {
        project_id: ProjectId::generate(),
        sandbox_id: s,
        key_id: TokenKeyId::from_stored("key".into()),
        idempotency_key: IdempotencyKey::parse("0123456789abcdef").unwrap(),
        request_digest: RequestDigest::from_bytes([3; 32]),
        correlation_id: Some("c".into()),
    }
}

#[test]
fn destroy_takes_over_an_uncertain_create_and_nothing_else() {
    let create = operation("create", "unknown", None);
    let a = allocation(&create);
    let s = sandbox(&create, Some(&a));
    let operation_id = OperationId::generate();
    let decide = |rows: &DestroyRows| admit_destroy(rows, &destroy(s.id), operation_id);
    let rows = DestroyRows {
        discovered: Some(Some(create.id)),
        previous: Some(&create),
        sandbox: Some(&s),
        authorized: true,
    };
    match decide(&rows).unwrap() {
        DestroyDecision::Admit(p) => {
            assert_eq!((p.immediate, p.status, p.observed_state), (false, "queued", "destroying"));
            assert_eq!(p.active_transition, Some(operation_id));
            let taken = p.superseded.unwrap();
            assert_eq!((taken.id, taken.status), (create.id, "unknown"));
            assert_eq!(value(&p.payload)["correlation_id"], "c");
            assert_eq!(superseded(&p.payload), Ok(Some(create.id)));
        }
        DestroyDecision::Settled(_) => panic!("settled"),
    }
    let running = OperationRow { status: "running".into(), ..operation("create", "running", None) };
    let busy = DestroyRows { previous: Some(&running), ..rows };
    assert!(matches!(
        decide(&busy),
        Ok(DestroyDecision::Settled(DestroyAdmission::Busy(id))) if id == create.id
    ));
    let denied = DestroyRows { discovered: Some(Some(create.id)), previous: Some(&create), sandbox: Some(&s), authorized: false };
    assert!(matches!(decide(&denied), Ok(DestroyDecision::Settled(DestroyAdmission::Unauthorized))));
    let unknown = DestroyRows { discovered: None, previous: None, sandbox: None, authorized: true };
    assert!(matches!(decide(&unknown), Ok(DestroyDecision::Settled(DestroyAdmission::NotFound))));
    let moved = DestroyRows { discovered: Some(None), previous: None, sandbox: Some(&s), authorized: true };
    assert!(matches!(decide(&moved), Ok(DestroyDecision::Settled(DestroyAdmission::Busy(id))) if id == create.id));
}

#[test]
fn destroying_what_is_gone_or_never_was_is_immediate() {
    let create = operation("create", "unknown", None);
    let unallocated = sandbox(&create, None);
    let rows = DestroyRows {
        discovered: Some(Some(create.id)),
        previous: Some(&create),
        sandbox: Some(&unallocated),
        authorized: true,
    };
    match admit_destroy(&rows, &destroy(unallocated.id), OperationId::generate()).unwrap() {
        DestroyDecision::Admit(p) => {
            assert_eq!((p.immediate, p.no_op, p.status), (true, false, "succeeded"));
            assert_eq!(value(p.result.as_ref().unwrap())["never_allocated"], true);
            assert_eq!(p.superseded.unwrap().status, "failed");
        }
        DestroyDecision::Settled(_) => panic!("settled"),
    }
    let mut gone = sandbox(&create, None);
    gone.observed_state = "destroyed".into();
    gone.active_transition_operation_id = None;
    let rows = DestroyRows { discovered: Some(None), previous: None, sandbox: Some(&gone), authorized: true };
    match admit_destroy(&rows, &destroy(gone.id), OperationId::generate()).unwrap() {
        DestroyDecision::Admit(p) => assert!(p.immediate && p.no_op && p.superseded.is_none()),
        DestroyDecision::Settled(_) => panic!("settled"),
    }
    let digest = RequestDigest::from_bytes([3; 32]);
    let mut old = retry(&digest);
    assert!(matches!(
        existing_destroy(Some(&old), &digest),
        Some(DestroyAdmission::Accepted { operation_id, .. }) if operation_id == old.id
    ));
    assert!(matches!(
        existing_destroy(Some(&old), &RequestDigest::from_bytes([4; 32])),
        Some(DestroyAdmission::DigestConflict)
    ));
    old.response_expired = true;
    assert!(matches!(existing_destroy(Some(&old), &digest), Some(DestroyAdmission::ResponseExpired(_))));
    assert!(existing_destroy(None, &digest).is_none());
}

#[test]
fn destroy_stops_boundedly_and_needs_release_evidence() {
    let mut op = operation("destroy", "running", Some("admitted"));
    op.attempt_count = 1;
    let a = allocation(&op);
    let mut s = sandbox(&op, Some(&a));
    s.desired_state = "destroyed".into();
    let owner = owner_of(&op, &a);
    let first = prepare_destroy(&s, 0, false, &owner).unwrap();
    assert!(first.stop);
    assert_eq!(value(&first.intent)["allocation_id"], owner.allocation_id.as_str());
    assert!(!prepare_destroy(&s, 1, false, &owner).unwrap().stop);
    assert!(prepare_destroy(&s, 1, true, &owner).unwrap().stop);
    assert_eq!(prepare_destroy(&s, MAX_STOPS, true, &owner).err(), Some(DispatchError::Conflict));
    assert!(!prepare_destroy(&s, MAX_STOPS, false, &owner).unwrap().stop);
    assert!(is_gone(Some(AllocationState::Released)) && is_gone(Some(AllocationState::FencedAbsent)));
    assert!(!is_gone(Some(AllocationState::Ready)) && !is_gone(None));
    let done = record_destroy_observation(&observed(&owner, AllocationState::Released), false, &owner, &op).unwrap();
    assert_eq!(value(&done.receipt)["phase"], "allocation_released");
    assert!(done.superseded.is_none());
    assert_eq!(
        record_destroy_observation(&observed(&owner, AllocationState::Ready), false, &owner, &op).err(),
        Some(DispatchError::BadEvidence)
    );
}

#[test]
fn cancelling_fences_only_undispatched_commands() {
    let mut target = operation("execute", "queued", Some("admitted"));
    target.execution_allocation_id = Some(AllocationId::generate());
    let digest = cancel_digest(target.id);
    assert!(digest == cancel_digest(target.id) && digest != cancel_digest(OperationId::generate()));
    let decide = |target: Option<&OperationRow>, authorized, old: Option<&RetryRow>, pending| {
        admit_cancel(&CancelRows { target, authorized, old, pending }, &digest)
    };
    match decide(Some(&target), Some(true), None, None) {
        CancelDecision::Admit(p) => assert_eq!(p.sandbox_id, target.sandbox_id),
        CancelDecision::Settled(_) => panic!("settled"),
    }
    assert!(matches!(
        decide(None, Some(true), None, None),
        CancelDecision::Settled(CancelAdmission::NotFound)
    ));
    assert!(matches!(
        decide(Some(&target), Some(false), None, None),
        CancelDecision::Settled(CancelAdmission::Unauthorized)
    ));
    let pending = OperationId::generate();
    assert!(matches!(
        decide(Some(&target), Some(true), None, Some(pending)),
        CancelDecision::Settled(CancelAdmission::Busy(id)) if id == pending
    ));
    let old = retry(&digest);
    assert!(matches!(
        decide(Some(&target), Some(true), Some(&old), None),
        CancelDecision::Settled(CancelAdmission::Accepted { operation_id, .. }) if operation_id == old.id
    ));
    let lifecycle = operation("create", "queued", None);
    assert!(matches!(
        decide(Some(&lifecycle), Some(true), None, None),
        CancelDecision::Settled(CancelAdmission::Unsupported)
    ));
    assert_eq!(admitted_write(1), Ok(()));
    assert!(admitted_write(0).is_err());
    let step = reconcile_cancel(true, Some(&target)).unwrap();
    assert!(step.cancel_target && step.done && step.result.is_some());
    assert!(matches!(step.progress, CancelProgress::Completed));
    target.attempt_count = 1;
    target.status = "running".into();
    let step = reconcile_cancel(true, Some(&target)).unwrap();
    assert!(!step.cancel_target && !step.done);
    assert!(matches!(step.progress, CancelProgress::Pending));
    assert_eq!(reconcile_cancel(false, Some(&target)).err(), Some(DispatchError::LostClaim));
}

#[test]
fn allocations_of_an_earlier_epoch_are_reconciled_not_guessed() {
    assert!(is_lifecycle("create") && is_lifecycle("destroy") && !is_lifecycle("execute"));
    assert_eq!(check_previous(1, Some("create")), Ok(()));
    assert!(check_previous(0, Some("create")).is_err() && check_previous(1, Some("execute")).is_err());
    let mut op = operation("create", "unknown", Some("reconciling_previous_epoch"));
    op.attempt_count = 1;
    let a = allocation(&op);
    let s = sandbox(&op, Some(&a));
    let owner = owner_of(&op, &a);
    let request = match prepare_previous_allocation(&op, &s, owner.clone(), a.host_id, 3).unwrap() {
        PreviousAction::Reconcile(q) => q,
        PreviousAction::RejectUndispatched => panic!("rejected"),
    };
    assert_eq!(request.reporting_epoch, 3);
    assert!(prepare_previous_allocation(&op, &s, owner.clone(), HostId::generate(), 3).is_err());
    assert!(record_previous_unknown(&op, &request, &owner).is_ok());
    let seen = PreviousAllocationObservation {
        request: Some(hudson_sandbox::supervisor::PreviousAllocationRequest {
            ownership: Some(owner.clone()),
            reporting_epoch: 3,
        }),
        release: Some(observed(&owner, AllocationState::Released)),
    };
    let (q, release) = previous_release_parts(&seen, false).unwrap();
    let done = record_previous_release(&op, &s, q, release, &owner).unwrap();
    assert_eq!(done.status, "failed");
    assert_eq!(value(&done.receipt)["reporting_epoch"], 3);
    let empty = PreviousAllocationObservation { request: None, release: None };
    assert!(previous_release_parts(&empty, false).is_err());
    let mut undispatched = operation("create", "running", Some("reserved"));
    undispatched.attempt_count = 0;
    let s = sandbox(&undispatched, Some(&a));
    assert!(matches!(
        prepare_previous_allocation(&undispatched, &s, owner, a.host_id, 3),
        Ok(PreviousAction::RejectUndispatched)
    ));
}

#[test]
fn leases_are_extended_boundedly_and_never_past_the_deadline() {
    let op = operation("create", "succeeded", None);
    let a = allocation(&op);
    let mut s = sandbox(&op, Some(&a));
    s.active_transition_operation_id = None;
    let rows = LeaseRows { known: true, allocation: Some(&a), sandbox: &s, host_epoch: 2 };
    let owner = lease_context(&rows, 6).unwrap();
    assert_eq!((owner.revision, owner.claim_expires_unix_ms), (6, 40_000));
    let now = 30 * SECOND;
    match prepare_lease(&a, &s, "active", 2, now) {
        LeaseStep::Renew { until } => {
            assert_eq!(until, now + LEASE_NANOS);
            let owner = lease_context(&rows, 6).unwrap();
            assert_eq!(renewal(owner, until).unwrap().allocation_expires_unix_ms, 60_000);
        }
        _ => panic!("not renewed"),
    }
    assert!(matches!(
        prepare_lease(&a, &s, "suspended", 2, now),
        LeaseStep::Cleanup { reason: "execution_policy_revoked" }
    ));
    assert!(matches!(
        prepare_lease(&a, &s, "active", 3, now),
        LeaseStep::Cleanup { reason: "host_epoch_changed" }
    ));
    let bounded = SandboxRow { expires_at: Some(110 * SECOND), ..sandbox(&op, Some(&a)) };
    assert!(matches!(
        prepare_lease(&a, &bounded, "active", 2, 95 * SECOND),
        LeaseStep::Renew { until } if until == 110 * SECOND
    ));
    let lapsed = AllocationRow { lease_expires_at: None, ..allocation(&op) };
    assert!(matches!(prepare_lease(&lapsed, &s, "active", 2, now), LeaseStep::Inspect));
    let o = LeaseObservation {
        ownership: Some(lease_context(&rows, 6).unwrap()),
        state: state(AllocationState::Ready),
        simulated: false,
        allocation_expires_unix_ms: 120_000,
        observed_unix_ms: 30_000,
    };
    // Only an expiry that was asked for or confirmed before is believed.
    assert!(matches!(
        record_lease_observation(&o, &owner, &a, &s, "active", 2, now),
        Err(DispatchError::BadEvidence)
    ));
    let asked = AllocationRow { lease_requested_until: Some(120 * SECOND), ..allocation(&op) };
    assert!(matches!(
        record_lease_observation(&o, &owner, &asked, &s, "active", 2, now),
        Ok(LeaseOutcome::Renewed { until }) if until == 120 * SECOND
    ));
    // A report that would shorten the confirmed lease is no evidence.
    let back = LeaseObservation { allocation_expires_unix_ms: 99_000, ..o };
    let shorter = AllocationRow { lease_requested_until: Some(99 * SECOND), ..allocation(&op) };
    assert!(matches!(
        record_lease_observation(&back, &owner, &shorter, &s, "active", 2, now),
        Err(DispatchError::BadEvidence)
    ));
    assert_eq!(value(&receipt(&back))["lease_expires_unix_ms"], 99_000);
    let operation_id = OperationId::generate();
    let plan = cleanup(&owner, "because", operation_id);
    assert_eq!(plan.idempotency_key, format!("service-destroy-{}", operation_id.to_string()));
    assert_eq!(value(&plan.payload)["reason"], "because");
    assert_eq!(claim_seconds(301), Err(DispatchError::InvalidData));
    assert_eq!(admit_simulated(true, false), Err(DispatchError::SimulationDenied));
    assert_eq!(admit_simulated(true, true), Ok(()));
    let lost = LeaseRows { known: true, allocation: None, sandbox: &s, host_epoch: 2 };
    assert_eq!(lease_context(&lost, 6).err(), Some(DispatchError::LostClaim));
}

#[test]
fn permit_batches_are_contiguous_and_for_their_host() {
    let host = HostId::generate();
    let row = |serial: i64| IssuedRow {
        permit: PermitRow {
            host,
            project: ProjectId::generate(),
            sandbox: SandboxId::generate(),
            allocation: AllocationId::generate(),
            create_operation: OperationId::generate(),
            generation: 1,
            original_epoch: 1,
            serial,
        },
        valid: true,
    };
    let batch = allocation_permits_after(host, 3, 5, &vec![row(4), row(5)], false).unwrap();
    assert_eq!((batch.issued_through, batch.permits.len()), (5, 2));
    assert_eq!(batch.permits[0].serial, 4);
    assert!(allocation_permits_after(host, 3, 5, &vec![row(5)], false).is_err());
    assert_eq!(batch.permits[1].host, host);
    assert!(allocation_permits_after(host, 6, 5, &vec![], false).is_err());
    let mut forged = row(4);
    forged.valid = false;
    assert!(allocation_permits_after(host, 3, 5, &vec![forged, row(5)], false).is_err());
    assert!(check_frontier(u64::MAX).is_err() && check_frontier(7).is_ok());
    assert_eq!(check_registration(1, true, 9).unwrap(), 9);
    assert!(check_registration(0, true, 9).is_err());
    assert!(record_allocation_registration(1).is_ok() && record_allocation_registration(0).is_err());
    let op = operation("create", "running", None);
    let a = allocation(&op);
    let owner = owner_of(&op, &a);
    let c = create_owner(&owner).unwrap();
    assert_eq!((c.allocation, c.create_operation), (a.id, op.id));
    let p = allocation_launch_permit(&owner, Some(8)).unwrap().unwrap();
    assert_eq!((p.serial, p.original_epoch, p.host), (8, 2, a.host_id));
    assert!(allocation_launch_permit(&owner, None).unwrap().is_none());
    let mut bad = owner;
    bad.host_id = "hst_x".into();
    assert!(create_owner(&bad).is_err());
}

fn token(status: &str) -> TokenRow {
    TokenRow {
        project_id: ProjectId::generate(),
        project_status: status.into(),
        key_id: "key".into(),
        hash: vec![5; 32],
        expires_at: None,
        revoked_at: None,
    }
}

#[test]
fn stored_tokens_are_read_exactly_or_reported_corrupt() {
    let t = token_record(token("active")).unwrap();
    assert!(matches!(t.project_status, ProjectStatus::Active));
    assert_eq!((t.key_id.as_str(), t.hash.as_bytes()), ("key", &[5; 32]));
    match token_record(token("odd\"one")) {
        Err(StoreError::Corrupt(text)) => assert_eq!(text, "unknown project status \"odd\\\"one\""),
        Ok(_) => panic!("accepted"),
    }
    let mut short = token("suspended");
    short.hash.pop();
    match token_record(short) {
        Err(StoreError::Corrupt(text)) => assert_eq!(text, "stored token hash is not 32 bytes"),
        Ok(_) => panic!("accepted"),
    }
    assert!(matches!(ProjectStatus::from_column("deleting"), Some(ProjectStatus::Deleting)));
    assert!(ProjectStatus::from_column("Active").is_none());
}

#[test]
fn projects_are_provisioned_with_a_name_and_a_bounded_key() {
    let p = |name: &str, expires_at| ProjectProvision {
        project: ProjectId::generate(),
        name: name.into(),
        key: TokenKeyId::from_stored("0011223344556677".into()),
        hash: TokenHash::from_bytes([1; 32]),
        created_at: 10 * SECOND,
        expires_at,
    };
    assert!(provision_project(&p("name", 20 * SECOND)).is_ok());
    assert!(provision_project(&p("", 20 * SECOND)).is_err());
    // White space alone is no name, by the standard library's idea of white space.
    assert!(provision_project(&p(" \u{3000}\t", 20 * SECOND)).is_err());
    assert!(provision_project(&p("name", 10 * SECOND)).is_err());
}

#[test]
fn names_of_one_character_are_refused_for_white_space_and_controls_only() {
    let spaces = |c: char| {
        matches!(c, '\u{9}'..='\u{d}' | ' ' | '\u{85}' | '\u{a0}' | '\u{1680}' | '\u{2000}'..='\u{200a}')
            || matches!(c, '\u{2028}' | '\u{2029}' | '\u{202f}' | '\u{205f}' | '\u{3000}')
    };
    let mut p = ProjectProvision {
        project: ProjectId::generate(),
        name: String::new(),
        key: TokenKeyId::from_stored("0011223344556677".into()),
        hash: TokenHash::from_bytes([1; 32]),
        created_at: 0,
        expires_at: SECOND,
    };
    for c in '\0'..=char::MAX {
        p.name.clear();
        p.name.push(c);
        assert_eq!(provision_project(&p).is_err(), spaces(c) || c.is_control(), "{c:?}");
    }
}

#[test]
fn pages_hold_no_more_than_their_limit_and_say_where_they_end() {
    assert!(PageLimit::new(0).is_none() && PageLimit::new(101).is_none());
    let limit = || PageLimit::new(2).unwrap();
    assert_eq!(limit().rows(), 3);
    let position = |n: &u32| Position { created_at: i128::from(*n), id: u128::from(*n) };
    let full = page(vec![9, 8, 7], limit(), position);
    assert_eq!(full.items, [9, 8]);
    assert_eq!(full.next.unwrap().id, 8);
    let last = page(vec![9, 8], limit(), position);
    assert_eq!(last.items, [9, 8]);
    assert!(last.next.is_none());
    // Only one row beyond the limit is ever asked for, so only one is cut.
    let long = page(vec![9, 8, 7, 6], limit(), position);
    assert_eq!(long.items, [9, 8, 7]);
    assert_eq!(long.next.unwrap().id, 7);
    assert!(ResponseRetention::new(0).is_none());
    assert_eq!(ResponseRetention::new(3600).unwrap().seconds(), 3600);
}

#[test]
fn file_views_end_with_their_credential_or_lease() {
    let project = ProjectId::generate();
    let row = FileRow {
        host_id: HostId::generate(),
        supervisor_epoch: 1,
        project_id: project,
        sandbox_id: SandboxId::generate(),
        allocation_id: AllocationId::generate(),
        generation: 1,
        simulated: false,
        lease_expires_at: 100 * SECOND,
        expires_at: None,
    };
    let v = file_view(&row).unwrap();
    assert!(!v.expired(99 * SECOND) && v.expired(100 * SECOND));
    let mut stored = token("active");
    stored.project_id = project;
    stored.expires_at = Some(50 * SECOND);
    let t = token_record(stored).unwrap();
    let look = |hash: [u8; 32], row: Option<&FileRow>, now| {
        authorized_file_view(
            Some(&t),
            project,
            &TokenKeyId::from_stored("key".into()),
            &TokenHash::from_bytes(hash),
            SECOND,
            row,
            now,
        )
    };
    match look([5; 32], Some(&row), 2 * SECOND) {
        Ok(FileAccess::Ready(view)) => {
            assert!(view.expired(50 * SECOND) && !view.expired(49 * SECOND));
            assert!(view.same_binding(&v));
        }
        _ => panic!("not ready"),
    }
    assert!(matches!(look([6; 32], Some(&row), 2 * SECOND), Ok(FileAccess::Unauthorized)));
    assert!(matches!(look([5; 32], None, 2 * SECOND), Ok(FileAccess::NotFound)));
    assert!(file_view(&FileRow { generation: 0, ..row }).is_err());
}
