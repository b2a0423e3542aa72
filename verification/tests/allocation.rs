//! Launch authority and retirement intents.
use hudson_sandbox::allocation_authority::{
    Authority, Entry, Error, Permit, Saved, State, MAX_BATCH, MAX_BYTES, MAX_ENTRIES, MAX_SERIAL,
};
use hudson_sandbox::allocation_retirement::{
    DomainClosure, Error as RetirementError, ForgetRequest, Intent, Request, MAX_BYTES as MAX_INTENT_BYTES,
};
use hudson_sandbox::{AllocationId, HostId, Id, OperationId, ProjectId, SandboxId};
use sha2::Digest;

// A strict reader of the stored encodings: exact fields, none twice.
enum Node {
    Null,
    Flag(bool),
    Number(i128),
    Text(String),
    List(Vec<Node>),
    Members(Vec<(String, Node)>),
}
struct NodeVisitor;
impl<'de> serde::de::Visitor<'de> for NodeVisitor {
    type Value = Node;
    fn expecting(&self, f: &mut std::fmt::Formatter<'_>) -> std::fmt::Result {
        f.write_str("a JSON value")
    }
    fn visit_unit<E: serde::de::Error>(self) -> Result<Node, E> {
        Ok(Node::Null)
    }
    fn visit_bool<E: serde::de::Error>(self, v: bool) -> Result<Node, E> {
        Ok(Node::Flag(v))
    }
    fn visit_i64<E: serde::de::Error>(self, v: i64) -> Result<Node, E> {
        Ok(Node::Number(i128::from(v)))
    }
    fn visit_u64<E: serde::de::Error>(self, v: u64) -> Result<Node, E> {
        Ok(Node::Number(i128::from(v)))
    }
    fn visit_str<E: serde::de::Error>(self, v: &str) -> Result<Node, E> {
        Ok(Node::Text(v.to_owned()))
    }
    fn visit_seq<A: serde::de::SeqAccess<'de>>(self, mut a: A) -> Result<Node, A::Error> {
        let mut items = Vec::new();
        while let Some(item) = a.next_element()? {
            items.push(item);
        }
        Ok(Node::List(items))
    }
    fn visit_map<A: serde::de::MapAccess<'de>>(self, mut a: A) -> Result<Node, A::Error> {
        let mut items = Vec::new();
        while let Some(item) = a.next_entry()? {
            items.push(item);
        }
        Ok(Node::Members(items))
    }
}
impl<'de> serde::Deserialize<'de> for Node {
    fn deserialize<D: serde::Deserializer<'de>>(d: D) -> Result<Node, D::Error> {
        d.deserialize_any(NodeVisitor)
    }
}
fn node(bytes: &[u8]) -> Option<Node> {
    serde_json::from_slice(bytes).ok()
}
impl Node {
    fn members(&self, names: &[&str]) -> Option<Vec<&Node>> {
        let Node::Members(items) = self else { return None };
        if items.len() != names.len() {
            return None;
        }
        names
            .iter()
            .map(|name| {
                let mut found = items.iter().filter(|(key, _)| key == name);
                match (found.next(), found.next()) {
                    (Some((_, value)), None) => Some(value),
                    _ => None,
                }
            })
            .collect()
    }
    fn member(&self, name: &str) -> Option<&Node> {
        let Node::Members(items) = self else { return None };
        items.iter().find(|(key, _)| key == name).map(|(_, value)| value)
    }
    fn text(&self) -> Option<&str> {
        match self {
            Node::Text(t) => Some(t),
            _ => None,
        }
    }
    fn flag(&self) -> Option<bool> {
        match self {
            Node::Flag(b) => Some(*b),
            _ => None,
        }
    }
    fn number<T: TryFrom<i128>>(&self) -> Option<T> {
        match self {
            Node::Number(n) => T::try_from(*n).ok(),
            _ => None,
        }
    }
    fn list(&self) -> Option<&Vec<Node>> {
        match self {
            Node::List(items) => Some(items),
            _ => None,
        }
    }
    fn id<T: Id>(&self) -> Option<T> {
        T::parse(self.text()?).ok()
    }
    fn permit(&self) -> Option<Permit> {
        let m = self.members(&[
            "host",
            "project",
            "sandbox",
            "allocation",
            "create_operation",
            "generation",
            "original_epoch",
            "serial",
        ])?;
        Some(Permit {
            host: m[0].id()?,
            project: m[1].id()?,
            sandbox: m[2].id()?,
            allocation: m[3].id()?,
            create_operation: m[4].id()?,
            generation: m[5].number()?,
            original_epoch: m[6].number()?,
            serial: m[7].number()?,
        })
    }
    fn state(&self) -> Option<State> {
        match self.member("state")?.text()? {
            "active" => {
                self.members(&["state"])?;
                Some(State::Active {})
            }
            "fenced" => {
                let m = self.members(&["state", "retirement"])?;
                Some(State::Fenced { retirement: m[1].id()? })
            }
            "complete" => {
                let m = self.members(&["state", "retirement", "intent_sha256"])?;
                let bytes: Option<Vec<u8>> = m[2].list()?.iter().map(|b| b.number()).collect();
                Some(State::Complete { retirement: m[1].id()?, intent_sha256: bytes?.try_into().ok()? })
            }
            _ => None,
        }
    }
    fn saved(&self) -> Option<Saved> {
        let m = self.members(&["version", "host", "through", "entries"])?;
        let entries: Option<Vec<Entry>> = m[3]
            .list()?
            .iter()
            .map(|e| {
                let e = e.members(&["permit", "state"])?;
                Some(Entry { permit: e[0].permit()?, state: e[1].state()? })
            })
            .collect();
        Some(Saved { version: m[0].number()?, host: m[1].id()?, through: m[2].number()?, entries: entries? })
    }
    fn closure(&self) -> Option<DomainClosure> {
        match self.member("kind")?.text()? {
            "empty" => {
                self.members(&["kind"])?;
                Some(DomainClosure::Empty)
            }
            "retired" => Some(DomainClosure::Retired { through: self.members(&["kind", "through"])?[1].id()? }),
            _ => None,
        }
    }
    fn intent(&self) -> Option<Intent> {
        let m = self.members(&[
            "version",
            "retirement",
            "permit",
            "commands",
            "files",
            "release_evidence_sha256",
            "simulated",
        ])?;
        Some(Intent {
            version: m[0].number()?,
            retirement: m[1].id()?,
            permit: m[2].permit()?,
            commands: m[3].closure()?,
            files: m[4].closure()?,
            release_evidence_sha256: m[5].text()?.to_owned(),
            simulated: m[6].flag()?,
        })
    }
    fn request(&self) -> Option<Request> {
        let m = self.members(&["intent", "reporting_epoch", "revision", "expires_unix_ms"])?;
        Some(Request {
            intent: m[0].intent()?,
            reporting_epoch: m[1].number()?,
            revision: m[2].number()?,
            expires_unix_ms: m[3].number()?,
        })
    }
    fn forget(&self) -> Option<ForgetRequest> {
        let m = self.members(&["version", "claim", "metadata_request"])?;
        Some(ForgetRequest {
            version: m[0].number()?,
            claim: m[1].request()?,
            metadata_request: m[2].request()?,
        })
    }
}
fn decode(bytes: &[u8], host: HostId, minimum_through: u64) -> Result<Authority, Error> {
    Authority::decode(bytes, node(bytes).and_then(|n| n.saved()), host, minimum_through)
}
fn decode_intent(bytes: &[u8]) -> Result<Intent, RetirementError> {
    Intent::decode(bytes, node(bytes).and_then(|n| n.intent()))
}
fn decode_request(bytes: &[u8]) -> Result<Request, RetirementError> {
    Request::decode(bytes, node(bytes).and_then(|n| n.request()))
}

fn permit(host: HostId, serial: u64) -> Permit {
    Permit {
        host,
        project: ProjectId::generate(),
        sandbox: SandboxId::generate(),
        allocation: AllocationId::generate(),
        create_operation: OperationId::generate(),
        generation: 1,
        original_epoch: 1,
        serial,
    }
}
// The one intent that these tests retire a permit with, under an identity.
fn retiring(p: &Permit, retirement: OperationId) -> Intent {
    Intent {
        version: 1,
        retirement,
        permit: *p,
        commands: DomainClosure::Empty,
        files: DomainClosure::Empty,
        release_evidence_sha256: "ab".repeat(32),
        simulated: false,
    }
}
fn reload(a: &Authority) -> Authority {
    decode(&a.encode().unwrap(), a.saved().host, a.through()).unwrap()
}
fn retire(a: &mut Authority, p: &Permit) {
    let retirement = OperationId::generate();
    let intent = retiring(p, retirement);
    a.fence(p, retirement).unwrap();
    *a = reload(a);
    assert_eq!(a.authorize(p), Err(Error::Conflict));
    a.complete(&intent).unwrap();
    *a = reload(a);
    a.forget(&intent).unwrap();
    *a = reload(a);
    assert_eq!(a.authorize(p), Err(Error::Closed));
}

#[test]
fn sustained_reuse_preserves_an_older_live_owner_and_bounded_state() {
    let host = HostId::generate();
    let mut a = Authority::new(host).unwrap();
    let oldest = permit(host, 1);
    a.register(std::slice::from_ref(&oldest)).unwrap();
    for serial in 2..=4097 {
        let p = permit(host, serial);
        a.register(std::slice::from_ref(&p)).unwrap();
        a.authorize(&p).unwrap();
        retire(&mut a, &p);
        a.authorize(&oldest).unwrap();
        assert_eq!(a.retained(), 1);
        assert!(a.encode().unwrap().len() < 1024);
        assert_eq!(a.register(&[p]), Err(Error::Closed));
    }
    assert_eq!(a.through(), 4097);
    a = reload(&a);
    a.authorize(&oldest).unwrap();
    retire(&mut a, &oldest);
    assert_eq!(a.retained(), 0);
    assert_eq!(a.through(), 4097);
}

#[test]
fn full_capacity_reclaims_a_slot_without_moving_or_reopening_the_frontier() {
    let host = HostId::generate();
    let mut a = Authority::new(host).unwrap();
    let all = (1..=MAX_ENTRIES as u64).map(|serial| permit(host, serial)).collect::<Vec<_>>();
    for batch in all.chunks(MAX_BATCH) {
        a.register(batch).unwrap();
    }
    let newer = permit(host, MAX_ENTRIES as u64 + 1);
    let before = a.encode().unwrap();
    assert_eq!(a.register(std::slice::from_ref(&newer)), Err(Error::Capacity));
    assert_eq!(a.encode().unwrap(), before);
    let retired = &all[500];
    let retirement = OperationId::generate();
    let intent = retiring(retired, retirement);
    a.fence(retired, retirement).unwrap();
    a.complete(&intent).unwrap();
    assert_eq!(a.register(std::slice::from_ref(&newer)), Err(Error::Capacity));
    a.forget(&intent).unwrap();
    a.register(std::slice::from_ref(&newer)).unwrap();
    assert_eq!(a.retained(), MAX_ENTRIES);
    a.authorize(&all[0]).unwrap();
    a.authorize(&all[MAX_ENTRIES - 1]).unwrap();
    a.authorize(&newer).unwrap();
    assert_eq!(a.authorize(retired), Err(Error::Closed));
    assert!(a.encode().unwrap().len() < MAX_BYTES);
}

#[test]
fn stored_authorities_tell_every_state_and_owner_apart() {
    let host = HostId::generate();
    let (first, second) = (permit(host, 1), permit(host, 2));
    let mut a = Authority::new(host).unwrap();
    let mut seen = vec![a.encode().unwrap(), Authority::new(HostId::generate()).unwrap().encode().unwrap()];
    a.register(&[first]).unwrap();
    seen.push(a.encode().unwrap());
    a.register(&[second]).unwrap();
    seen.push(a.encode().unwrap());
    for p in [first, second] {
        let retirement = OperationId::generate();
        let mut other = a.clone();
        other.fence(&p, retirement).unwrap();
        seen.push(other.encode().unwrap());
        other.complete(&retiring(&p, retirement)).unwrap();
        seen.push(other.encode().unwrap());
        other.forget(&retiring(&p, retirement)).unwrap();
        seen.push(other.encode().unwrap());
    }
    for (i, bytes) in seen.iter().enumerate() {
        assert!(!seen[..i].contains(bytes));
    }
}

#[test]
fn registration_is_atomic_contiguous_and_does_not_reactivate_retries() {
    let host = HostId::generate();
    let mut a = Authority::new(host).unwrap();
    let first = permit(host, 1);
    let second = permit(host, 2);
    let before = a.encode().unwrap();
    assert_eq!(a.register(std::slice::from_ref(&second)), Err(Error::RegistrationOrder));
    assert_eq!(a.register(&[first, permit(host, 3)]), Err(Error::RegistrationOrder));
    let mut duplicate = second;
    duplicate.allocation = first.allocation;
    assert_eq!(a.register(&[first, duplicate]), Err(Error::Invalid));
    assert_eq!(a.encode().unwrap(), before);
    a.register(&[first, second]).unwrap();
    // Actual launches can arrive in either order after durable registration.
    a.authorize(&second).unwrap();
    a.authorize(&first).unwrap();
    let retirement = OperationId::generate();
    a.fence(&first, retirement).unwrap();
    a.register(&[first, second]).unwrap();
    assert_eq!(a.authorize(&first), Err(Error::Conflict));
    assert_eq!(a.state(&first).unwrap(), &State::Fenced { retirement });
    let before = a.encode().unwrap();
    assert_eq!(a.register(&[second, permit(host, 3)]), Err(Error::Unregistered));
    assert_eq!(a.encode().unwrap(), before);
}

#[test]
fn every_identity_field_is_bound_and_denial_is_not_an_absence_receipt() {
    let host = HostId::generate();
    let p = permit(host, 1);
    let mut a = Authority::new(host).unwrap();
    a.register(std::slice::from_ref(&p)).unwrap();
    for mode in 0..8 {
        let mut wrong = p;
        match mode {
            0 => wrong.host = HostId::generate(),
            1 => wrong.project = ProjectId::generate(),
            2 => wrong.sandbox = SandboxId::generate(),
            3 => wrong.allocation = AllocationId::generate(),
            4 => wrong.create_operation = OperationId::generate(),
            5 => wrong.generation += 1,
            6 => wrong.original_epoch += 1,
            _ => wrong.serial += 1,
        }
        let before = a.encode().unwrap();
        assert!(a.authorize(&wrong).is_err());
        assert!(a.fence(&wrong, OperationId::generate()).is_err());
        assert_eq!(a.encode().unwrap(), before);
    }
    retire(&mut a, &p);
    let unrelated_identity = permit(host, 1);
    // There is no original-owner or release proof left at serial 1. Both
    // requests are denied, not classified as ever having existed or stopped.
    assert_eq!(a.state(&p), Err(Error::Closed));
    assert_eq!(a.state(&unrelated_identity), Err(Error::Closed));
    assert_eq!(a.state(&permit(host, 2)), Err(Error::Unregistered));
}

#[test]
fn retirement_retries_bind_exact_intent_and_cannot_skip_a_durable_stage() {
    let host = HostId::generate();
    let p = permit(host, 1);
    let retirement = OperationId::generate();
    let other = OperationId::generate();
    let intent = retiring(&p, retirement);
    let mut a = Authority::new(host).unwrap();
    a.register(std::slice::from_ref(&p)).unwrap();
    assert_eq!(a.complete(&intent), Err(Error::Conflict));
    assert_eq!(a.forget(&intent), Err(Error::Conflict));
    a.fence(&p, retirement).unwrap();
    a = reload(&a);
    a.fence(&p, retirement).unwrap();
    assert_eq!(a.fence(&p, other), Err(Error::Conflict));
    assert_eq!(a.complete(&retiring(&p, other)), Err(Error::Conflict));
    assert_eq!(a.forget(&intent), Err(Error::Conflict));
    a.complete(&intent).unwrap();
    a = reload(&a);
    // A lost completion response can be replayed without losing the receipt.
    a.fence(&p, retirement).unwrap();
    a.complete(&intent).unwrap();
    assert_eq!(
        a.state(&p).unwrap(),
        &State::Complete { retirement, intent_sha256: intent.digest().unwrap() }
    );
    assert_eq!(a.forget(&retiring(&p, other)), Err(Error::Conflict));
    a.forget(&intent).unwrap();
    a = reload(&a);
    assert_eq!(a.complete(&intent), Err(Error::Closed));
    assert_eq!(a.forget(&intent), Err(Error::Closed));
    assert_eq!(a.register(&[p]), Err(Error::Closed));
}

#[test]
fn malformed_and_rolled_back_storage_is_rejected_without_empty_fallback() {
    let host = HostId::generate();
    let p = permit(host, 1);
    let mut a = Authority::new(host).unwrap();
    a.register(std::slice::from_ref(&p)).unwrap();
    let good = a.encode().unwrap();
    assert!(decode(&good, host, 0).is_ok());
    assert!(decode(&good, HostId::generate(), 0).is_err());
    assert!(decode(&good, host, 2).is_err());
    for mode in 0..15 {
        let mut value: serde_json::Value = serde_json::from_slice(&good).unwrap();
        match mode {
            0 => value["version"] = 2.into(),
            1 => value["through"] = 0.into(),
            2 => value["unknown"] = true.into(),
            3 => value["entries"][0]["permit"]["generation"] = 0.into(),
            4 => value["entries"][0]["permit"]["original_epoch"] = 0.into(),
            5 => value["entries"][0]["permit"]["serial"] = 0.into(),
            6 => value["entries"][0]["permit"]["serial"] = 2.into(),
            7 => value["entries"][0]["permit"]["extra"] = true.into(),
            8 => value["entries"][0]["state"]["state"] = "revived".into(),
            9 => value["entries"][0]["state"]["retirement"] = OperationId::generate().to_string().into(),
            10 => {
                let entry = value["entries"][0].clone();
                value["entries"] = serde_json::Value::Array(vec![entry.clone(), entry]);
            }
            11 => value["entries"][0]["permit"]["host"] = HostId::generate().to_string().into(),
            12 => value["through"] = (MAX_SERIAL + 1).into(),
            13 => value["entries"][0]["state"]["state"] = "fenced".into(),
            _ => {
                value["entries"][0]["permit"]["allocation"] = "alc_00000000-0000-7000-0000-000000000000".into()
            }
        }
        assert!(decode(&serde_json::to_vec(&value).unwrap(), host, 0).is_err(), "mode {mode}");
    }
    assert!(decode(b"", host, 0).is_err());
    assert!(decode(&vec![b' '; MAX_BYTES + 1], host, 0).is_err());
    let text = String::from_utf8(good).unwrap();
    let duplicate = text.replacen("\"version\":1", "\"version\":1,\"version\":1", 1);
    assert!(decode(duplicate.as_bytes(), host, 0).is_err());
}

#[test]
fn serial_exhaustion_never_wraps_and_invalid_batches_leave_state_unchanged() {
    let host = HostId::generate();
    let bytes = format!(
        "{{\"version\":1,\"host\":\"{}\",\"through\":{},\"entries\":[]}}",
        host.to_string(),
        MAX_SERIAL - 1
    )
    .into_bytes();
    let mut a = decode(&bytes, host, MAX_SERIAL - 1).unwrap();
    let last = permit(host, MAX_SERIAL);
    a.register(std::slice::from_ref(&last)).unwrap();
    retire(&mut a, &last);
    let before = a.encode().unwrap();
    assert_eq!(a.register(&[permit(host, MAX_SERIAL + 1)]), Err(Error::Invalid));
    assert_eq!(a.register(&[permit(host, 0)]), Err(Error::Invalid));
    assert_eq!(a.register(&[]), Err(Error::Invalid));
    let batch = (1..=MAX_BATCH as u64 + 1).map(|n| permit(host, n)).collect::<Vec<_>>();
    assert_eq!(a.register(&batch), Err(Error::Invalid));
    assert_eq!(a.encode().unwrap(), before);
}

#[test]
fn duplicate_generations_and_operation_bindings_are_rejected_as_one_batch() {
    let host = HostId::generate();
    for mode in 0..3 {
        let mut a = Authority::new(host).unwrap();
        let p = permit(host, 1);
        a.register(std::slice::from_ref(&p)).unwrap();
        let mut next = permit(host, 2);
        match mode {
            0 => next.allocation = p.allocation,
            1 => next.create_operation = p.create_operation,
            _ => {
                next.sandbox = p.sandbox;
                next.generation = p.generation;
            }
        }
        let before = a.encode().unwrap();
        assert_eq!(a.register(&[next]), Err(Error::Invalid));
        assert_eq!(a.encode().unwrap(), before);
    }
}

#[test]
fn active_owners_are_found_by_allocation_and_other_hosts_are_refused() {
    let host = HostId::generate();
    let p = permit(host, 1);
    let mut a = Authority::new(host).unwrap();
    a.register(&[p]).unwrap();
    assert_eq!(a.active_allocation(p.allocation).unwrap(), &p);
    assert_eq!(a.active_allocation(AllocationId::generate()), Err(Error::Ownership));
    assert_eq!(a.active_allocation(AllocationId::from_uuid(0)), Err(Error::Invalid));
    assert_eq!(a.state(&permit(HostId::generate(), 1)), Err(Error::Ownership));
    assert_eq!(Authority::new(HostId::from_uuid(0)).err(), Some(Error::Invalid));
    let retirement = OperationId::generate();
    a.fence(&p, retirement).unwrap();
    assert_eq!(a.active_allocation(p.allocation), Err(Error::Conflict));
    let intent = retiring(&p, retirement);
    assert_eq!(a.completed(&intent), Err(Error::Conflict));
    a.complete(&intent).unwrap();
    a.completed(&intent).unwrap();
    // The exact scope is bound, not only the retirement's identity.
    let mut widened = intent.clone();
    widened.release_evidence_sha256 = "cd".repeat(32);
    assert_eq!(a.completed(&widened), Err(Error::Conflict));
    assert_eq!(a.complete(&widened), Err(Error::Conflict));
    assert_eq!(a.forget(&widened), Err(Error::Conflict));
}

#[test]
fn stored_authority_has_one_exact_encoding() {
    let host = HostId::from_uuid(0x01996110_7c00_7000_8000_000000000001);
    let a = Authority::new(host).unwrap();
    assert_eq!(
        String::from_utf8(a.encode().unwrap()).unwrap(),
        "{\"version\":1,\"host\":\"hst_01996110-7c00-7000-8000-000000000001\",\"through\":0,\"entries\":[]}"
    );
}

fn intent() -> Intent {
    Intent {
        version: 1,
        retirement: OperationId::generate(),
        permit: Permit {
            host: HostId::generate(),
            project: ProjectId::generate(),
            sandbox: SandboxId::generate(),
            allocation: AllocationId::generate(),
            create_operation: OperationId::generate(),
            generation: 3,
            original_epoch: 2,
            serial: 71,
        },
        commands: DomainClosure::Retired { through: OperationId::generate() },
        files: DomainClosure::Empty,
        release_evidence_sha256: "ab".repeat(32),
        simulated: false,
    }
}
fn request(i: &Intent) -> Request {
    Request { intent: i.clone(), reporting_epoch: 2, revision: 1, expires_unix_ms: 2000 }
}

#[test]
fn scope_survives_renewed_claim_and_reporting_epoch() {
    let i = intent();
    assert_eq!(decode_intent(&i.encode().unwrap()).unwrap(), i);
    let r = request(&i);
    r.validate(&i, 2, 1, 1000).unwrap();
    let mut retry = r.clone();
    retry.revision = 2;
    retry.reporting_epoch = 3;
    retry.expires_unix_ms = 3000;
    retry.validate(&i, 3, 2, 2000).unwrap();
    assert_eq!(decode_request(&retry.encode().unwrap()).unwrap(), retry);
    assert_eq!(retry.intent.digest().unwrap(), i.digest().unwrap());
    assert_eq!(r.validate(&i, 3, 2, 2000), Err(RetirementError::Claim));
}

#[test]
fn every_frozen_field_is_part_of_retry_identity() {
    let i = intent();
    let mutations: [fn(&mut Intent); 13] = [
        |x| x.retirement = OperationId::generate(),
        |x| x.permit.host = HostId::generate(),
        |x| x.permit.project = ProjectId::generate(),
        |x| x.permit.sandbox = SandboxId::generate(),
        |x| x.permit.allocation = AllocationId::generate(),
        |x| x.permit.create_operation = OperationId::generate(),
        |x| x.permit.generation += 1,
        |x| x.permit.original_epoch += 1,
        |x| x.permit.serial += 1,
        |x| x.commands = DomainClosure::Empty,
        |x| x.files = DomainClosure::Retired { through: OperationId::generate() },
        |x| x.release_evidence_sha256 = "cd".repeat(32),
        |x| x.simulated = true,
    ];
    for mutate in mutations {
        let mut changed = request(&i);
        mutate(&mut changed.intent);
        assert_eq!(changed.validate(&i, 2, 1, 1000), Err(RetirementError::Scope));
        assert_ne!(changed.intent.digest().unwrap(), i.digest().unwrap());
    }
}

#[test]
fn parsing_rejects_missing_ambiguous_and_unbounded_scope() {
    let i = intent();
    let bytes = i.encode().unwrap();
    for field in ["commands", "files", "simulated", "release_evidence_sha256"] {
        let mut v: serde_json::Value = serde_json::from_slice(&bytes).unwrap();
        v.as_object_mut().unwrap().remove(field);
        assert!(decode_intent(&serde_json::to_vec(&v).unwrap()).is_err());
    }
    let text = String::from_utf8(bytes.clone()).unwrap();
    let duplicate = text.replacen("{", "{\"version\":1,", 1);
    assert!(decode_intent(duplicate.as_bytes()).is_err());
    let mut v: serde_json::Value = serde_json::from_slice(&bytes).unwrap();
    v["files"] = serde_json::from_str(&format!(
        "{{\"kind\":\"empty\",\"through\":\"{}\"}}",
        OperationId::generate().to_string()
    ))
    .unwrap();
    assert!(decode_intent(&serde_json::to_vec(&v).unwrap()).is_err());
    v["files"] = serde_json::from_str("{\"kind\":\"retired\"}").unwrap();
    assert!(decode_intent(&serde_json::to_vec(&v).unwrap()).is_err());
    let mut oversized = bytes;
    oversized.resize(MAX_INTENT_BYTES + 1, b' ');
    assert!(decode_intent(&oversized).is_err());
    assert!(decode_request(&oversized).is_err());
}

#[test]
fn malformed_identities_versions_and_digests_fail() {
    let i = intent();
    for bad in ["", "AA", &"A".repeat(64), &"g".repeat(64), &"0".repeat(63)] {
        let mut x = i.clone();
        x.release_evidence_sha256 = bad.into();
        assert_eq!(x.validate(), Err(RetirementError::Invalid));
    }
    let mut x = i.clone();
    x.version = 2;
    assert!(x.encode().is_err());
    x = i.clone();
    x.retirement = OperationId::from_uuid(0);
    assert!(x.encode().is_err());
    x = i.clone();
    x.permit.serial = 0;
    assert!(x.encode().is_err());
    x = i.clone();
    x.commands = DomainClosure::Retired { through: x.retirement };
    assert!(x.encode().is_err());
    x = i.clone();
    x.permit.generation = 0;
    assert!(x.encode().is_err());
}

#[test]
fn expired_and_stale_claims_are_not_refreshed_by_parsing() {
    let i = intent();
    let r = request(&i);
    for (epoch, revision, now) in
        [(1, 1, 1000), (3, 1, 1000), (2, 2, 1000), (2, 0, 1000), (2, 1, 2000), (2, 1, 0)]
    {
        assert_eq!(r.validate(&i, epoch, revision, now), Err(RetirementError::Claim));
    }
    let mut invalid = r;
    invalid.revision = 0;
    let parsed = decode_request(&invalid.encode().unwrap()).unwrap();
    assert_eq!(parsed.validate(&i, 2, 1, 1000), Err(RetirementError::Claim));
}

#[test]
fn digest_ignores_json_key_order_but_not_domain_scope() {
    let i = intent();
    // Value serializes object keys in sorted order, unlike the typed encoding.
    let value: serde_json::Value = serde_json::from_slice(&i.encode().unwrap()).unwrap();
    let reordered = serde_json::to_vec_pretty(&value).unwrap();
    assert_ne!(reordered, i.encode().unwrap());
    assert_eq!(decode_intent(&reordered).unwrap().digest().unwrap(), i.digest().unwrap());
    let mut unknown: serde_json::Value = serde_json::from_slice(&request(&i).encode().unwrap()).unwrap();
    unknown["intent"]["permit"]["extra"] = true.into();
    assert!(decode_request(&serde_json::to_vec(&unknown).unwrap()).is_err());
    let text = String::from_utf8(request(&i).encode().unwrap()).unwrap();
    let duplicate = text.replacen("{", "{\"revision\":1,", 1);
    assert!(decode_request(duplicate.as_bytes()).is_err());
}

#[test]
fn intents_have_one_exact_typed_encoding_that_is_what_they_are_digested_by() {
    let i = intent();
    let text = String::from_utf8(i.encode().unwrap()).unwrap();
    let DomainClosure::Retired { through } = i.commands else { panic!("closure") };
    assert_eq!(
        text,
        format!(
            "{{\"version\":1,\"retirement\":\"{}\",\"permit\":{{\"host\":\"{}\",\"project\":\"{}\",\"sandbox\":\"{}\",\"allocation\":\"{}\",\"create_operation\":\"{}\",\"generation\":3,\"original_epoch\":2,\"serial\":71}},\"commands\":{{\"kind\":\"retired\",\"through\":\"{}\"}},\"files\":{{\"kind\":\"empty\"}},\"release_evidence_sha256\":\"{}\",\"simulated\":false}}",
            i.retirement.to_string(),
            i.permit.host.to_string(),
            i.permit.project.to_string(),
            i.permit.sandbox.to_string(),
            i.permit.allocation.to_string(),
            i.permit.create_operation.to_string(),
            through.to_string(),
            "ab".repeat(32),
        )
    );
    let expected: [u8; 32] = sha2::Sha256::digest(text.as_bytes()).into();
    assert_eq!(i.digest().unwrap(), expected);
}

#[test]
fn forget_requests_repeat_the_completed_metadata_claim() {
    let i = intent();
    let metadata_request = request(&i);
    let claim = Request { reporting_epoch: 3, revision: 1, expires_unix_ms: 9000, ..metadata_request.clone() };
    let forget = ForgetRequest { version: 1, claim, metadata_request };
    let bytes = forget.encode().unwrap();
    let back = ForgetRequest::decode(&bytes, node(&bytes).and_then(|n| n.forget())).unwrap();
    assert_eq!(back, forget);
    forget.validate(3, 8000).unwrap();
    assert_eq!(forget.validate(3, 9000), Err(RetirementError::Claim));
    assert_eq!(forget.validate(4, 8000), Err(RetirementError::Claim));
    let mut other = forget.clone();
    other.claim.intent.permit.serial += 1;
    assert!(other.encode().is_err());
    let mut simulated = forget.clone();
    simulated.claim.intent.simulated = true;
    simulated.metadata_request.intent.simulated = true;
    assert!(simulated.encode().is_err());
    let mut version = forget;
    version.version = 2;
    assert!(version.encode().is_err());
}

#[test]
fn claims_on_one_intent_encode_apart() {
    let i = intent();
    let changes: [fn(&mut Request); 4] = [
        |q| q.reporting_epoch += 1,
        |q| q.revision += 1,
        |q| q.expires_unix_ms += 1,
        |q| q.intent.permit.generation += 1,
    ];
    let original = request(&i).encode().unwrap();
    assert_eq!(request(&i).encode().unwrap(), original);
    for change in changes {
        let mut other = request(&i);
        change(&mut other);
        assert_ne!(other.encode().unwrap(), original);
    }
    let forget = |expires: i64| ForgetRequest {
        version: 1,
        claim: Request { expires_unix_ms: expires, ..request(&i) },
        metadata_request: request(&i),
    };
    assert_ne!(forget(9000).encode().unwrap(), forget(9001).encode().unwrap());
}
