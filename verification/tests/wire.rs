//! Wire messages, file transfers, commands, bootstrap devices and barriers.
use hudson_sandbox::api::{
    command_input_cwd_default, command_input_env_default, command_input_output_limit_default, CancelRequest,
    CommandInput, CreateRequest, DestroyRequest, OperationBody, ProblemBody, RequestedResources, SandboxList,
};
use hudson_sandbox::bootstrap::{device_body, read_header, Bootstrap, BootstrapError, DEVICE_BYTES, MAX_BODY};
use hudson_sandbox::canonical::{canonical_text, sort_pairs, Json};
use hudson_sandbox::command::{CommandError, CommandRecord, MAX_OUTPUT};
use hudson_sandbox::file_downloads::{
    capture_request, captured, chunk, read_request, release_request, released, scope, DownloadError, ReadScope,
};
use hudson_sandbox::file_sources::{SourceOwner, SourcePlan, SourceRef, SourceRetirement};
use hudson_sandbox::file_wire as wire;
use hudson_sandbox::file_wire::FileWireError;
use hudson_sandbox::files as m;
use hudson_sandbox::files::{validate_path, FileError, MAX_FILE_BYTES};
use hudson_sandbox::guest as w;
use hudson_sandbox::guest_model as model;
use hudson_sandbox::guest_model::Context;
use hudson_sandbox::guest_wire;
use hudson_sandbox::guest_wire::{guest_name, peer, read_frame_header, write_frame_header, WireError, MAX_FRAME};
use hudson_sandbox::history::{Barrier, Binding, Domain, HistoryError};
use hudson_sandbox::live_output::{LiveOutputObservation, LiveOutputRequest, LiveOutputScope};
use hudson_sandbox::output::{OutputName, OutputOwner, OutputPlan, OutputPlans, OutputRef, OutputRefs, OutputTicket};
use hudson_sandbox::supervisor::{
    FileAccessObservation, FileAccessResult, FileCaptureRequest, FileDownloadHandle, FileDownloadRequest,
    FileReleaseRequest, FileWriteRequest, Ownership,
};
use hudson_sandbox::supervisor_files::{FileRecord, FileRecordError, MAX_RECORD_BYTES};
use hudson_sandbox::text::{byte_length, contains_control, is_bounded_identity, is_lower_hex, split};
use hudson_sandbox::{AllocationId, HostId, Id, OperationId, ProjectId, RequestDigest, SandboxId};
use sha2::Digest;

fn context() -> Context {
    Context { allocation_id: AllocationId::generate(), generation: 1, boot_id: "boot".into() }
}
fn ownership() -> Ownership {
    Ownership {
        host_id: HostId::generate().to_string(),
        supervisor_epoch: 1,
        operation_id: OperationId::generate().to_string(),
        project_id: ProjectId::generate().to_string(),
        sandbox_id: SandboxId::generate().to_string(),
        allocation_id: AllocationId::generate().to_string(),
        generation: 1,
        claim_revision: 1,
        claim_expires_unix_ms: 1,
    }
}
fn sha(bytes: &[u8]) -> [u8; 32] {
    sha2::Sha256::digest(bytes).into()
}

// What a document looks like with its members in the order that they stand in.
fn typed(value: &Json) -> String {
    match value {
        Json::List(items) => format!("[{}]", items.iter().map(typed).collect::<Vec<_>>().join(",")),
        Json::Object(members) => format!(
            "{{{}}}",
            members
                .iter()
                .map(|(k, v)| format!("{}:{}", serde_json::to_string(k).unwrap(), typed(v)))
                .collect::<Vec<_>>()
                .join(",")
        ),
        other => canonical_text(other),
    }
}
fn json(value: &serde_json::Value) -> Json {
    match value {
        serde_json::Value::Null => Json::Null,
        serde_json::Value::Bool(b) => Json::Bool(*b),
        serde_json::Value::Number(n) => Json::Number(n.to_string()),
        serde_json::Value::String(s) => Json::Text(s.clone()),
        serde_json::Value::Array(items) => Json::List(items.iter().map(json).collect()),
        serde_json::Value::Object(members) => {
            Json::Object(members.iter().map(|(k, v)| (k.clone(), json(v))).collect())
        }
    }
}
// Read a command request: known fields only, defaults for what is left out.
fn command(text: &str) -> Option<CommandInput> {
    let value: serde_json::Value = serde_json::from_str(text).ok()?;
    let members = value.as_object()?;
    let known = ["argv", "env", "cwd", "deadline_unix_ms", "output_limit"];
    if members.keys().any(|k| !known.contains(&k.as_str())) {
        return None;
    }
    let texts = |v: &serde_json::Value| v.as_str().map(str::to_owned);
    Some(CommandInput {
        argv: members.get("argv")?.as_array()?.iter().map(texts).collect::<Option<Vec<_>>>()?,
        env: match members.get("env") {
            Some(env) => {
                let pairs = env
                    .as_object()?
                    .iter()
                    .map(|(k, v)| Some((k.clone(), texts(v)?)))
                    .collect::<Option<Vec<_>>>()?;
                sort_pairs(&pairs)
            }
            None => command_input_env_default(),
        },
        cwd: match members.get("cwd") {
            Some(v) => texts(v)?,
            None => command_input_cwd_default(),
        },
        deadline_unix_ms: members.get("deadline_unix_ms")?.as_i64()?,
        output_limit: match members.get("output_limit") {
            Some(v) => v.as_u64()?,
            None => command_input_output_limit_default(),
        },
    })
}

#[test]
fn default_fields_and_environment_order_have_one_digest() {
    let first =
        command(r#"{"argv":["/bin/echo"],"deadline_unix_ms":1,"env":{"Z":"last","A":"first"}}"#).expect("command");
    let second = command(
        r#"{"argv":["/bin/echo"],"deadline_unix_ms":1,"cwd":"/","output_limit":1048576,"env":{"A":"first","Z":"last"}}"#,
    )
    .expect("command");
    assert!(
        RequestDigest::compute("POST", "/execute", &first.document())
            == RequestDigest::compute("POST", "/execute", &second.document())
    );
    // The order in which the environment is held does not matter either.
    let mut swapped = command(
        r#"{"argv":["/bin/echo"],"deadline_unix_ms":1,"env":{"A":"first","Z":"last"}}"#,
    )
    .expect("command");
    swapped.env.swap(0, 1);
    assert!(
        RequestDigest::compute("POST", "/execute", &swapped.document())
            == RequestDigest::compute("POST", "/execute", &first.document())
    );
    assert!(!first.debug_text().contains("/bin/echo"));
    assert!(command(r#"{"argv":["/bin/echo"],"deadline_unix_ms":1,"secret":"no"}"#).is_none());
}

#[test]
fn generated_requests_keep_original_normalization_and_digests() {
    let image_digest = format!("sha256:{}", "a".repeat(64));
    let actual = CreateRequest {
        image_digest: image_digest.clone(),
        name: None,
        resources: RequestedResources { vcpu: 1, memory_mib: 128, disk_mib: 64 },
        correlation_id: None,
    };
    let original: serde_json::Value = serde_json::from_str(&format!(
        "{{\"image_digest\":\"{image_digest}\",\"name\":null,\"resources\":{{\"vcpu\":1,\"memory_mib\":128,\"disk_mib\":64}},\"correlation_id\":null}}"
    ))
    .unwrap();
    let back: serde_json::Value = serde_json::from_str(&canonical_text(&actual.document())).unwrap();
    assert_eq!(back, original);
    assert!(
        RequestDigest::compute("POST", "/v1/sandboxes", &actual.document())
            == RequestDigest::compute("POST", "/v1/sandboxes", &json(&original))
    );
    let actual =
        command(r#"{"argv":["secret-command"],"env":{"Z":"private","A":"first"},"deadline_unix_ms":1}"#).unwrap();
    // The command's digest hashes typed fields, so both defaults and field order matter.
    assert_eq!(
        typed(&actual.document()),
        r#"{"argv":["secret-command"],"env":{"A":"first","Z":"private"},"cwd":"/","deadline_unix_ms":1,"output_limit":1048576}"#
    );
    assert!(!actual.debug_text().contains("secret"));
    assert!(!actual.debug_text().contains("private"));
    assert_eq!(typed(&DestroyRequest { correlation_id: None }.document()), r#"{"correlation_id":null}"#);
    assert_eq!(
        typed(&DestroyRequest { correlation_id: Some("x".into()) }.document()),
        r#"{"correlation_id":"x"}"#
    );
    assert_eq!(typed(&CancelRequest {}.document()), "{}");
}

#[test]
fn response_bodies_hold_what_they_are_given() {
    let list = SandboxList { items: vec![], next_cursor: None };
    assert!(list.items.is_empty() && list.next_cursor.is_none());
    let body = OperationBody {
        response_expired: hudson_sandbox::api::operation_body_response_expired_default(),
        operation_id: "op_fixture".into(),
        sandbox_id: "sbx_fixture".into(),
        target_operation_id: None,
        kind: "execute".into(),
        status: "queued".into(),
        phase: None,
        output_status: None,
        result: None,
        error: None,
        created_at: "time".into(),
        completed_at: None,
    };
    assert!(!body.response_expired);
    let p = ProblemBody {
        operation_id: None,
        title: "No such resource".into(),
        status: 404,
        code: "not_found".into(),
    };
    assert_eq!((p.status, p.operation_id), (404, None));
}

#[test]
fn command_input_bounds_come_before_the_guest_check() {
    let mut c = command(r#"{"argv":["x"],"deadline_unix_ms":1}"#).unwrap();
    assert_eq!(c.validate(true), Ok(()));
    assert_eq!(c.validate(false), Err(CommandError::Shape));
    c.output_limit = MAX_OUTPUT + 1;
    assert_eq!(c.validate(true), Err(CommandError::OutputLimit));
    let id = OperationId::generate();
    let e = c.for_operation(id);
    assert_eq!((e.operation_id, e.argv, e.cwd.as_str(), e.deadline_unix_ms), (id, vec!["x".to_owned()], "/", 1));
}

fn receipt(record: &CommandRecord, id: OperationId, state: model::State) -> model::Receipt {
    model::Receipt {
        version: 1,
        context: record.context.clone().unwrap(),
        operation_id: id,
        digest: record.digest,
        state,
        deadline_unix_ms: record.deadline_unix_ms,
        output_limit: record.output_limit,
        cancel_requested: false,
        cleanup_confirmed: true,
        exit_code: Some(0),
        signal: None,
        stdout: model::Output { seen: 1, stored: 1, truncated: false },
        stderr: model::Output { seen: 0, stored: 0, truncated: false },
        reason: None,
    }
}

#[test]
fn command_records_accept_only_receipts_of_their_own_intent() {
    let id = OperationId::generate();
    let e = command(r#"{"argv":["x"],"deadline_unix_ms":9}"#).unwrap().for_operation(id);
    assert_eq!(CommandRecord::pending(&e, context(), None).err(), Some(CommandError::Shape));
    let mut record = CommandRecord::pending(&e, context(), Some([7; 32])).unwrap();
    assert!(!record.finished());
    let good = receipt(&record, id, model::State::Exited);
    assert_eq!(record.validate_receipt(id, &good, true), Ok(()));
    assert_eq!(record.validate_receipt(id, &good, false), Err(CommandError::Shape));
    assert_eq!(record.validate_receipt(OperationId::generate(), &good, true), Err(CommandError::Receipt));
    let mut changed = good.clone();
    changed.digest = [8; 32];
    assert_eq!(record.validate_receipt(id, &changed, true), Err(CommandError::Receipt));
    record.receipt = Some(receipt(&record, id, model::State::Unknown));
    assert!(!record.finished());
    record.receipt = Some(good);
    assert!(record.finished());
    let o = record.observation(ownership(), true, 5);
    assert!(o.simulated && !o.not_started && o.receipt.is_some());
    assert_eq!((o.observed_unix_ms, o.command_digest), (5, vec![7; 32]));
    let fence = CommandRecord::fenced([9; 32]);
    assert!(fence.finished() && fence.not_started && fence.context.is_none());
    let again = receipt(&record, id, model::State::Exited);
    assert_eq!(fence.validate_receipt(id, &again, true), Err(CommandError::Receipt));
}

#[test]
fn paths_are_canonical_and_cannot_name_internal_state() {
    for path in [
        "",
        "/tmp/x",
        "../x",
        "a/../b",
        "a/./b",
        "a//b",
        "a/",
        ".",
        "a\\b",
        "a\0b",
        "a\nb",
        ".hudson-transfers/x",
    ] {
        assert!(validate_path(path).is_err(), "accepted {path:?}");
    }
    for path in ["file", "dir/file.txt", "résultats/結果", "file with spaces", "a/.hidden"] {
        validate_path(path).unwrap();
    }
    assert!(validate_path(&"a".repeat(256)).is_err());
    assert_eq!(validate_path(""), Err(FileError::PathLength));
    assert_eq!(validate_path("/tmp/x"), Err(FileError::Path));
}

#[test]
fn descriptor_digest_binds_path_size_mode_content_and_operation() {
    let original = m::Upload {
        operation_id: OperationId::generate(),
        path: "result".into(),
        size: 1,
        sha256: [4; 32],
        mode: 0o644,
    };
    let digest = original.digest().unwrap();
    for change in 0..5 {
        let mut next = original.clone();
        match change {
            0 => next.operation_id = OperationId::generate(),
            1 => next.path = "another".into(),
            2 => next.size = 2,
            3 => next.sha256 = [5; 32],
            _ => next.mode = 0o755,
        }
        assert_ne!(digest, next.digest().unwrap());
    }
    let mut bad = original;
    bad.mode = 0o4755;
    assert!(bad.validate().is_err());
    assert_eq!(bad.validate(), Err(FileError::Mode));
    bad.mode = 0o644;
    bad.size = MAX_FILE_BYTES + 1;
    assert!(bad.validate().is_err());
    assert_eq!(bad.validate(), Err(FileError::Size));
}

#[test]
fn file_receipts_must_be_of_their_own_descriptor_and_context() {
    let (upload, record) = fixture();
    let good = m::Receipt {
        version: 1,
        context: record.context.clone().unwrap(),
        digest: record.digest,
        upload,
        state: m::State::Staging,
    };
    assert_eq!(good.validate(), Ok(()));
    let mut bad = good.clone();
    bad.digest = [0; 32];
    assert_eq!(bad.validate(), Err(FileError::ReceiptDigest));
    bad = good.clone();
    bad.context.generation = 0;
    assert_eq!(bad.validate(), Err(FileError::ReceiptContext));
}

// Context and barrier files: a context alone is the legacy form.
fn context_text(c: &Context) -> String {
    format!(
        "{{\"allocation_id\":\"{}\",\"generation\":{},\"boot_id\":\"{}\"}}",
        c.allocation_id.to_string(),
        c.generation,
        c.boot_id
    )
}
fn barrier_text(b: &Barrier) -> String {
    format!(
        "{{\"version\":{},\"context\":{},\"domain\":\"{}\",\"through\":\"{}\"}}",
        b.version,
        context_text(&b.context),
        match b.domain {
            Domain::Commands => "commands",
            Domain::Files => "files",
        },
        b.through.to_string()
    )
}
fn read_context(v: &serde_json::Value) -> Option<Context> {
    let members = v.as_object()?;
    if members.len() != 3 {
        return None;
    }
    Some(Context {
        allocation_id: AllocationId::parse(members.get("allocation_id")?.as_str()?).ok()?,
        generation: members.get("generation")?.as_i64()?,
        boot_id: members.get("boot_id")?.as_str()?.to_owned(),
    })
}
fn read_binding(v: &serde_json::Value) -> Option<Binding> {
    if let Some(c) = read_context(v) {
        return Some(Binding::Legacy(c));
    }
    let members = v.as_object()?;
    if members.len() != 4 {
        return None;
    }
    Some(Binding::Retired(Barrier {
        version: u32::try_from(members.get("version")?.as_u64()?).ok()?,
        context: read_context(members.get("context")?)?,
        domain: match members.get("domain")?.as_str()? {
            "commands" => Domain::Commands,
            "files" => Domain::Files,
            _ => return None,
        },
        through: OperationId::parse(members.get("through")?.as_str()?).ok()?,
    }))
}

#[test]
fn legacy_binding_and_barrier_are_unambiguous_and_downgrade_fails_closed() {
    let context = context();
    let old: serde_json::Value = serde_json::from_str(&context_text(&context)).unwrap();
    assert!(read_binding(&old).unwrap().validate(&context, Domain::Files).unwrap().is_none());
    let barrier = Barrier {
        version: 1,
        context: context.clone(),
        domain: Domain::Files,
        through: OperationId::generate(),
    };
    let bytes: serde_json::Value = serde_json::from_str(&barrier_text(&barrier)).unwrap();
    assert!(read_context(&bytes).is_none());
    assert_eq!(
        read_binding(&bytes).unwrap().validate(&context, Domain::Files).unwrap(),
        Some(barrier.clone())
    );
    assert!(barrier.validate(&context, Domain::Commands).is_err());
    let mut other = context.clone();
    other.boot_id = "other".into();
    assert!(barrier.validate(&other, Domain::Files).is_err());
    other = context.clone();
    other.generation += 1;
    assert!(barrier.validate(&other, Domain::Files).is_err());
    let mut bad = barrier.clone();
    bad.version = 2;
    assert!(bad.validate(&context, Domain::Files).is_err());
    assert_eq!(bad.validate(&context, Domain::Files), Err(HistoryError::Ownership));
    let mut value = bytes;
    value["unknown"] = true.into();
    assert!(read_binding(&value).is_none());
    assert_eq!(Binding::Legacy(other).validate(&context, Domain::Files), Err(HistoryError::Retained));
    bad = barrier;
    bad.through = OperationId::from_uuid(0);
    assert_eq!(bad.validate(&context, Domain::Files), Err(HistoryError::Identity));
    bad.context.boot_id = String::new();
    let empty = bad.context.clone();
    assert_eq!(bad.validate(&empty, Domain::Files), Err(HistoryError::Context));
}

#[test]
fn prefix_is_inclusive_and_has_no_clock_dependency() {
    let id = |n: u32| -> OperationId { format!("op_019a9fad-3000-7000-8000-{n:012x}").parse().unwrap() };
    let barrier = Barrier { version: 1, context: context(), domain: Domain::Commands, through: id(10) };
    assert!(barrier.covers(id(9)));
    assert!(barrier.covers(id(10)));
    assert!(!barrier.covers(id(11)));
}

fn bootstrap() -> Bootstrap {
    Bootstrap {
        version: 1,
        allocation: AllocationId::generate(),
        generation: 1,
        valid_until_unix_ms: 1000,
        ca_pem: "CA".into(),
        guest_cert_pem: "CERT".into(),
        guest_key_pem: "PRIVATE-KEY-CANARY".into(),
        host_pin: [1; 32],
    }
}
fn read_device(device: &[u8]) -> Result<Bootstrap, BootstrapError> {
    let parsed = device_body(device).ok().and_then(|body| {
        let v: serde_json::Value = serde_json::from_slice(body).ok()?;
        let pin: Option<Vec<u8>> =
            v["host_pin"].as_array()?.iter().map(|b| u8::try_from(b.as_u64()?).ok()).collect();
        Some(Bootstrap {
            version: u32::try_from(v["version"].as_u64()?).ok()?,
            allocation: AllocationId::parse(v["allocation"].as_str()?).ok()?,
            generation: v["generation"].as_i64()?,
            valid_until_unix_ms: v["valid_until_unix_ms"].as_i64()?,
            ca_pem: v["ca_pem"].as_str()?.to_owned(),
            guest_cert_pem: v["guest_cert_pem"].as_str()?.to_owned(),
            guest_key_pem: v["guest_key_pem"].as_str()?.to_owned(),
            host_pin: pin?.try_into().ok()?,
        })
    });
    Bootstrap::read_device(device, parsed)
}

#[test]
fn bootstrap_is_bounded_versioned_and_redacted() {
    let mut b = bootstrap();
    let bytes = b.encode_device().unwrap();
    assert_eq!(bytes.len(), DEVICE_BYTES);
    assert_eq!(read_device(bytes.as_slice()).unwrap().allocation, b.allocation);
    assert!(!b.debug_text().contains("PRIVATE-KEY-CANARY"));
    let id = b.allocation.to_string();
    let uuid = id.strip_prefix("alc_").unwrap();
    assert_eq!(b.debug_text(), format!("Bootstrap {{ allocation: AllocationId({uuid}), generation: 1, .. }}"));
    assert!(read_device(&bytes[..20]).is_err());
    let mut bad = bytes.clone();
    bad[0] = 0;
    assert!(read_device(bad.as_slice()).is_err());
    bad = bytes.clone();
    bad[8..12].copy_from_slice(&((MAX_BODY + 1) as u32).to_be_bytes());
    assert!(read_device(bad.as_slice()).is_err());
    b.version = 2;
    assert!(b.encode_device().is_err());
    b.version = 1;
    assert!(b.server_identity(1000).is_err());
}

#[test]
fn devices_tell_bootstrap_identities_apart() {
    let b = bootstrap();
    let changes: [fn(&mut Bootstrap); 7] = [
        |x| x.allocation = AllocationId::generate(),
        |x| x.generation = 2,
        |x| x.valid_until_unix_ms = 1001,
        |x| x.ca_pem.push('\"'),
        |x| x.guest_cert_pem.push('\n'),
        |x| x.guest_key_pem.push(','),
        |x| x.host_pin[31] = 10,
    ];
    for change in changes {
        let mut other = b.clone();
        change(&mut other);
        assert_ne!(other.encode_device().unwrap(), b.encode_device().unwrap());
    }
    // Text does not move from one field into the next.
    let split = |ca: &str, cert: &str| {
        let mut other = b.clone();
        (other.ca_pem, other.guest_cert_pem) = (ca.into(), cert.into());
        other.encode_device().unwrap()
    };
    assert_ne!(split("CAC", "ERT"), split("CA", "CERT"));
}

#[test]
fn bootstrap_refusals_say_why() {
    let good = bootstrap();
    let device = good.encode_device().unwrap();
    assert_eq!(&device[..8], b"HDSBOOT1");
    let n = read_header(&device[..12]).unwrap();
    assert_eq!(device_body(&device).unwrap(), &device[12..12 + n]);
    assert!(device[12 + n..].iter().all(|b| *b == 0));
    assert_eq!(good.server_identity(999), Ok(()));
    assert_eq!(good.server_identity(1000), Err(BootstrapError::Expired));
    let refused = |change: fn(&mut Bootstrap)| {
        let mut b = bootstrap();
        change(&mut b);
        b.encode_device().err()
    };
    assert_eq!(refused(|b| b.generation = 0), Some(BootstrapError::Identity));
    assert_eq!(refused(|b| b.ca_pem = String::new()), Some(BootstrapError::Credential));
    assert_eq!(refused(|b| b.guest_key_pem = "x".repeat(16385)), Some(BootstrapError::Credential));
    assert_eq!(refused(|b| b.host_pin = [0; 32]), Some(BootstrapError::Peer));
    let full = "\u{1}".repeat(16384);
    let large = Bootstrap { ca_pem: full.clone(), guest_cert_pem: full.clone(), guest_key_pem: full, ..bootstrap() };
    assert_eq!(large.encode_device().err(), Some(BootstrapError::TooLarge));
    assert_eq!(read_device(&device[..20]).err(), Some(BootstrapError::Truncated));
    assert_eq!(read_device(&[0; 64]).err(), Some(BootstrapError::Magic));
    let mut empty = device.clone();
    empty[8..12].copy_from_slice(&[0; 4]);
    assert_eq!(read_device(&empty).err(), Some(BootstrapError::BodySize));
    assert_eq!(Bootstrap::read_device(&device, None).err(), Some(BootstrapError::Body));
}

fn fixture() -> (m::Upload, FileRecord) {
    let upload = m::Upload {
        operation_id: OperationId::generate(),
        path: "private-customer-path".into(),
        size: m::MAX_FILE_BYTES,
        sha256: [255; 32],
        mode: 0o755,
    };
    let record = FileRecord::pending(
        &upload,
        Context {
            allocation_id: AllocationId::generate(),
            generation: i64::MAX,
            boot_id: "\u{1}".repeat(64),
        },
    )
    .unwrap();
    (upload, record)
}

#[test]
fn file_results_fit_reserved_metadata_and_do_not_retain_paths() {
    let (upload, initial) = fixture();
    let length = initial.render().len();
    assert!(length <= MAX_RECORD_BYTES);
    assert!(!initial.render().contains(&upload.path));
    for state in [
        m::State::Staging,
        m::State::CommitIntent,
        m::State::Committed,
        m::State::Unknown,
        m::State::Aborted,
    ] {
        let mut record = initial.clone();
        record.commit_requested = true;
        record.abort_requested = true;
        let receipt = m::Receipt {
            version: 1,
            context: record.context.clone().unwrap(),
            upload: upload.clone(),
            digest: record.digest,
            state,
        };
        record.observe(&upload, &receipt).unwrap();
        assert!(record.render().len() <= length);
    }
}

#[test]
fn unsolicited_or_changed_file_receipts_never_become_committed() {
    let (upload, mut record) = fixture();
    let mut receipt = m::Receipt {
        version: 1,
        context: record.context.clone().unwrap(),
        upload: upload.clone(),
        digest: record.digest,
        state: m::State::Committed,
    };
    assert!(record.observe(&upload, &receipt).is_err());
    assert_eq!(record.observe(&upload, &receipt), Err(FileRecordError::UnsolicitedCommit));
    record.commit_requested = true;
    receipt.context.generation = 1;
    assert!(record.observe(&upload, &receipt).is_err());
    receipt.context = record.context.clone().unwrap();
    record.observe(&upload, &receipt).unwrap();
    assert!(record.finished());
    receipt.state = m::State::Staging;
    assert!(record.observe(&upload, &receipt).is_err());
    assert_eq!(record.observe(&upload, &receipt), Err(FileRecordError::Terminal));
    let mut bad = record;
    bad.state = 6;
    assert!(bad.validate().is_err());
}

#[test]
fn absence_fences_cannot_gain_guest_evidence_or_dispatch_flags() {
    let (upload, _) = fixture();
    let mut record = FileRecord::fenced(upload.digest().unwrap());
    record.validate().unwrap();
    record.commit_requested = true;
    assert!(record.validate().is_err());
    assert_eq!(record.validate(), Err(FileRecordError::Fence));
    let body = FileWriteRequest { ownership: None, offset: 0, data: b"sensitive-file-content".to_vec() };
    assert!(!body.debug_text().contains("sensitive-file-content"));
    assert_eq!(body.debug_text(), "FileWriteRequest { offset: 0, length: 22, .. }");
}

#[test]
fn file_records_report_what_they_hold_and_bind_their_descriptor() {
    let (upload, record) = fixture();
    assert_eq!(record.validate_identity(upload.operation_id, &upload), Ok(()));
    assert_eq!(
        record.validate_identity(OperationId::generate(), &upload),
        Err(FileRecordError::Descriptor)
    );
    let mut other = upload.clone();
    other.path = "elsewhere".into();
    assert_eq!(record.validate_identity(other.operation_id, &other), Err(FileRecordError::Descriptor));
    let o = record.observation(ownership(), false, 7, Some(3));
    assert_eq!((o.observed_unix_ms, o.stored, o.not_started, o.simulated), (7, Some(3), false, false));
    assert_eq!(o.upload_digest, upload.digest().unwrap().to_vec());
}

fn upload() -> m::Upload {
    m::Upload {
        operation_id: OperationId::generate(),
        path: "dir/file".into(),
        size: 10,
        sha256: [4; 32],
        mode: 0o644,
    }
}
fn file_receipt(receipt: &m::Receipt) -> w::FileReceipt {
    w::FileReceipt::from_model(receipt)
}

#[test]
fn file_receipts_round_trip_and_reject_incomplete_or_forged_shapes() {
    let input = upload();
    let receipt = m::Receipt {
        version: 1,
        context: context(),
        digest: input.digest().unwrap(),
        upload: input,
        state: m::State::Committed,
    };
    let back = m::Receipt::from_wire(file_receipt(&receipt)).unwrap();
    assert!(back.upload.same(&receipt.upload) && back.context.same(&receipt.context));
    assert_eq!((back.version, back.digest, back.state), (receipt.version, receipt.digest, receipt.state));
    for mode in 0..9 {
        let mut v = file_receipt(&receipt);
        match mode {
            0 => v.state = 0,
            1 => v.state = 999,
            2 => v.version = 2,
            3 => v.context = None,
            4 => v.upload = None,
            5 => v.digest.clear(),
            6 => v.upload.as_mut().unwrap().path = "../escape".into(),
            7 => v.upload.as_mut().unwrap().size = m::MAX_FILE_BYTES + 1,
            _ => v.upload.as_mut().unwrap().mode = 0o4755,
        }
        assert!(m::Receipt::from_wire(v).is_err(), "mode {mode}");
    }
}

#[test]
fn file_chunks_fit_existing_frames_and_debug_omits_bytes() {
    let write = || w::WriteFile {
        operation: Some(wire::operation(&upload()).unwrap()),
        offset: 0,
        data: vec![42; m::MAX_CHUNK_BYTES],
    };
    wire::validate_write(&write()).unwrap();
    // What the request comes to as a protobuf message, with every field present.
    let message = |n: usize| 1 + prost::length_delimiter_len(n) + n;
    let operation = write().operation.unwrap();
    let inner = message(message(operation.operation_id.len()) + message(operation.digest.len()))
        + message(write().data.len());
    let request = 2 + message(OperationId::generate().to_string().len()) + message(inner);
    assert!(request < MAX_FRAME);
    assert!(!write().debug_text().contains("42, 42"));
    assert_eq!(write().debug_text(), "WriteFile { offset: 0, length: 32768, .. }");
    let chunk = w::FileChunk {
        handle: None,
        offset: 0,
        size: 0,
        data: b"secret-payload".to_vec(),
        next_offset: 0,
        at_end: false,
    };
    assert!(!chunk.debug_text().contains("secret-payload"));
    assert_eq!(chunk.debug_text(), "FileChunk { offset: 0, length: 14, .. }");
    let mut bad = write();
    bad.offset = u64::MAX;
    assert!(wire::validate_write(&bad).is_err());
    bad = write();
    bad.data.push(0);
    assert!(wire::validate_write(&bad).is_err());
    assert_eq!(wire::validate_write(&bad), Err(FileWireError::Chunk));
    bad = write();
    bad.operation = None;
    assert!(wire::validate_write(&bad).is_err());
    assert_eq!(wire::validate_write(&bad), Err(FileWireError::MissingOperation));
    bad = write();
    bad.operation.as_mut().unwrap().digest.clear();
    assert!(wire::validate_write(&bad).is_err());
    assert_eq!(wire::validate_write(&bad), Err(FileWireError::Digest));
}

#[test]
fn capture_and_range_bounds_reject_bad_ids_digests_and_offsets() {
    let good = w::FileCapture {
        capture_id: OperationId::generate().to_string(),
        path: "file".into(),
        size: m::MAX_FILE_BYTES,
        sha256: vec![0; 32],
        expires_unix_ms: 1,
    };
    wire::validate_capture(&good).unwrap();
    for mode in 0..5 {
        let mut v = good.clone();
        match mode {
            0 => v.capture_id = "invalid".into(),
            1 => v.path = "/absolute".into(),
            2 => v.size += 1,
            3 => v.sha256.clear(),
            _ => v.expires_unix_ms = 0,
        }
        assert!(wire::validate_capture(&v).is_err());
    }
    let mut read = w::ReadFile {
        handle: Some(wire::handle(&good).unwrap()),
        offset: 0,
        limit: m::MAX_CHUNK_BYTES as u32,
    };
    wire::validate_read(&read).unwrap();
    read.limit = 0;
    assert!(wire::validate_read(&read).is_err());
    read.limit = 1;
    read.offset = u64::MAX;
    assert!(wire::validate_read(&read).is_err());
    assert_eq!(wire::validate_read(&read), Err(FileWireError::Range));
    read.handle = None;
    assert_eq!(wire::validate_read(&read), Err(FileWireError::MissingHandle));
}

#[test]
fn typed_requests_roundtrip_without_logging_command_or_output_bytes() {
    let request = model::Execute {
        operation_id: OperationId::generate(),
        argv: vec!["secret-command".into()],
        env: vec![("TOKEN".into(), "secret-token".into())],
        cwd: "/".into(),
        deadline_unix_ms: 1,
        output_limit: 1024,
    };
    let wire = w::Execute::from_model(&request);
    assert!(!wire.debug_text().contains("secret"));
    // Every field that the command is digested by comes back.
    let back = model::Execute::from_wire(wire).unwrap();
    assert_eq!(back.operation_id, request.operation_id);
    assert_eq!(back.argv, request.argv);
    assert_eq!(back.env, request.env);
    assert_eq!(back.cwd, request.cwd);
    assert_eq!(
        (back.deadline_unix_ms, back.output_limit),
        (request.deadline_unix_ms, request.output_limit)
    );
    let output = w::OutputChunk { data: b"private-output".to_vec() };
    assert!(!output.debug_text().contains("private"));
    let invalid = w::Receipt {
        version: 1,
        context: None,
        operation_id: String::new(),
        digest: vec![],
        state: Some(w::State::Unspecified),
        deadline_unix_ms: 0,
        output_limit: 0,
        cancel_requested: false,
        cleanup_confirmed: false,
        exit_code: None,
        signal: None,
        stdout: None,
        stderr: None,
        reason: None,
    };
    assert!(model::Receipt::from_wire(invalid).is_err());
}

#[test]
fn command_receipts_round_trip_and_incomplete_ones_are_refused() {
    let record = CommandRecord {
        digest: [3; 32],
        context: Some(context()),
        deadline_unix_ms: 5,
        output_limit: 6,
        not_started: false,
        receipt: None,
    };
    let original = receipt(&record, OperationId::generate(), model::State::TimedOut);
    assert_eq!(model::Receipt::from_wire(w::Receipt::from_model(&original)).unwrap(), original);
    let refused = |change: fn(&mut w::Receipt)| {
        let mut v = w::Receipt::from_model(&original);
        change(&mut v);
        model::Receipt::from_wire(v).err()
    };
    assert_eq!(refused(|v| v.context = None), Some(WireError::MissingContext));
    assert_eq!(refused(|v| v.operation_id = "op_x".into()), Some(WireError::Identity));
    assert_eq!(refused(|v| v.digest.clear()), Some(WireError::Digest));
    assert_eq!(refused(|v| v.state = None), Some(WireError::State));
    assert_eq!(refused(|v| v.stderr = None), Some(WireError::MissingStats));
}

#[test]
fn frame_headers_round_trip_within_bounds() {
    for n in [1, 255, 65536, MAX_FRAME] {
        assert_eq!(read_frame_header(&write_frame_header(n).unwrap()).unwrap(), n);
    }
    assert_eq!(write_frame_header(258).unwrap(), [0, 0, 1, 2]);
    assert_eq!(write_frame_header(0), Err(WireError::FrameSize));
    assert_eq!(write_frame_header(MAX_FRAME + 1), Err(WireError::FrameSize));
    assert_eq!(read_frame_header(&[0; 4]), Err(WireError::FrameSize));
    assert_eq!(read_frame_header(&((MAX_FRAME + 1) as u32).to_be_bytes()), Err(WireError::FrameSize));
}

#[test]
fn peers_are_pinned_by_the_digest_of_their_certificate() {
    let certificate = b"certificate";
    let pin = sha(certificate);
    assert_eq!(peer(Some(certificate), &pin, Some(b"hudson-guest/1")), Ok(()));
    assert_eq!(peer(None, &pin, Some(b"hudson-guest/1")), Err(WireError::MissingPeer));
    assert_eq!(peer(Some(b"another"), &pin, Some(b"hudson-guest/1")), Err(WireError::Peer));
    assert_eq!(peer(Some(certificate), &pin, Some(b"h2")), Err(WireError::Peer));
    assert_eq!(peer(Some(certificate), &pin, None), Err(WireError::Peer));
    assert_eq!(guest_wire::ALPN.as_bytes(), b"hudson-guest/1");
    let allocation = AllocationId::from_uuid(0x01996110_7c00_7000_8000_000000000001);
    assert_eq!(guest_name(allocation), "allocation-01996110-7c00-7000-8000-000000000001.sandbox.internal");
}

fn read_scope() -> ReadScope {
    ReadScope {
        version: 1,
        host_id: HostId::generate(),
        host_epoch: 1,
        project_id: ProjectId::generate(),
        sandbox_id: SandboxId::generate(),
        allocation_id: AllocationId::generate(),
        generation: 1,
    }
}
fn download(s: &ReadScope) -> FileDownloadHandle {
    FileDownloadHandle {
        id: OperationId::generate().to_string(),
        context: Some(w::Context {
            allocation_id: s.allocation_id.to_string(),
            generation: 1,
            boot_id: "boot".into(),
        }),
        capture: Some(w::FileCapture {
            capture_id: OperationId::generate().to_string(),
            path: "file".into(),
            size: 5,
            sha256: vec![1; 32],
            expires_unix_ms: 90_000,
        }),
        expires_unix_ms: 60_000,
    }
}
fn answered(s: &ReadScope, result: FileAccessResult) -> FileAccessObservation {
    FileAccessObservation {
        scope_json: s.render().into_bytes(),
        simulated: false,
        observed_unix_ms: 1000,
        result: Some(result),
    }
}

#[test]
fn file_reads_stay_within_their_scope_and_capture() {
    let s = read_scope();
    let bytes = s.render().into_bytes();
    assert_eq!(scope(&bytes, Some(s), 2000, 1000), Ok(s));
    assert_eq!(scope(&bytes, None, 2000, 1000), Err(DownloadError::Scope));
    assert_eq!(scope(&bytes, Some(s), 1000, 1000), Err(DownloadError::Scope));
    assert_eq!(scope(&bytes, Some(s), 31_001, 1000), Err(DownloadError::Scope));
    assert_eq!(scope(&vec![b' '; 4097], Some(s), 2000, 1000), Err(DownloadError::Scope));
    let mut owner = ownership();
    assert!(!s.matches_owner(&owner));
    owner.host_id = s.host_id.to_string();
    owner.project_id = s.project_id.to_string();
    owner.sandbox_id = s.sandbox_id.to_string();
    owner.allocation_id = s.allocation_id.to_string();
    assert!(s.matches_owner(&owner));

    let mut capture = FileCaptureRequest { scope_json: bytes.clone(), expires_unix_ms: 2000, path: "file".into() };
    assert_eq!(capture_request(&capture, Some(s), 1000), Ok(s));
    let h = download(&s);
    let taken = captured(&capture, Some(s), &answered(&s, FileAccessResult::Captured(h.clone())), false, 1000);
    assert!(taken.unwrap().same(&h));
    let simulated = captured(&capture, Some(s), &answered(&s, FileAccessResult::Captured(h.clone())), true, 1000);
    assert_eq!(simulated.err(), Some(DownloadError::Response));
    capture.path = "/etc".into();
    assert_eq!(capture_request(&capture, Some(s), 1000), Err(DownloadError::Path(FileError::Path)));

    let read = |offset, limit| FileDownloadRequest {
        scope_json: bytes.clone(),
        expires_unix_ms: 2000,
        handle: Some(h.clone()),
        offset,
        limit,
    };
    assert_eq!(read_request(&read(0, 3), Some(s), 1000), Ok(s));
    assert_eq!(read_request(&read(6, 3), Some(s), 1000), Err(DownloadError::Range));
    assert_eq!(read_request(&read(0, 0), Some(s), 1000), Err(DownloadError::Range));
    let piece = |data: &[u8], next_offset, at_end| w::FileChunk {
        handle: Some(wire::handle(h.capture.as_ref().unwrap()).unwrap()),
        offset: 0,
        size: 5,
        data: data.to_vec(),
        next_offset,
        at_end,
    };
    let got = |c| chunk(&read(0, 3), Some(s), &answered(&s, FileAccessResult::Chunk(c)), false, 1000);
    assert_eq!(got(piece(b"abc", 3, false)).unwrap().data, b"abc");
    assert_eq!(got(piece(b"abc", 3, true)).err(), Some(DownloadError::ChunkChanged));
    assert_eq!(got(piece(b"abc", 4, false)).err(), Some(DownloadError::ChunkChanged));
    assert_eq!(got(piece(b"abcd", 4, false)).err(), Some(DownloadError::ChunkChanged));
    assert_eq!(got(piece(b"", 0, false)).err(), Some(DownloadError::ChunkChanged));

    let release = FileReleaseRequest { scope_json: bytes, expires_unix_ms: 2000, handle: Some(h.clone()) };
    assert_eq!(release_request(&release, Some(s), 1000), Ok(s));
    let done = |x| released(&release, Some(s), &answered(&s, x), false, 1000);
    assert_eq!(done(FileAccessResult::Released(h.clone())), Ok(()));
    assert_eq!(done(FileAccessResult::Captured(h)), Err(DownloadError::Kind));
    assert_eq!(done(FileAccessResult::Released(download(&s))), Err(DownloadError::HandleChanged));
}

#[test]
fn file_access_log_lines_say_only_what_they_are() {
    let s = read_scope();
    let h = download(&s);
    assert_eq!(h.debug_text(), "FileDownloadHandle { .. }");
    assert_eq!(FileAccessResult::Captured(h.clone()).debug_text(), "Captured { .. }");
    assert_eq!(FileAccessResult::Released(h).debug_text(), "Released { .. }");
    assert_eq!(
        LiveOutputRequest { expires_unix_ms: -7 }.debug_text(),
        "LiveOutputRequest { expires_unix_ms: -7, .. }"
    );
    let o = LiveOutputObservation { host_id: "a\"b".into(), supervisor_epoch: 3, simulated: true };
    assert_eq!(
        o.debug_text(),
        "LiveOutputObservation { host_id: \"a\\\"b\", supervisor_epoch: 3, simulated: true, .. }"
    );
}

fn source_plan() -> SourcePlan {
    let upload = upload();
    SourcePlan {
        version: 1,
        owner: SourceOwner { scope: read_scope(), operation_id: upload.operation_id },
        upload,
        source_attempt: OperationId::generate(),
        created_unix_ms: 1,
        write_expires_unix_ms: 2,
        expires_unix_ms: 3,
        delete_after_unix_ms: 4,
    }
}

#[test]
fn source_objects_are_named_digested_and_retired_by_their_plan() {
    let p = source_plan();
    assert!(p.validate().is_ok());
    let s = &p.owner.scope;
    assert_eq!(
        p.object_key().unwrap(),
        format!(
            "file-source/v1/{}/{}/{}/{}/1/{}/1/{}",
            s.project_id.to_string(),
            s.sandbox_id.to_string(),
            p.upload.operation_id.to_string(),
            s.allocation_id.to_string(),
            s.host_id.to_string(),
            p.source_attempt.to_string()
        )
    );
    let digest = p.metadata_digest().unwrap();
    assert!(digest.len() == 64 && is_lower_hex(&digest));
    let mut later = p.clone();
    later.delete_after_unix_ms = 5;
    assert!(!later.same(&p));
    assert_ne!(later.metadata_digest().unwrap(), digest);
    assert!(p.debug_text().ends_with(", size: 10, .. }") && !p.debug_text().contains("dir/file"));
    let mut backwards = p.clone();
    backwards.expires_unix_ms = 1;
    assert!(backwards.validate().is_err() && backwards.object_key().is_err());
    let object = |v: Option<&str>| SourceRef {
        plan: p.clone(),
        etag: "etag".into(),
        object_version: v.map(str::to_owned),
    };
    let retirement = |old: Option<&str>, marker: Option<&str>| SourceRetirement {
        version: 1,
        plan_sha256: digest.clone(),
        previous: Some(object(old)),
        marker_etag: "marker".into(),
        marker_version: marker.map(str::to_owned),
    };
    assert!(object(None).validate().is_ok());
    assert!(retirement(Some("1"), Some("2")).validate(&p).is_ok());
    assert!(retirement(Some("null"), Some("null")).validate(&p).is_ok());
    assert!(retirement(Some("1"), Some("1")).validate(&p).is_err());
    assert!(retirement(Some("1"), None).validate(&p).is_err());
    assert!(retirement(None, None).validate(&later).is_err());
}

fn output_owner() -> OutputOwner {
    OutputOwner {
        project_id: ProjectId::generate(),
        sandbox_id: SandboxId::generate(),
        operation_id: OperationId::generate(),
        allocation_id: AllocationId::generate(),
        generation: 1,
        host_id: HostId::generate(),
        host_epoch: 1,
        boot_id: "boot".into(),
    }
}
fn ticket() -> OutputTicket {
    OutputTicket {
        version: 1,
        owner: output_owner(),
        upload_attempt: OperationId::generate(),
        output_limit: 100,
        created_unix_ms: 1,
        expires_unix_ms: 2,
        delete_after_unix_ms: 3,
    }
}
fn plan(t: &OutputTicket, name: OutputName, size: u64) -> OutputPlan {
    OutputPlan {
        version: 1,
        owner: t.owner.clone(),
        upload_attempt: t.upload_attempt,
        name,
        size,
        sha256: "a".repeat(64),
        seen: size,
        truncated: false,
        created_unix_ms: 1,
        expires_unix_ms: 2,
        delete_after_unix_ms: 3,
    }
}

#[test]
fn plan_digests_bind_what_the_plans_say() {
    let p = source_plan();
    let changes: [fn(&mut SourcePlan); 7] = [
        |x| x.source_attempt = OperationId::generate(),
        |x| x.owner.scope.host_id = HostId::generate(),
        |x| x.owner.scope.generation += 1,
        |x| x.upload.path = "dir/other".into(),
        |x| x.upload.size += 1,
        |x| x.upload.mode = 0o755,
        |x| x.delete_after_unix_ms += 1,
    ];
    for change in changes {
        let mut other = p.clone();
        change(&mut other);
        assert_ne!(other.metadata_digest().unwrap(), p.metadata_digest().unwrap());
    }
    let p = plan(&ticket(), OutputName::Stdout, 4);
    let changes: [fn(&mut OutputPlan); 6] = [
        |x| x.upload_attempt = OperationId::generate(),
        |x| x.owner.boot_id = "another".into(),
        |x| x.name = OutputName::Stderr,
        |x| x.sha256 = "b".repeat(64),
        |x| (x.seen, x.truncated) = (5, true),
        |x| x.delete_after_unix_ms += 1,
    ];
    for change in changes {
        let mut other = p.clone();
        change(&mut other);
        assert_ne!(other.metadata_digest().unwrap(), p.metadata_digest().unwrap());
    }
}

#[test]
fn object_keys_name_their_owner_attempt_and_stream_and_nothing_else() {
    let p = source_plan();
    let named: [fn(&mut SourcePlan); 8] = [
        |x| x.owner.scope.project_id = ProjectId::generate(),
        |x| x.owner.scope.sandbox_id = SandboxId::generate(),
        |x| {
            x.upload.operation_id = OperationId::generate();
            x.owner.operation_id = x.upload.operation_id;
        },
        |x| x.owner.scope.allocation_id = AllocationId::generate(),
        |x| x.owner.scope.generation = 11,
        |x| x.owner.scope.host_id = HostId::generate(),
        |x| x.owner.scope.host_epoch = 11,
        |x| x.source_attempt = OperationId::generate(),
    ];
    for change in named {
        let mut other = p.clone();
        change(&mut other);
        assert_ne!(other.object_key().unwrap(), p.object_key().unwrap());
    }
    let mut other = p.clone();
    other.upload.path = "dir/other".into();
    other.delete_after_unix_ms += 1;
    assert_eq!(other.object_key().unwrap(), p.object_key().unwrap());
    // A digit does not move from one numeral into the next.
    let numbered = |generation, host_epoch| {
        let mut other = p.clone();
        (other.owner.scope.generation, other.owner.scope.host_epoch) = (generation, host_epoch);
        other.object_key().unwrap()
    };
    assert_ne!(numbered(1, 12), numbered(11, 2));
    let p = plan(&ticket(), OutputName::Stdout, 4);
    let named: [fn(&mut OutputPlan); 9] = [
        |x| x.owner.project_id = ProjectId::generate(),
        |x| x.owner.sandbox_id = SandboxId::generate(),
        |x| x.owner.operation_id = OperationId::generate(),
        |x| x.owner.allocation_id = AllocationId::generate(),
        |x| x.owner.generation = 11,
        |x| x.owner.host_id = HostId::generate(),
        |x| x.owner.host_epoch = 11,
        |x| x.upload_attempt = OperationId::generate(),
        |x| x.name = OutputName::Stderr,
    ];
    for change in named {
        let mut other = p.clone();
        change(&mut other);
        assert_ne!(other.object_key().unwrap(), p.object_key().unwrap());
    }
    let mut other = p.clone();
    other.owner.boot_id = "another".into();
    other.sha256 = "b".repeat(64);
    assert_eq!(other.object_key().unwrap(), p.object_key().unwrap());
}

#[test]
fn environments_are_kept_in_key_order_with_each_key_once() {
    let pair = |k: &str, v: &str| (k.to_owned(), v.to_owned());
    let mut c = command(r#"{"argv":["x"],"deadline_unix_ms":9}"#).unwrap();
    c.env = vec![pair("b", "2"), pair("a", "1"), pair("B", "3")];
    let sorted = vec![pair("B", "3"), pair("a", "1"), pair("b", "2")];
    let id = OperationId::generate();
    let e = c.for_operation(id);
    assert_eq!(e.env, sorted);
    let wire = w::Execute {
        operation_id: id.to_string(),
        argv: vec!["x".into()],
        env: c.env.clone(),
        cwd: "/".into(),
        deadline_unix_ms: 9,
        output_limit: 1,
    };
    assert_eq!(model::Execute::from_wire(wire).unwrap().env, sorted);
}

#[test]
fn copies_hold_what_they_are_copies_of() {
    let mut c = command(r#"{"argv":["x","y"],"env":{"A":"1"},"deadline_unix_ms":9}"#).unwrap();
    let d = c.clone();
    assert_eq!(canonical_text(&d.document()), canonical_text(&c.document()));
    c.argv.push("z".into());
    assert_ne!(canonical_text(&d.document()), canonical_text(&c.document()));
    let body = OperationBody {
        response_expired: true,
        operation_id: "op".into(),
        sandbox_id: "sbx".into(),
        target_operation_id: Some("target".into()),
        kind: "execute".into(),
        status: "failed".into(),
        phase: None,
        output_status: Some("none".into()),
        result: None,
        error: Some(Json::Object(vec![("code".into(), Json::Text("x".into()))])),
        created_at: "then".into(),
        completed_at: Some("now".into()),
    };
    assert_eq!(format!("{:?}", body.clone()), format!("{body:?}"));
    let record = CommandRecord::fenced([9; 32]);
    assert_eq!(record.clone(), record);
    let retired = SourceRetirement {
        version: 1,
        plan_sha256: "a".repeat(64),
        previous: Some(SourceRef { plan: source_plan(), etag: "e".into(), object_version: Some("v".into()) }),
        marker_etag: "m".into(),
        marker_version: None,
    };
    assert!(retired.clone() == retired);
}

#[test]
fn output_plans_share_their_tickets_identity_and_limit() {
    let t = ticket();
    assert!(t.validate().is_ok());
    let plans = |out, err| OutputPlans {
        stdout: plan(&t, OutputName::Stdout, out),
        stderr: plan(&t, OutputName::Stderr, err),
    };
    assert!(t.validate_plans(&plans(40, 60)).is_ok());
    let mut swapped = plans(1, 1);
    swapped.stdout.name = OutputName::Stderr;
    assert!(t.validate_plans(&swapped).is_err());
    let mut foreign = plans(1, 1);
    foreign.stderr.upload_attempt = OperationId::generate();
    assert!(t.validate_plans(&foreign).is_err());
    let p = plan(&t, OutputName::Stdout, 4);
    assert!(p.object_key().unwrap().ends_with("/stdout"));
    assert_eq!(p.metadata_digest().unwrap().len(), 64);
    let mut more = p.clone();
    more.size = 5;
    more.seen = 5;
    assert_ne!(more.metadata_digest().unwrap(), p.metadata_digest().unwrap());
    let mut lost = p.clone();
    lost.seen = 3;
    assert!(lost.validate().is_err());
    let refs = OutputRefs {
        stdout: OutputRef { plan: plan(&t, OutputName::Stdout, 4), etag: "e".into(), object_version: None },
        stderr: OutputRef { plan: plan(&t, OutputName::Stderr, 0), etag: "e".into(), object_version: None },
    };
    assert!(refs.validate(&t.owner, 100).is_ok());
    assert!(refs.plans().same(&plans(4, 0)));
    assert!(refs.validate(&output_owner(), 100).is_err());
}

#[test]
fn live_output_scopes_are_bounded() {
    let mut s = LiveOutputScope {
        version: 1,
        owner: output_owner(),
        command_digest: [1; 32],
        output_limit: MAX_OUTPUT,
        deadline_unix_ms: 1,
    };
    assert!(s.validate().is_ok());
    s.output_limit = MAX_OUTPUT + 1;
    assert!(s.validate().is_err());
    s.output_limit = 0;
    assert!(s.validate().is_err());
    s.output_limit = 1;
    s.deadline_unix_ms = 0;
    assert!(s.validate().is_err());
}

#[test]
fn text_helpers_count_bytes_and_know_control_characters() {
    assert_eq!(byte_length("é結🔑"), 2 + 3 + 4);
    assert_eq!(split("a__b", '_'), ["a", "", "b"]);
    assert_eq!(split("", '_'), [""]);
    assert!(is_lower_hex("09af") && !is_lower_hex("0A"));
    for (text, control) in [("plain é", false), ("a\u{7f}", true), ("a\u{85}", true), ("\n", true)] {
        assert_eq!(contains_control(text), control);
    }
    assert!(is_bounded_identity("é", 2) && !is_bounded_identity("é", 1) && !is_bounded_identity("", 9));
}
