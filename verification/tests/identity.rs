//! Identities, idempotency keys, request digests, tokens, images and guest sizes.
use hudson_sandbox::canonical::{canonical_text, Json};
use hudson_sandbox::ids::{read_id, uuid_text, valid_uuid};
use hudson_sandbox::images::{valid_image_digest, ImageAllowlist, ImagePolicyError};
use hudson_sandbox::resources::supported;
use hudson_sandbox::{
    AllocationId, HostId, Id, IdParseError, IdempotencyKey, KeyError, OperationId, ProjectId, ProjectToken,
    RequestDigest, SandboxId, SnapshotId, TokenHash, TokenParseError, DIGEST_VERSION,
};
use sha2::Digest;

fn json(value: &serde_json::Value) -> Json {
    match value {
        serde_json::Value::Null => Json::Null,
        serde_json::Value::Bool(b) => Json::Bool(*b),
        serde_json::Value::Number(n) => Json::Number(n.to_string()),
        serde_json::Value::String(s) => Json::Text(s.clone()),
        serde_json::Value::Array(items) => Json::List(items.iter().map(json).collect()),
        serde_json::Value::Object(members) => {
            Json::Object(members.iter().map(|(k, v)| (k.clone(), json(v))).collect())
        }
    }
}
fn parse(text: &str) -> Json {
    json(&serde_json::from_str(text).unwrap())
}
fn digest(payload: &str) -> RequestDigest {
    RequestDigest::compute("POST", "/v1/sandboxes", &parse(payload))
}

#[test]
fn accepts_a_uuid_shaped_key() {
    let key = "80d6bfaa-7245-493b-8d08-2cdb2de9885c";
    assert_eq!(
        IdempotencyKey::parse(key).expect("valid").as_str(),
        key,
        "the documented example key must be accepted"
    );
}

#[test]
fn rejects_keys_outside_the_contract() {
    assert_eq!(IdempotencyKey::parse("short").err(), Some(KeyError::TooShort));
    assert_eq!(IdempotencyKey::parse(&"a".repeat(129)).err(), Some(KeyError::TooLong));
    for bad in ["has spaces in it!!", "has/a/slash/xxxx", "emoji-🔑-key-here"] {
        assert_eq!(IdempotencyKey::parse(bad).err(), Some(KeyError::BadCharacter), "accepted {bad:?}");
    }
}

#[test]
fn keys_are_case_sensitive() {
    let lower = IdempotencyKey::parse("abcdefghijklmnop").expect("valid");
    let upper = IdempotencyKey::parse("ABCDEFGHIJKLMNOP").expect("valid");
    assert_ne!(lower, upper);
}

#[test]
fn key_lengths_are_accepted_at_their_edges() {
    assert!(IdempotencyKey::parse(&"a".repeat(16)).is_ok());
    assert!(IdempotencyKey::parse(&"a".repeat(128)).is_ok());
    assert_eq!(IdempotencyKey::parse(&"a".repeat(15)).err(), Some(KeyError::TooShort));
    assert_eq!(IdempotencyKey::parse("").err(), Some(KeyError::TooShort));
}

#[test]
fn field_order_does_not_change_the_digest() {
    let a = Json::Object(vec![
        ("name".into(), Json::Text("one".into())),
        (
            "resources".into(),
            Json::Object(vec![
                ("vcpu".into(), Json::Number("2".into())),
                ("memory_mib".into(), Json::Number("1024".into())),
            ]),
        ),
    ]);
    let b = Json::Object(vec![
        (
            "resources".into(),
            Json::Object(vec![
                ("memory_mib".into(), Json::Number("1024".into())),
                ("vcpu".into(), Json::Number("2".into())),
            ]),
        ),
        ("name".into(), Json::Text("one".into())),
    ]);
    assert!(
        RequestDigest::compute("POST", "/v1/sandboxes", &a)
            == RequestDigest::compute("POST", "/v1/sandboxes", &b)
    );
    assert!(
        RequestDigest::compute("POST", "/v1/sandboxes", &a)
            == digest(r#"{"name": "one", "resources": {"vcpu": 2, "memory_mib": 1024}}"#)
    );
}

#[test]
fn argument_order_does_change_the_digest() {
    // Reordering a command's arguments changes what runs, so it must not
    // be treated as the same request.
    assert!(digest(r#"{"args": ["-rf", "/tmp/x"]}"#) != digest(r#"{"args": ["/tmp/x", "-rf"]}"#));
}

#[test]
fn a_changed_value_changes_the_digest() {
    assert!(digest(r#"{"vcpu": 2}"#) != digest(r#"{"vcpu": 4}"#));
}

#[test]
fn an_added_field_changes_the_digest() {
    assert!(digest(r#"{"vcpu": 2}"#) != digest(r#"{"vcpu": 2, "name": "x"}"#));
}

#[test]
fn the_target_is_part_of_the_digest() {
    let payload = parse(r#"{"vcpu": 2}"#);
    let a = RequestDigest::compute("POST", "/v1/sandboxes/a/execute", &payload);
    let b = RequestDigest::compute("POST", "/v1/sandboxes/b/execute", &payload);
    assert!(a != b, "the same payload against two sandboxes is two requests");
}

#[test]
fn the_method_is_part_of_the_digest() {
    let payload = parse("{}");
    let a = RequestDigest::compute("POST", "/v1/x", &payload);
    let b = RequestDigest::compute("DELETE", "/v1/x", &payload);
    assert!(a != b);
}

#[test]
fn method_and_target_cannot_be_confused_for_each_other() {
    // Without length prefixes these would hash identically.
    let payload = parse("{}");
    let a = RequestDigest::compute("POST", "/v1/x", &payload);
    let b = RequestDigest::compute("POS", "T/v1/x", &payload);
    assert!(a != b);
}

#[test]
fn debug_shows_only_a_short_prefix() {
    let value = digest(r#"{"vcpu": 2}"#);
    let rendered = value.debug_text();
    assert_eq!(rendered.len(), "RequestDigest(".len() + 8 + 1);
    assert!(!rendered.contains(&hex::encode(value.as_bytes())));
    assert!(rendered.contains(&hex::encode(&value.as_bytes()[..4])));
}

#[test]
fn request_digests_hash_length_prefixed_method_target_and_canonical_payload() {
    assert_eq!(DIGEST_VERSION, 1);
    let payload = parse(r#"{"b": [1, null, true], "a": "x\n\"é"}"#);
    let text = "{\"a\":\"x\\n\\\"é\",\"b\":[1,null,true]}";
    assert_eq!(canonical_text(&payload), text);
    let mut hash = sha2::Sha256::new();
    for part in ["POST", "/v1/x", text] {
        hash.update((part.len() as u64).to_be_bytes());
        hash.update(part.as_bytes());
    }
    let expected: [u8; 32] = hash.finalize().into();
    let got = RequestDigest::compute("POST", "/v1/x", &payload);
    assert_eq!(got.as_bytes(), &expected);
    assert!(RequestDigest::from_bytes(expected) == got);
}

#[test]
fn canonical_text_escapes_as_serde_json_does() {
    for text in ["", "plain", "tab\tquote\"slash\\", "\u{0}\u{8}\u{c}\u{1f}\u{7f}", "é結果🔑"] {
        assert_eq!(canonical_text(&Json::Text(text.into())), serde_json::to_string(text).unwrap());
    }
}

#[test]
fn canonical_text_tells_values_apart_and_member_orders_not() {
    let texts = ["1", "\"1\"", "[1]", "[[1]]", "{\"a\":1}", "{\"a\":\"1\"}", "{\"a1\":null}", "null", "\"null\"", "true", "[1,1]", "11"];
    for (i, left) in texts.iter().enumerate() {
        for (j, right) in texts.iter().enumerate() {
            let same = canonical_text(&parse(left)) == canonical_text(&parse(right));
            assert_eq!(same, i == j, "{left} {right}");
        }
    }
    let (x, y) = ("{\"b\":[{\"d\":1,\"c\":2}],\"a\":0}", "{\"a\":0,\"b\":[{\"c\":2,\"d\":1}]}");
    assert_eq!(canonical_text(&parse(x)), y);
    assert_eq!(canonical_text(&parse(y)), y);
}

#[test]
fn renders_with_its_prefix() {
    let uuid = uuid::Uuid::try_parse("01996110-7c00-7000-8000-000000000001").expect("valid uuid");
    let id = SandboxId::from_uuid(uuid.as_u128());
    assert_eq!(id.to_string(), "sbx_01996110-7c00-7000-8000-000000000001");
    assert_eq!(uuid_text(uuid.as_u128()), "01996110-7c00-7000-8000-000000000001");
}

#[test]
fn round_trips_through_a_string() {
    let id = SandboxId::generate();
    let parsed: SandboxId = id.to_string().parse().expect("round trip");
    assert_eq!(id, parsed);
}

#[test]
fn generates_version_seven() {
    assert_eq!(uuid::Uuid::from_u128(OperationId::generate().uuid()).get_version_num(), 7);
    assert!(valid_uuid(OperationId::generate().uuid()));
}

#[test]
fn rejects_another_resources_prefix() {
    let sandbox = SandboxId::generate().to_string();
    let err = sandbox.parse::<OperationId>().expect_err("wrong type");
    assert_eq!(err, IdParseError::WrongPrefix { expected: "op", found: "sbx".to_owned() });
}

#[test]
fn rejects_a_bare_uuid() {
    let bare = uuid::Uuid::now_v7().hyphenated().to_string();
    assert_eq!(bare.parse::<SandboxId>().expect_err("no prefix"), IdParseError::MissingSeparator);
}

#[test]
fn rejects_alternate_spellings() {
    let uuid = uuid::Uuid::now_v7();
    for spelling in [
        uuid.hyphenated().to_string().to_uppercase(),
        uuid.simple().to_string(),
        format!("{{{}}}", uuid.hyphenated()),
        format!("urn:uuid:{}", uuid.hyphenated()),
    ] {
        let value = format!("sbx_{spelling}");
        assert!(
            matches!(value.parse::<SandboxId>(), Err(IdParseError::MalformedUuid(_))),
            "accepted non-canonical spelling: {value}"
        );
    }
}

#[test]
fn rejects_a_truncated_value() {
    assert!(matches!(
        "sbx_01996110-7c00-7000-8000".parse::<SandboxId>(),
        Err(IdParseError::MalformedUuid(_))
    ));
}

#[test]
fn rejects_a_uuid_of_the_wrong_version() {
    // A v4 UUID is well formed but carries no timestamp, so it is not one
    // of ours and must not be accepted from a caller.
    let v4 = uuid::Uuid::try_parse("f47ac10b-58cc-4372-a567-0e02b2c3d479").expect("valid uuid");
    let value = format!("sbx_{}", v4.hyphenated());
    assert_eq!(
        value.parse::<SandboxId>().expect_err("wrong version"),
        IdParseError::WrongUuidVersion(4)
    );
}

#[test]
fn serializes_as_its_prefixed_string() {
    let id = ProjectId::generate();
    let json = serde_json::to_string(&id.to_string()).expect("serialize");
    assert_eq!(json, format!("\"{}\"", id.to_string()));
    let text: String = serde_json::from_str(&json).expect("deserialize");
    let back: ProjectId = text.parse().expect("parse");
    assert_eq!(id, back);
}

#[test]
fn every_identity_has_its_own_prefix() {
    let n = 0x01996110_7c00_7000_8000_000000000001;
    let tail = "_01996110-7c00-7000-8000-000000000001";
    assert_eq!(ProjectId::from_uuid(n).to_string(), format!("prj{tail}"));
    assert_eq!(OperationId::from_uuid(n).to_string(), format!("op{tail}"));
    assert_eq!(SnapshotId::from_uuid(n).to_string(), format!("snp{tail}"));
    assert_eq!(AllocationId::from_uuid(n).to_string(), format!("alc{tail}"));
    assert_eq!(HostId::from_uuid(n).to_string(), format!("hst{tail}"));
    assert_eq!(read_id::<HostId>(&format!("hst{tail}")), Some(HostId::from_uuid(n)));
    assert_eq!(read_id::<HostId>(&format!("alc{tail}")), None);
    assert!(!valid_uuid(0));
    // The version alone is not enough: the layout must be the RFC's too.
    assert!(!valid_uuid(0x00000000_0000_7000_0000_000000000000));
}

#[test]
fn requires_explicit_bounded_configuration() {
    assert!(matches!(ImageAllowlist::new(vec![]), Err(ImagePolicyError::Size)));
    let make = |n: usize| (0..n).map(|i| format!("sha256:{i:064x}")).collect::<Vec<_>>();
    assert!(ImageAllowlist::new(make(256)).is_ok());
    assert!(matches!(ImageAllowlist::new(make(257)), Err(ImagePolicyError::Size)));
}

#[test]
fn rejects_ambiguous_or_malformed_configuration() {
    let valid = format!("sha256:{}", "a".repeat(64));
    for value in [
        "latest".into(),
        "sha256:abc".into(),
        valid.to_uppercase(),
        format!("sha256:{}", "A".repeat(64)),
        format!("{valid}\n"),
        format!("sha256:{}", "g".repeat(64)),
    ] {
        assert!(matches!(ImageAllowlist::new(vec![value]), Err(ImagePolicyError::Digest)));
    }
    assert!(matches!(
        ImageAllowlist::new(vec![valid.clone(), valid]),
        Err(ImagePolicyError::Duplicate)
    ));
}

#[test]
fn allows_only_configured_digests() {
    let a = format!("sha256:{}", "a".repeat(64));
    let policy = ImageAllowlist::new(vec![a.clone()]).unwrap();
    assert!(policy.allows(&a));
    assert!(!policy.allows(&format!("sha256:{}", "b".repeat(64))));
    assert!(valid_image_digest(&a));
    assert!(!valid_image_digest("sha256:"));
}

#[test]
fn supported_guest_sizes_include_edges_and_reject_outside_each_dimension() {
    assert!(supported(1, 128, 64));
    assert!(supported(4, 8192, 65536));
    for (cpu, memory, disk) in [
        (0, 128, 64),
        (5, 128, 64),
        (1, 127, 64),
        (1, 8193, 64),
        (1, 128, 63),
        (1, 128, 65537),
        (-1, 128, 64),
        (1, -1, 64),
        (1, 128, -1),
        (1, i128::from(u64::MAX), 64),
        (1, 128, i128::from(u64::MAX)),
    ] {
        assert!(
            !supported(cpu, memory, disk),
            "accepted unsupported guest size {cpu}/{memory}/{disk}"
        );
    }
}

#[test]
fn round_trips_through_its_rendered_form() {
    let token = ProjectToken::generate().expect("generate");
    let key_id = token.key_id().clone();
    let hash = token.hash();

    let parsed = ProjectToken::parse(&token.render_once()).expect("parse");
    assert_eq!(parsed.key_id(), &key_id);
    assert!(parsed.hash().verify(&hash));
}

#[test]
fn tokens_are_made_of_all_their_entropy_or_not_at_all() {
    let token = ProjectToken::from_entropy(Some([0xab; 8]), Some([0x0f; 32])).unwrap();
    assert_eq!(token.key_id().as_str(), "abababababababab");
    assert_eq!(token.render_once(), format!("hsb_{}_{}", "ab".repeat(8), "0f".repeat(32)));
    assert!(ProjectToken::from_entropy(None, Some([1; 32])).is_err());
    assert!(ProjectToken::from_entropy(Some([1; 8]), None).is_err());
}

#[test]
fn two_tokens_differ() {
    let a = ProjectToken::generate().expect("a");
    let b = ProjectToken::generate().expect("b");
    assert_ne!(a.key_id(), b.key_id());
    assert!(!a.hash().verify(&b.hash()));
}

#[test]
fn a_different_secret_does_not_verify() {
    // Hex case changes do not change the secret bytes. Exercise every
    // possible first nibble, using a different value rather than a new case.
    for first in "0123456789abcdef".chars() {
        let original = format!("hsb_0000000000000000_{first}{}", "0".repeat(63));
        let replacement = if first == '0' { '1' } else { '0' };
        let altered = format!("hsb_0000000000000000_{replacement}{}", "0".repeat(63));
        let real = ProjectToken::parse(&original).expect("original parses");
        let forged = ProjectToken::parse(&altered).expect("altered parses");
        assert_eq!(forged.key_id(), real.key_id());
        assert!(
            !forged.hash().verify(&real.hash()),
            "a changed secret byte verified against the real hash"
        );
    }
}

#[test]
fn rejects_malformed_values() {
    for (value, expected) in [
        ("", TokenParseError::Malformed),
        ("hsb", TokenParseError::Malformed),
        ("hsb_0011223344556677", TokenParseError::Malformed),
        ("hsb_a_b_c", TokenParseError::Malformed),
        // Guards the encoding choice: a secret containing the separator
        // would be indistinguishable from an extra field.
        ("hsb_0011223344556677_aa_bb", TokenParseError::Malformed),
        ("xxx_0011223344556677_AAAA", TokenParseError::WrongPrefix),
        ("hsb_zz_AAAA", TokenParseError::BadKeyId),
        ("hsb_gggggggggggggggg_AAAA", TokenParseError::BadKeyId),
        ("hsb_0011223344556677_short", TokenParseError::BadSecret),
        ("hsb_0011223344556677_!!!!", TokenParseError::BadSecret),
        (
            // Right length, not hex.
            "hsb_0011223344556677_zzzzzzzzzzzzzzzzzzzzzzzzzzzzzzzzzzzzzzzzzzzzzzzzzzzzzzzzzzzzzzzz",
            TokenParseError::BadSecret,
        ),
    ] {
        assert_eq!(
            ProjectToken::parse(value).err(),
            Some(expected),
            "unexpected result for {value:?}"
        );
    }
}

#[test]
fn debug_never_reveals_the_secret() {
    let token = ProjectToken::generate().expect("generate");
    let rendered = token.clone().render_once();
    let secret = rendered.rsplit_once('_').expect("has a secret").1;

    let debug = token.debug_text();
    assert!(debug.contains(token.key_id().as_str()), "key id should show");
    assert!(!debug.contains(secret), "secret leaked through Debug");
}

#[test]
fn the_log_form_of_a_token_quotes_its_key() {
    let token = ProjectToken::from_entropy(Some([0xab; 8]), Some([0x0f; 32])).unwrap();
    assert_eq!(
        token.debug_text(),
        r#"ProjectToken { key_id: TokenKeyId("abababababababab"), secret: "<redacted>" }"#
    );
    assert_eq!(format!("{:?}", token.key_id()), r#"TokenKeyId("abababababababab")"#);
}

#[test]
fn hash_debug_reveals_nothing() {
    let token = ProjectToken::generate().expect("generate");
    let hash = token.hash();
    let debug = hash.debug_text();
    assert_eq!(debug, "TokenHash(..)");
    assert!(!debug.contains(&hex::encode(hash.as_bytes())));
}

#[test]
fn a_token_is_stored_as_the_digest_of_its_secret() {
    let secret = [0xabu8; 32];
    let text = format!("hsb_0011223344556677_{}", hex::encode(secret));
    let token = ProjectToken::parse(&text).expect("parse");
    let expected: [u8; 32] = sha2::Sha256::digest(secret).into();
    assert_eq!(token.hash().as_bytes(), &expected);
    assert!(TokenHash::from_bytes(expected).verify(&token.hash()));
    assert_eq!(token.key_id().as_str(), "0011223344556677");
    assert_eq!(token.render_once(), text);
}

#[test]
fn the_case_of_a_secret_does_not_matter_but_its_digits_do() {
    let digits = "0123456789abcdef".repeat(4);
    let parse = |digits: &str| ProjectToken::parse(&format!("hsb_00112233445566aA_{digits}")).expect("parse");
    let token = parse(&digits);
    let upper = parse(&digits.to_uppercase());
    assert!(upper.hash().verify(&token.hash()));
    assert_eq!(upper.key_id(), token.key_id());
    assert_eq!(upper.render_once(), token.clone().render_once());
    for at in [0, 31, 63] {
        let mut other = digits.clone();
        other.replace_range(at..at + 1, if &digits[at..at + 1] == "7" { "8" } else { "7" });
        let other = parse(&other);
        assert_eq!(other.key_id(), token.key_id());
        assert!(!other.hash().verify(&token.hash()));
        assert_ne!(other.render_once(), token.clone().render_once());
    }
}
