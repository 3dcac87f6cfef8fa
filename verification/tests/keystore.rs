//! Key labels, the choice of a keystore, and the requests to one that is elsewhere.

use base64::engine::general_purpose::URL_SAFE_NO_PAD;
use base64::Engine;
use signet_cli::error::CliError;
use signet_cli::keystore::broker::{
    near_expiry, outcome_notice, recovery_for, renewal_due, stage_notice, token_exp, token_near_expiry, OpEvent, OpStep,
    PerformOp, Recovery, Stage, PEER, RENEW_MARGIN_SECS,
};
use signet_cli::keystore::client::{
    delete_op, delete_reply, ecdh_op, ecdh_reply, generate_op, generate_reply, has_key_op,
    has_key_reply, identity_reply, list_reply, meta_op, meta_reply, ml_dsa_sign_op,
    ml_dsa_sign_reply, ml_kem_decapsulate_op, ml_kem_decapsulate_reply, show, sign_op,
    sign_reply, unexpected,
};
use signet_cli::keystore::delegated::{channel_err, request, ChannelError};
use signet_cli::keystore::{
    broker_credential_path, broker_delegation, check_identity_match, check_use, cli_error_from_wire, detect_tier,
    host_delegation, no_such_key, non_empty, read_channel_secret, resolve_broker_addr,
    select_backend, validate_handle, validate_mldsa_ctx, Backend, KeyLabel, KeyUse, Purpose,
    ResolvedAddr, Tier,
};
use signet_cli::wire::{to_response, KeyEntry, Op, OpErr, OpOk, Response};

#[test]
fn label_parse_accepts_canonical() {
    let l = KeyLabel::parse("hlin-ai-signing", Some(Purpose::Signing)).unwrap();
    assert_eq!(l.full(), "hlin-ai-signing");
    assert_eq!(l.purpose(), Purpose::Signing);
    let k = KeyLabel::parse("mira-ai-kem", None).unwrap();
    assert_eq!(k.purpose(), Purpose::Kem);
}

#[test]
fn label_parse_accepts_pq_purposes() {
    let s = KeyLabel::parse("hlin-ai-signing-pq", None).unwrap();
    assert_eq!(s.purpose(), Purpose::SigningPq);
    assert_eq!(s.handle(), "hlin-ai");
    assert_eq!(s.full(), "hlin-ai-signing-pq");
    let k = KeyLabel::parse("mira-ai-kem-pq", Some(Purpose::KemPq)).unwrap();
    assert_eq!(k.purpose(), Purpose::KemPq);
    assert!(KeyLabel::parse("hlin-ai-signing", Some(Purpose::SigningPq)).is_err());
    assert!(KeyLabel::parse("hlin-ai-signing-pq", Some(Purpose::Signing)).is_err());
    assert!(KeyLabel::parse("hlin-ai-kem-pq", Some(Purpose::Kem)).is_err());
    assert_eq!(Purpose::SigningPq.default_alg(), "ML-DSA-87");
    assert_eq!(Purpose::KemPq.default_alg(), "ML-KEM-1024");
}

#[test]
fn label_parse_rejects_bad() {
    assert!(KeyLabel::parse("hlin-ai", None).is_err());
    assert!(KeyLabel::parse("hlin-ai-kem", Some(Purpose::Signing)).is_err());
    assert!(KeyLabel::parse("hlin-signing", Some(Purpose::Signing)).is_err());
    assert!(KeyLabel::parse("Hlin-ai-signing", Some(Purpose::Signing)).is_err());
    assert!(KeyLabel::parse("hlin-ai-pq", None).is_err());
}

#[test]
fn a_label_is_read_back_from_its_text() {
    for purpose in [Purpose::Signing, Purpose::Kem, Purpose::SigningPq, Purpose::KemPq] {
        let label = KeyLabel::from_handle("a-b-ai", purpose).unwrap();
        let read = KeyLabel::parse(&label.full(), None).unwrap();
        assert_eq!(read.handle(), "a-b-ai");
        assert_eq!(read.purpose(), purpose);
        assert_eq!(read.copy().full(), label.full());
        assert!(label.full().ends_with(purpose.suffix()));
    }
    assert!(KeyLabel::from_handle("hlin", Purpose::Kem).is_err());
    assert!(validate_handle("hlin-ai").is_ok());
    assert!(validate_handle("hl/in-ai").is_err());
    assert!(validate_handle("").is_err());
}

#[test]
fn a_key_serves_its_purpose_only() {
    let signing = KeyLabel::parse("hlin-ai-signing", None).unwrap();
    let kem_pq = KeyLabel::parse("hlin-ai-kem-pq", None).unwrap();
    assert!(check_use(&signing, KeyUse::Sign).is_ok());
    assert!(check_use(&kem_pq, KeyUse::MlKemDecapsulate).is_ok());
    for wrong in [KeyUse::Ecdh, KeyUse::MlKemDecapsulate, KeyUse::MlDsaSign] {
        assert_eq!(check_use(&signing, wrong).unwrap_err().code, "unsupported_algorithm");
    }
    assert_eq!(no_such_key(&signing).code, "key_not_found");
    assert!(no_such_key(&signing).message.contains("hlin-ai-signing"));
}

#[test]
fn mldsa_ctx_ceiling_enforced() {
    assert!(validate_mldsa_ctx(b"signet:req:v1").is_ok());
    assert!(validate_mldsa_ctx(&[0u8; 255]).is_ok());
    assert!(validate_mldsa_ctx(&[0u8; 256]).is_err());
}

#[test]
fn tier_wire_str_is_underscored_distinct_from_display() {
    assert_eq!(Tier::SecureEnclave.wire_str(), "secure_enclave");
    assert_eq!(Tier::Software.wire_str(), "software");
    assert_eq!(Tier::SecureEnclave.as_str(), "secure-enclave");
}

fn addr(text: &str, ipv6: bool) -> ResolvedAddr {
    ResolvedAddr { text: text.to_string(), ipv6 }
}

#[test]
fn resolve_broker_addr_accepts_ip_and_hostname() {
    let a = resolve_broker_addr("127.0.0.1:8765", Ok(vec![addr("127.0.0.1:8765", false)]));
    assert_eq!(a.unwrap().text, "127.0.0.1:8765");
    let both = vec![addr("[::1]:8765", true), addr("127.0.0.1:8765", false)];
    let l = resolve_broker_addr("localhost:8765", Ok(both)).unwrap();
    assert_eq!(l.text, "127.0.0.1:8765");
    assert!(!l.ipv6, "IPv4 is preferred over the AAAA record");
    let l = resolve_broker_addr("six:8765", Ok(vec![addr("[::1]:8765", true)])).unwrap();
    assert_eq!(l.text, "[::1]:8765");
}

#[test]
fn resolve_broker_addr_rejects_malformed() {
    for text in ["127.0.0.1", "", "not-a-socket-addr"] {
        let e = resolve_broker_addr(text, Err("invalid socket address".into())).unwrap_err();
        assert_eq!(e.code, "config_error");
        assert!(e.message.ends_with("(host:port): invalid socket address"));
    }
    let e = resolve_broker_addr("h:1", Ok(vec![])).unwrap_err();
    assert_eq!(e.message, "SIGNET_BROKER_ADDR='h:1' resolved to no socket addresses");
}

#[test]
fn read_channel_secret_parses_hex_32() {
    let text = format!("{}\n", "ab".repeat(32));
    assert_eq!(read_channel_secret(&text).unwrap(), [0xab; 32]);
}

#[test]
fn read_channel_secret_rejects_wrong_length() {
    assert!(read_channel_secret("abab").is_err());
    assert!(read_channel_secret("not hex").is_err());
}

#[test]
fn check_identity_match_fails_closed_on_mismatch() {
    let err = check_identity_match(Some("zain-ai"), Some("mira-ai")).unwrap_err();
    assert_eq!(err.code, "identity_mismatch");
    assert_eq!(err.exit_code, 61);
    assert!(err.message.contains("zain-ai") && err.message.contains("mira-ai"));
}

#[test]
fn check_identity_match_ok_when_pin_equals_asserted() {
    assert!(check_identity_match(Some("mira-ai"), Some("mira-ai")).is_ok());
}

#[test]
fn check_identity_match_skips_when_nothing_to_check() {
    assert!(check_identity_match(Some("mira-ai"), None).is_ok());
    assert!(check_identity_match(None, None).is_ok());
    assert!(check_identity_match(None, Some("mira-ai")).is_ok());
}

#[test]
fn the_tier_follows_the_machine_unless_forced() {
    assert_eq!(detect_tier(Some("software"), true, true), Tier::Software);
    assert_eq!(detect_tier(None, false, true), Tier::SecureEnclave);
    assert_eq!(detect_tier(None, true, false), Tier::SecureEnclave);
    assert_eq!(detect_tier(None, false, false), Tier::Software);
}

#[test]
fn the_broker_comes_before_the_channel_and_both_before_the_machine() {
    let native = Tier::Software;
    assert_eq!(select_backend(true, true, true, native), Backend::Broker);
    assert_eq!(select_backend(true, false, true, native), Backend::BrokerAfterPickup);
    assert_eq!(select_backend(false, false, true, native), Backend::Delegated);
    assert_eq!(select_backend(false, true, false, native), Backend::Native(Tier::Software));
}

#[test]
fn blank_settings_count_as_unset() {
    assert_eq!(non_empty(Some("  ")), None);
    assert_eq!(non_empty(Some(" x ")).as_deref(), Some("x"));
    assert_eq!(non_empty(None), None);
}

#[test]
fn a_delegation_needs_all_its_settings() {
    assert!(host_delegation(None, None, None).unwrap().is_none());
    let d = host_delegation(Some("/c"), Some("id"), Some("/s")).unwrap().unwrap();
    assert_eq!((d.channel_dir.as_str(), d.channel_id.as_str()), ("/c", "id"));
    assert_eq!(d.secret_file, "/s");
    assert_eq!(host_delegation(Some("/c"), None, Some("/s")).err().unwrap().code, "config_error");
    assert_eq!(host_delegation(Some("/c"), Some("id"), None).err().unwrap().code, "config_error");
}

#[test]
fn the_broker_credential_is_named_or_found_by_handle() {
    assert_eq!(broker_credential_path("/d", Some("/x.json"), None).unwrap(), "/x.json");
    assert_eq!(
        broker_credential_path("/d", None, Some("hlin-ai")).unwrap(),
        "/d/garnet/hlin-ai.json"
    );
    assert!(broker_credential_path("/d", None, None).is_err());
}

#[test]
fn a_configured_broker_needs_an_address_and_a_credential() {
    let v4 = || Ok(vec![addr("127.0.0.1:8765", false)]);
    let unset = broker_delegation(Some("  "), Err("unread".into()), "/d", None, None);
    assert!(unset.unwrap().is_none());
    let d = broker_delegation(Some(" h:1 "), v4(), "/d", None, Some("hlin-ai"));
    let d = d.unwrap().unwrap();
    assert_eq!(d.broker_addr.text, "127.0.0.1:8765");
    assert_eq!(d.credential_path, "/d/garnet/hlin-ai.json");
    let e = broker_delegation(Some(" h "), Err("no port".into()), "/d", None, None).unwrap_err();
    assert_eq!(
        e.message,
        "SIGNET_BROKER_ADDR='h' is not a resolvable socket address (host:port): no port"
    );
    let e = broker_delegation(Some("h:1"), v4(), "/d", None, None).unwrap_err();
    assert!(e.message.contains("the broker credential is unresolved"));
}

#[test]
fn the_operator_hears_of_every_recovery() {
    assert_eq!(stage_notice(Stage::Wire, "hlin-ai"), None);
    assert_eq!(
        stage_notice(Stage::PinRefresh, "hlin-ai").unwrap(),
        "signet: the broker's identity changed (it no longer matches this credential's pin: a \
         re-provisioned broker); refreshing the credential for 'hlin-ai' by signed pickup…"
    );
    assert_eq!(
        stage_notice(Stage::Reauthorization, "hlin-ai").unwrap(),
        "signet: access is paused for 'hlin-ai'. Checking whether your guardian re-authorized \
         (one signed pickup)…"
    );
    assert_eq!(outcome_notice(Stage::PinRefresh, true, "hlin-ai"), None);
    assert_eq!(
        outcome_notice(Stage::Reauthorization, true, "hlin-ai").unwrap(),
        "signet: re-authorized. Reconnected as 'hlin-ai' with a fresh credential."
    );
    assert_eq!(
        outcome_notice(Stage::Reauthorization, false, "hlin-ai").unwrap(),
        "signet: no new authorization found. Access remains paused."
    );
}

#[test]
fn wire_codes_keep_their_meaning() {
    let e = cli_error_from_wire("key_not_found", "gone");
    assert_eq!((e.code, e.exit_code), ("key_not_found", 12));
    assert_eq!(e.message, "gone");
    let paused = cli_error_from_wire("access_paused", "m");
    assert_eq!((paused.code, paused.exit_code), ("access_paused", 77));
    assert_eq!(cli_error_from_wire("error", "m").exit_code, 1);
    let locked = cli_error_from_wire("se_locked", "this Mac is locked");
    assert_eq!((locked.code, locked.exit_code), ("se_locked", 52));
    assert_eq!(locked.message, "this Mac is locked");
    let unwritten = cli_error_from_wire("output_error", "m");
    assert_eq!((unwritten.code, unwritten.exit_code), ("output_error", 23));
    let other = cli_error_from_wire("no_such_code", "m");
    assert_eq!(other.exit_code, 1);
}

#[test]
fn a_failure_crosses_the_wire_with_its_code() {
    match to_response(Err(CliError::key_not_found("gone"))) {
        Response::Failed(OpErr { code, message }) => {
            let e = cli_error_from_wire(&code, &message);
            assert_eq!(e.code, "key_not_found");
            assert_eq!(e.message, "gone");
        }
        other => panic!("unexpected {other:?}"),
    }
    assert!(matches!(to_response(Ok(OpOk::Delete)), Response::Done(OpOk::Delete)));
}

const NOW: i64 = 1_750_000_000;

fn token_with_exp(delta: i64) -> String {
    let header = URL_SAFE_NO_PAD.encode(br#"{"alg":"ES256","typ":"at+jwt"}"#);
    let payload = URL_SAFE_NO_PAD.encode(format!(r#"{{"exp":{}}}"#, NOW + delta).as_bytes());
    format!("{header}.{payload}.c2ln")
}

#[test]
fn token_exp_reads_the_claim() {
    let target = NOW + 500;
    let payload = URL_SAFE_NO_PAD.encode(format!(r#"{{"sub":"hlin-ai","exp":{target}}}"#));
    let jws = format!("aGRy.{payload}.c2ln");
    assert_eq!(token_exp(&jws), Some(target));
}

#[test]
fn near_expiry_is_true_within_the_margin_and_for_junk() {
    assert!(!token_near_expiry(&token_with_exp(RENEW_MARGIN_SECS + 300), NOW));
    assert!(token_near_expiry(&token_with_exp(RENEW_MARGIN_SECS - 10), NOW));
    assert!(token_near_expiry(&token_with_exp(-10), NOW));
    assert!(token_near_expiry("not-a-jws", NOW));
    assert!(token_near_expiry("only.two", NOW));
    assert!(token_near_expiry("aaa.!!!not-base64!!!.bbb", NOW));
}

#[test]
fn the_margin_is_exact() {
    assert!(near_expiry(Some(NOW + RENEW_MARGIN_SECS - 1), NOW));
    assert!(!near_expiry(Some(NOW + RENEW_MARGIN_SECS), NOW));
    assert!(near_expiry(None, NOW));
    assert!(near_expiry(Some(i64::MIN), i64::MAX));
    assert!(renewal_due(true, Some(&token_with_exp(9000)), NOW));
    assert!(!renewal_due(false, Some(&token_with_exp(9000)), NOW));
    assert!(renewal_due(false, None, NOW));
}

#[test]
fn recovery_decision_pins_the_codes_and_the_once_guard() {
    let mut attempted = false;
    assert_eq!(recovery_for("broker_pin_mismatch", &mut attempted), Recovery::PinRefresh);
    assert_eq!(recovery_for("broker_pin_mismatch", &mut attempted), Recovery::PinRefresh);
    assert!(!attempted);
    assert_eq!(recovery_for("access_paused", &mut attempted), Recovery::ReauthOnce);
    assert_eq!(recovery_for("access_paused", &mut attempted), Recovery::Definitive);
    assert_eq!(recovery_for("token_denied", &mut attempted), Recovery::Definitive);
    let mut fresh = false;
    assert_eq!(recovery_for("token_denied", &mut fresh), Recovery::ReauthOnce);
    let mut untouched = false;
    assert_eq!(recovery_for("key_not_found", &mut untouched), Recovery::Definitive);
    assert_eq!(recovery_for("token_expired", &mut untouched), Recovery::Definitive);
    assert_eq!(recovery_for("unauthorized", &mut untouched), Recovery::Definitive);
    assert!(!untouched);
}

#[test]
fn token_request_failed_never_triggers_recovery_and_never_spends_the_guard() {
    let mut guard = false;
    assert_eq!(recovery_for("token_request_failed", &mut guard), Recovery::Definitive);
    assert_eq!(recovery_for("token_request_failed", &mut guard), Recovery::Definitive);
    assert!(!guard);
    assert_eq!(recovery_for("token_denied", &mut guard), Recovery::ReauthOnce);
}

fn op_go(step: OpStep, stage: Stage) -> PerformOp {
    match step {
        OpStep::Go(p) => {
            assert_eq!(p.stage(), stage);
            p
        }
        OpStep::Over(_) => panic!("expected the operation to go on"),
    }
}

fn op_over(step: OpStep) -> Result<OpOk, CliError> {
    match step {
        OpStep::Over(r) => r,
        OpStep::Go(_) => panic!("expected the operation to end"),
    }
}

fn failed(code: &str) -> OpEvent {
    OpEvent::Answered(Response::Failed(OpErr { code: code.into(), message: "m".into() }))
}

#[test]
fn an_operation_renews_an_expired_token_once() {
    let mut attempted = false;
    let p = PerformOp::start();
    assert_eq!(p.stage(), Stage::Token);
    let p = op_go(p.step(OpEvent::TokenReady, &mut attempted), Stage::Wire);
    let p = op_go(p.step(failed("token_expired"), &mut attempted), Stage::RenewedToken);
    let p = op_go(p.step(OpEvent::TokenReady, &mut attempted), Stage::RetriedWire);
    let e = op_over(p.step(failed("token_expired"), &mut attempted)).unwrap_err();
    assert_eq!(e.message, "m");
    assert!(!attempted);
}

#[test]
fn a_paused_access_is_picked_up_again_once() {
    let mut attempted = false;
    let p = op_go(PerformOp::start().step(OpEvent::TokenReady, &mut attempted), Stage::Wire);
    let p = op_go(p.step(failed("access_paused"), &mut attempted), Stage::Reauthorization);
    assert!(attempted);
    let p = op_go(p.step(OpEvent::Refreshed, &mut attempted), Stage::Token);
    let p = op_go(p.step(OpEvent::TokenReady, &mut attempted), Stage::Wire);
    let done = OpEvent::Answered(Response::Done(OpOk::Delete));
    assert!(matches!(op_over(p.step(done, &mut attempted)), Ok(OpOk::Delete)));
}

#[test]
fn a_failed_recovery_reports_the_failure_that_led_to_it() {
    let mut attempted = false;
    let p = op_go(PerformOp::start().step(OpEvent::TokenReady, &mut attempted), Stage::Wire);
    let p = op_go(p.step(failed("access_paused"), &mut attempted), Stage::Reauthorization);
    let event = OpEvent::RefreshFailed(CliError::generic("no pickup"));
    let e = op_over(p.step(event, &mut attempted)).unwrap_err();
    assert_eq!(e.code, "access_paused");

    let mut attempted = false;
    let mismatch = CliError::new(77, "broker_pin_mismatch", "pin");
    let p = op_go(PerformOp::start().step(OpEvent::TokenReady, &mut attempted), Stage::Wire);
    let p = op_go(p.step(OpEvent::WireFailed(mismatch), &mut attempted), Stage::PinRefresh);
    let event = OpEvent::RefreshFailed(CliError::generic("no pin"));
    let e = op_over(p.step(event, &mut attempted)).unwrap_err();
    assert_eq!(e.message, "no pin");
}

#[test]
fn requests_name_their_key_and_replies_are_checked() {
    let signing = KeyLabel::parse("hlin-ai-signing", None).unwrap();
    match generate_op(&signing, "ES256") {
        Op::Keygen { label, algorithm } => {
            assert_eq!(label, "hlin-ai-signing");
            assert_eq!(algorithm, "ES256");
        }
        other => panic!("unexpected {other:?}"),
    }
    assert!(matches!(meta_op(&signing), Op::Meta { .. }));
    assert!(matches!(delete_op(&signing), Op::Delete { .. }));
    assert!(matches!(has_key_op(&signing), Op::Exists { .. }));
    match sign_op(&signing, b"m") {
        Op::Sign { label, msg } => {
            assert_eq!(label, "hlin-ai-signing");
            assert_eq!(msg, b"m");
        }
        other => panic!("unexpected {other:?}"),
    }
    match ecdh_op(&signing, &[4, 5]) {
        Op::Ecdh { peer_pub_x963, .. } => assert_eq!(peer_pub_x963, vec![4, 5]),
        other => panic!("unexpected {other:?}"),
    }
    match ml_kem_decapsulate_op(&signing, &[6]) {
        Op::MlKemDecapsulate { ek, .. } => assert_eq!(ek, vec![6]),
        other => panic!("unexpected {other:?}"),
    }
    match ml_dsa_sign_op(&signing, b"m", b"c").unwrap() {
        Op::MlDsaSign { msg, ctx, .. } => assert_eq!((msg, ctx), (b"m".to_vec(), b"c".to_vec())),
        other => panic!("unexpected {other:?}"),
    }
    assert!(ml_dsa_sign_op(&signing, b"m", &[0; 256]).is_err());

    let m = generate_reply(
        &signing,
        OpOk::Keygen { public_key: vec![4], fingerprint: "fp".into(), algorithm: "A".into() },
    )
    .unwrap();
    assert_eq!(m.label, "hlin-ai-signing");
    assert_eq!(m.purpose, "signing");
    assert_eq!(m.storage, "secure-enclave");
    assert_eq!(m.public_key, vec![4]);
    let m = meta_reply(
        &signing,
        OpOk::Meta {
            public_key: vec![4],
            fingerprint: "fp".into(),
            algorithm: "A".into(),
            purpose: "kem".into(),
        },
    )
    .unwrap();
    assert_eq!((m.purpose.as_str(), m.fingerprint.as_str()), ("kem", "fp"));
    let e = meta_reply(&signing, OpOk::Delete).unwrap_err();
    assert_eq!(e.message, unexpected(&OpOk::Delete).message);
    assert_eq!(sign_reply(PEER, OpOk::Sign { signature: vec![1; 64] }).unwrap(), [1; 64]);
    assert!(sign_reply("p", OpOk::Sign { signature: vec![1; 63] }).is_err());
    assert_eq!(ecdh_reply("p", OpOk::Ecdh { shared_secret: vec![2; 32] }).unwrap(), [2; 32]);
    assert!(ecdh_reply("p", OpOk::Ecdh { shared_secret: vec![2; 31] }).is_err());
    let ok = OpOk::MlKemDecapsulate { shared_secret: vec![3; 32] };
    assert_eq!(ml_kem_decapsulate_reply("p", ok).unwrap(), [3; 32]);
    let ok = OpOk::MlDsaSign { signature: vec![4; 4627] };
    assert_eq!(ml_dsa_sign_reply("p", ok).unwrap().len(), 4627);
    assert!(ml_dsa_sign_reply("p", OpOk::MlDsaSign { signature: vec![4; 4626] }).is_err());
    let entry = KeyEntry {
        label: "hlin-ai-kem".into(),
        purpose: "kem".into(),
        algorithm: "A".into(),
        fingerprint: "fp".into(),
        public_key: vec![4],
    };
    let keys = list_reply(OpOk::List { keys: vec![entry] }).unwrap();
    assert_eq!(keys.len(), 1);
    assert_eq!(keys[0].label, "hlin-ai-kem");
    assert_eq!(keys[0].storage, "secure-enclave");
    assert!(delete_reply(OpOk::Delete).is_ok());
    assert!(delete_reply(OpOk::Exists { held: true }).is_err());
    assert!(has_key_reply(OpOk::Exists { held: true }).unwrap());
    let who = identity_reply(OpOk::Identity { handle: Some("hlin-ai".into()) }).unwrap();
    assert_eq!(who.as_deref(), Some("hlin-ai"));
}

#[test]
fn channel_failures_are_told_apart() {
    assert_eq!(channel_err(ChannelError::Timeout).code, "network_error");
    assert_eq!(channel_err(ChannelError::Auth).code, "authentication_failed");
    let e = channel_err(ChannelError::Other("io".into()));
    assert_eq!(e.message, "host-signer channel error: io");
    assert!(matches!(request(Ok(Response::Done(OpOk::Delete))), Ok(OpOk::Delete)));
    let refusal = OpErr { code: "key_not_found".into(), message: "gone".into() };
    assert_eq!(request(Ok(Response::Failed(refusal))).unwrap_err().code, "key_not_found");
    assert_eq!(request(Err(ChannelError::Timeout)).unwrap_err().exit_code, 30);
}

#[test]
fn an_unfit_answer_is_quoted() {
    let entry = || KeyEntry {
        label: "a-ai-kem".into(),
        purpose: "kem".into(),
        algorithm: "A".into(),
        fingerprint: "f\"".into(),
        public_key: vec![4, 255],
    };
    let one = "KeyEntry { label: \"a-ai-kem\", purpose: \"kem\", algorithm: \"A\", \
               fingerprint: \"f\\\"\", public_key: [4, 255] }";
    assert_eq!(
        show(&OpOk::List { keys: vec![entry(), entry()] }),
        format!("List {{ keys: [{one}, {one}] }}")
    );
    assert_eq!(show(&OpOk::List { keys: vec![] }), "List { keys: [] }");
    assert_eq!(show(&OpOk::Sign { signature: vec![] }), "Sign { signature: [] }");
    assert_eq!(show(&OpOk::Ecdh { shared_secret: vec![7] }), "Ecdh { shared_secret: [7] }");
    assert_eq!(
        show(&OpOk::Identity { handle: Some("a-ai".into()) }),
        "Identity { handle: Some(\"a-ai\") }"
    );
    assert_eq!(show(&OpOk::Exists { held: true }), "Exists { exists: true }");
    assert_eq!(
        unexpected(&OpOk::Delete).message,
        "the keystore backend returned an unexpected response for the request: Delete"
    );
}
