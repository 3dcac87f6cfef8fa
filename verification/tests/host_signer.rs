//! The host signer: operations on a channel are scoped to its PRSN.

use signet_cli::clock::Span;
use signet_cli::error::CliError;
use signet_cli::host_signer::{
    eviction_notice, handle_op, idle_backoff, own_keys, parse_secret_hex, pass_step, plan_op,
    poll_step, scoped_label, ChannelConfig, ChannelState, KeystoreCall, PollEvent, Registry,
    EVICT_AFTER_MISSING_POLLS, MLKEM1024_CT_LEN,
};
use signet_cli::keystore::listing::sort_by_label;
use signet_cli::keystore::software::{decapsulate, generate_pq, sign_pq};
use signet_cli::keystore::{
    check_use, no_such_key, KeyLabel, KeyMeta, KeyUse, Keystore, Purpose, Tier,
};
use signet_cli::wire::{Op, OpErr, OpOk, Response};
use std::cell::RefCell;

const HANDLE: &str = "hlin-ai";

struct Held {
    label: String,
    purpose: Purpose,
    algorithm: String,
    secret: Vec<u8>,
    public_key: Vec<u8>,
}

/// Keys in memory: the post-quantum ones are real, the classical ones are fixed bytes.
struct MemoryKeystore {
    keys: RefCell<Vec<Held>>,
}

fn keystore() -> MemoryKeystore {
    MemoryKeystore { keys: RefCell::new(Vec::new()) }
}

impl MemoryKeystore {
    fn secret(&self, label: &KeyLabel) -> Result<Vec<u8>, CliError> {
        let full = label.full();
        let keys = self.keys.borrow();
        match keys.iter().find(|k| k.label == full) {
            Some(k) => Ok(k.secret.clone()),
            None => Err(no_such_key(label)),
        }
    }
}

fn meta_of(k: &Held) -> KeyMeta {
    KeyMeta {
        label: k.label.clone(),
        purpose: k.purpose.as_str().to_string(),
        algorithm: k.algorithm.clone(),
        storage: "software".to_string(),
        fingerprint: format!("fp-{}", k.label),
        public_key: k.public_key.clone(),
    }
}

impl Keystore for MemoryKeystore {
    fn tier(&self) -> Tier {
        Tier::Software
    }

    fn generate(&self, label: &KeyLabel, algorithm: &str) -> Result<KeyMeta, CliError> {
        if self.has_key(label)? {
            return Err(CliError::key_exists("taken"));
        }
        let (secret, public_key) = if label.purpose().is_pq() {
            let pair = generate_pq(label.purpose()).expect("entropy");
            (pair.secret, pair.public_key)
        } else {
            (vec![5u8; 32], vec![4u8; 65])
        };
        let held = Held {
            label: label.full(),
            purpose: label.purpose(),
            algorithm: algorithm.to_string(),
            secret,
            public_key,
        };
        let meta = meta_of(&held);
        self.keys.borrow_mut().push(held);
        Ok(meta)
    }

    fn meta(&self, label: &KeyLabel) -> Result<KeyMeta, CliError> {
        let full = label.full();
        let keys = self.keys.borrow();
        match keys.iter().find(|k| k.label == full) {
            Some(k) => Ok(meta_of(k)),
            None => Err(no_such_key(label)),
        }
    }

    fn sign(&self, label: &KeyLabel, _msg: &[u8]) -> Result<[u8; 64], CliError> {
        check_use(label, KeyUse::Sign)?;
        self.secret(label)?;
        Ok([7u8; 64])
    }

    fn ecdh(&self, label: &KeyLabel, _peer: &[u8]) -> Result<[u8; 32], CliError> {
        check_use(label, KeyUse::Ecdh)?;
        self.secret(label)?;
        Ok([8u8; 32])
    }

    fn ml_kem_decapsulate(&self, label: &KeyLabel, ek: &[u8]) -> Result<[u8; 32], CliError> {
        check_use(label, KeyUse::MlKemDecapsulate)?;
        decapsulate(self.secret(label)?, ek)
    }

    fn ml_dsa_sign(&self, label: &KeyLabel, msg: &[u8], ctx: &[u8]) -> Result<Vec<u8>, CliError> {
        check_use(label, KeyUse::MlDsaSign)?;
        sign_pq(self.secret(label)?, msg, ctx)
    }

    fn list(&self) -> Result<Vec<KeyMeta>, CliError> {
        Ok(sort_by_label(self.keys.borrow().iter().map(meta_of).collect()))
    }

    fn delete(&self, label: &KeyLabel) -> Result<(), CliError> {
        let full = label.full();
        self.keys.borrow_mut().retain(|k| k.label != full);
        Ok(())
    }

    fn has_key(&self, label: &KeyLabel) -> Result<bool, CliError> {
        let full = label.full();
        Ok(self.keys.borrow().iter().any(|k| k.label == full))
    }
}

fn keygen(ks: &MemoryKeystore, label: &str, algorithm: &str) -> Response {
    handle_op(
        ks,
        HANDLE,
        Op::Keygen { label: label.to_string(), algorithm: algorithm.to_string() },
    )
}

fn refusal(resp: Response) -> OpErr {
    match resp {
        Response::Failed(e) => e,
        other => panic!("expected a refusal, got {other:?}"),
    }
}

#[test]
fn exists_list_delete() {
    let ks = keystore();
    keygen(&ks, "hlin-ai-signing", "ES256");
    assert!(matches!(
        handle_op(&ks, HANDLE, Op::Exists { label: "hlin-ai-signing".into() }),
        Response::Done(OpOk::Exists { held: true })
    ));
    match handle_op(&ks, HANDLE, Op::List) {
        Response::Done(OpOk::List { keys }) => {
            assert!(keys.iter().any(|k| k.label == "hlin-ai-signing"));
        }
        other => panic!("expected list ok, got {other:?}"),
    }
    assert!(matches!(
        handle_op(&ks, HANDLE, Op::Delete { label: "hlin-ai-signing".into() }),
        Response::Done(OpOk::Delete)
    ));
    assert!(matches!(
        handle_op(&ks, HANDLE, Op::Exists { label: "hlin-ai-signing".into() }),
        Response::Done(OpOk::Exists { held: false })
    ));
}

#[test]
fn cross_prsn_label_is_refused() {
    let ks = keystore();
    let e = refusal(keygen(&ks, "mira-ai-signing", "ES256"));
    assert_eq!(e.code, "authorization_denied");
}

#[test]
fn sign_on_kem_key_is_refused() {
    let ks = keystore();
    keygen(&ks, "hlin-ai-kem", "ECDH-ES+A256KW");
    let e = refusal(handle_op(
        &ks,
        HANDLE,
        Op::Sign { label: "hlin-ai-kem".into(), msg: b"x".to_vec() },
    ));
    assert_eq!(e.code, "unsupported_algorithm");
}

#[test]
fn pq_ops_dispatch_and_refuse_on_software_tier() {
    let ks = keystore();
    let e = refusal(handle_op(
        &ks,
        HANDLE,
        Op::MlKemDecapsulate {
            label: "hlin-ai-kem-pq".into(),
            ek: vec![0xE2; MLKEM1024_CT_LEN],
        },
    ));
    assert_eq!(e.code, "key_not_found");
    match keygen(&ks, "hlin-ai-signing-pq", "ML-DSA-87") {
        Response::Done(OpOk::Keygen { public_key, .. }) => {
            assert_eq!(public_key.len(), 2592, "FIPS 204 vk length");
        }
        other => panic!("expected keygen ok, got {other:?}"),
    }
    match handle_op(
        &ks,
        HANDLE,
        Op::MlDsaSign {
            label: "hlin-ai-signing-pq".into(),
            msg: b"m".to_vec(),
            ctx: b"signet:req:v1".to_vec(),
        },
    ) {
        Response::Done(OpOk::MlDsaSign { signature }) => {
            assert_eq!(signature.len(), 4627, "FIPS 204 signature length");
        }
        other => panic!("expected ml-dsa signature, got {other:?}"),
    }
}

#[test]
fn pq_ops_validate_ek_and_ctx_at_dispatch() {
    let ks = keystore();
    let e = refusal(handle_op(
        &ks,
        HANDLE,
        Op::MlKemDecapsulate { label: "hlin-ai-kem-pq".into(), ek: vec![0xE2; 1567] },
    ));
    assert_eq!(e.code, "invalid_arguments");
    assert!(e.message.contains("1568"), "message names the length: {}", e.message);
    let e = refusal(handle_op(
        &ks,
        HANDLE,
        Op::MlDsaSign {
            label: "hlin-ai-signing-pq".into(),
            msg: b"m".to_vec(),
            ctx: vec![0u8; 256],
        },
    ));
    assert_eq!(e.code, "invalid_arguments");
}

#[test]
fn pq_ops_are_scoped_to_the_channels_prsn() {
    let ks = keystore();
    let e = refusal(handle_op(
        &ks,
        HANDLE,
        Op::MlKemDecapsulate {
            label: "mira-ai-kem-pq".into(),
            ek: vec![0xE2; MLKEM1024_CT_LEN],
        },
    ));
    assert_eq!(e.code, "authorization_denied");
}

#[test]
fn pq_keygen_works_on_software_tier() {
    let ks = keystore();
    match keygen(&ks, "hlin-ai-kem-pq", "ML-KEM-1024") {
        Response::Done(OpOk::Keygen { public_key, .. }) => {
            assert_eq!(public_key.len(), 1568, "FIPS 203 ek length");
        }
        other => panic!("expected keygen ok, got {other:?}"),
    }
}

#[test]
fn list_is_scoped_to_the_channels_prsn() {
    let ks = keystore();
    for label in ["hlin-ai-signing", "mira-ai-signing"] {
        ks.generate(&KeyLabel::parse(label, None).unwrap(), "ES256").unwrap();
    }
    match handle_op(&ks, HANDLE, Op::List) {
        Response::Done(OpOk::List { keys }) => {
            assert_eq!(keys.len(), 1);
            assert_eq!(keys[0].label, "hlin-ai-signing");
        }
        other => panic!("expected list ok, got {other:?}"),
    }
}

#[test]
fn own_keys_keeps_the_order_of_the_listing() {
    let ks = keystore();
    for label in ["mira-ai-kem", "hlin-ai-signing", "hlin-ai-kem"] {
        ks.generate(&KeyLabel::parse(label, None).unwrap(), "A").unwrap();
    }
    let entries = own_keys(ks.list().unwrap(), HANDLE);
    let labels: Vec<&str> = entries.iter().map(|e| e.label.as_str()).collect();
    assert_eq!(labels, ["hlin-ai-kem", "hlin-ai-signing"]);
    assert_eq!(entries[0].public_key, vec![4u8; 65]);
}

#[test]
fn every_operation_reaches_the_keystore() {
    let ks = keystore();
    keygen(&ks, "hlin-ai-signing", "ES256");
    keygen(&ks, "hlin-ai-kem", "ECDH-ES+A256KW");
    match handle_op(
        &ks,
        HANDLE,
        Op::Sign { label: "hlin-ai-signing".into(), msg: b"m".to_vec() },
    ) {
        Response::Done(OpOk::Sign { signature }) => assert_eq!(signature, vec![7u8; 64]),
        other => panic!("expected a signature, got {other:?}"),
    }
    match handle_op(
        &ks,
        HANDLE,
        Op::Ecdh { label: "hlin-ai-kem".into(), peer_pub_x963: vec![4; 65] },
    ) {
        Response::Done(OpOk::Ecdh { shared_secret }) => assert_eq!(shared_secret, vec![8u8; 32]),
        other => panic!("expected a shared secret, got {other:?}"),
    }
    match handle_op(&ks, HANDLE, Op::Meta { label: "hlin-ai-kem".into() }) {
        Response::Done(OpOk::Meta { public_key, fingerprint, algorithm, purpose }) => {
            assert_eq!(public_key, vec![4u8; 65]);
            assert_eq!(fingerprint, "fp-hlin-ai-kem");
            assert_eq!(algorithm, "ECDH-ES+A256KW");
            assert_eq!(purpose, "kem");
        }
        other => panic!("expected metadata, got {other:?}"),
    }
    match handle_op(&ks, HANDLE, Op::Identity) {
        Response::Done(OpOk::Identity { handle }) => assert_eq!(handle.as_deref(), Some(HANDLE)),
        other => panic!("expected the identity, got {other:?}"),
    }
}

#[test]
fn a_plan_never_leaves_the_prsn() {
    assert_eq!(scoped_label("hlin-ai-kem", HANDLE).unwrap().full(), "hlin-ai-kem");
    let e = scoped_label("mira-ai-kem", HANDLE).unwrap_err();
    assert_eq!(e.code, "authorization_denied");
    assert_eq!(scoped_label("hlin-ai", HANDLE).unwrap_err().code, "invalid_arguments");
    assert!(matches!(plan_op(HANDLE, Op::List), Ok(KeystoreCall::List)));
    assert!(plan_op(HANDLE, Op::Delete { label: "mira-ai-kem".into() }).is_err());
}

#[test]
fn channel_state_refuses_ops_before_enrollment() {
    let ks = keystore();
    let mut st = ChannelState::from_pin(None);
    let h = st.handle(&ks, Op::Sign { label: "hlin-ai-signing".into(), msg: b"x".to_vec() });
    assert_eq!(refusal(h.response).code, "authorization_denied");
    match st.handle(&ks, Op::Identity).response {
        Response::Done(OpOk::Identity { handle }) => assert_eq!(handle, None),
        other => panic!("expected no identity before enrollment, got {other:?}"),
    }
    assert!(st.pinned().is_none());
}

#[test]
fn channel_state_pins_on_first_keygen_and_scopes() {
    let ks = keystore();
    let mut st = ChannelState::from_pin(None);
    let h = st.handle(
        &ks,
        Op::Keygen { label: "hlin-ai-signing".into(), algorithm: "ES256".into() },
    );
    assert!(matches!(h.response, Response::Done(OpOk::Keygen { .. })));
    assert!(h.newly_pinned);
    assert_eq!(st.pinned(), Some("hlin-ai"));
    let h = st.handle(&ks, Op::Sign { label: "hlin-ai-signing".into(), msg: b"x".to_vec() });
    assert!(matches!(h.response, Response::Done(OpOk::Sign { .. })));
    assert!(!h.newly_pinned);
    let h = st.handle(
        &ks,
        Op::Keygen { label: "mira-ai-signing".into(), algorithm: "ES256".into() },
    );
    assert_eq!(refusal(h.response).code, "authorization_denied");
    assert_eq!(st.pinned(), Some("hlin-ai"));
}

#[test]
fn channel_state_pin_persists_across_reload() {
    let ks = keystore();
    let pin: String = {
        let mut st = ChannelState::from_pin(None);
        st.handle(
            &ks,
            Op::Keygen { label: "hlin-ai-signing".into(), algorithm: "ES256".into() },
        );
        st.pinned().unwrap().to_string()
    };
    let mut reloaded = ChannelState::from_pin(Some(&pin));
    assert_eq!(reloaded.pinned(), Some("hlin-ai"));
    let h = reloaded.handle(&ks, Op::Sign { label: "hlin-ai-signing".into(), msg: b"x".to_vec() });
    assert!(matches!(h.response, Response::Done(OpOk::Sign { .. })));
}

#[test]
fn a_failed_keygen_pins_nothing() {
    let ks = keystore();
    keygen(&ks, "hlin-ai-signing", "ES256");
    let mut st = ChannelState::from_pin(None);
    let h = st.handle(
        &ks,
        Op::Keygen { label: "hlin-ai-signing".into(), algorithm: "ES256".into() },
    );
    assert_eq!(refusal(h.response).code, "key_already_exists");
    assert!(!h.newly_pinned);
    assert_eq!(st.pinned(), None);
}

#[test]
fn load_or_init_missing_file_yields_empty_registry() {
    let reg = Registry::load_or_init(None, "/tmp/state");
    assert!(reg.channels.is_empty());
    assert_eq!(reg.state_dir, "/tmp/state");
}

#[test]
fn load_or_init_existing_file_loads_it() {
    let loaded = Registry {
        state_dir: "/tmp/st".to_string(),
        channels: vec![ChannelConfig {
            id: "c1".to_string(),
            dir: "/tmp/c1".to_string(),
            secret_hex: "aa".to_string(),
        }],
    };
    let reg = Registry::load_or_init(Some(loaded), "/tmp/ignored");
    assert_eq!(reg.channels.len(), 1);
    assert_eq!(reg.channels[0].id, "c1");
    assert_eq!(reg.state_dir, "/tmp/st");
}

#[test]
fn a_vanished_channel_folder_is_evicted_after_sustained_misses() {
    let mut missing: u32 = 0;
    let o = poll_step(&mut missing, PollEvent::Answered(0));
    assert!(!o.worked && !o.evict);
    assert_eq!(missing, 0);
    for n in 1..EVICT_AFTER_MISSING_POLLS {
        let o = poll_step(&mut missing, PollEvent::FolderMissing);
        assert!(!o.evict, "evicted too early at miss {n}");
        assert_eq!(missing, n);
    }
    let o = poll_step(&mut missing, PollEvent::FolderMissing);
    assert!(o.evict);
    assert_eq!(missing, EVICT_AFTER_MISSING_POLLS);
}

#[test]
fn a_folder_that_is_back_starts_the_count_anew() {
    let mut missing: u32 = 7;
    assert!(poll_step(&mut missing, PollEvent::Answered(2)).worked);
    assert_eq!(missing, 0);
}

#[test]
fn eviction_is_reported_with_the_remedy() {
    assert_eq!(
        eviction_notice("c1"),
        "signet host-signer: channel c1 folder is gone; evicting it (run `signet host-channel \
         remove c1` to clean up the registry)"
    );
}

#[test]
fn idle_rounds_back_off_to_a_ceiling() {
    let first = idle_backoff(0);
    let last = idle_backoff(60);
    assert!(first.less_than(&last));
    assert_eq!(idle_backoff(6), last);
    let mut idle: u32 = 4;
    assert_eq!(pass_step(&mut idle, true), Span::from_millis(1));
    assert_eq!(idle, 0);
    pass_step(&mut idle, false);
    assert_eq!(idle, 1);
    let mut idle: u32 = u32::MAX;
    pass_step(&mut idle, false);
    assert_eq!(idle, u32::MAX);
}

#[test]
fn a_registered_secret_is_thirty_two_bytes_of_hex() {
    let text = format!(" {}\n", "0f".repeat(32));
    assert_eq!(parse_secret_hex(&text).unwrap(), [0x0f; 32]);
    assert_eq!(parse_secret_hex("zz").unwrap_err().message, "channel secret_hex is not hex");
    assert_eq!(parse_secret_hex("abab").unwrap_err().code, "config_error");
}
