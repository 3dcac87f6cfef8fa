//! Keys at rest, post-quantum keys and the Secure Enclave's answers.

use ml_dsa::{EncodedSignature, EncodedVerifyingKey, MlDsa87, Signature, VerifyingKey};
use ml_kem::{EncodedSizeUser, KemCore};
use signet_cli::error::CliError;
use signet_cli::http::{
    auth_headers, request_signature, signed_attempt, Header, SigningInput, REQUEST_MLDSA_CTX,
};
use signet_cli::hybrid::{base64_decode_field, encapsulate, encapsulate_with, unwrap_parts};
use signet_cli::keystore::listing::sort_by_label;
use signet_cli::keystore::se_shim::{
    check_ciphertext, decap_reply, keygen_reply, restore_reply, shim_err, sign_reply, PqKind,
    ShimStatus, SE_ERR_BAD_BLOB, SE_ERR_UNAVAILABLE, SE_OK,
};
use signet_cli::keystore::secure_enclave::{
    check_broker_label, check_deletable, check_generation, creation_failure, detail_is_se_locked,
    ecdh_failure, ecdh_secret, found_meta, generated_meta, list_keys, no_broker_key,
    pq_delete_failure, se_locked_err, search_failure, sign_failure, sweep_report, Creation,
    FoundKey, ListedItem, Search, SweptKey, ERR_SEC_INTERACTION_NOT_ALLOWED,
    ERR_SEC_ITEM_NOT_FOUND,
};
use signet_cli::keystore::software::{
    at_rest_aad, check_absent, decapsulate, frame_blob, fresh_kek, fresh_nonce, generate,
    generate_pq, is_record, kem_pair, key_file_name, list_records, new_record, read_kek, read_scalar, sign_pq,
    signing_pair, split_blob, to_meta, verify_pq, KeyPair, SealInput,
};
use signet_cli::keystore::{check_use, KeyLabel, KeyMeta, KeyUse, Keystore, Purpose, Tier};

fn label(text: &str) -> KeyLabel {
    KeyLabel::parse(text, None).unwrap()
}

fn meta(text: &str) -> KeyMeta {
    generated_meta(&label(text), "A", "fp".to_string(), vec![4])
}

#[test]
fn a_secret_is_framed_and_split_again() {
    let blob = frame_blob([7; 12], &[1, 2, 3]);
    let (nonce, ct) = split_blob(&blob).unwrap();
    assert_eq!(nonce, [7; 12]);
    assert_eq!(ct, vec![1, 2, 3]);
    assert_eq!(split_blob("!").unwrap_err().message, "malformed stored scalar blob");
    assert_eq!(split_blob("AAAA").unwrap_err().message, "stored scalar blob truncated");
    assert_ne!(fresh_nonce().unwrap(), fresh_nonce().unwrap());
    assert_ne!(fresh_kek().unwrap(), fresh_kek().unwrap());
}

#[test]
fn a_sealed_secret_is_bound_to_its_label() {
    let aad = at_rest_aad(&label("hlin-ai-kem"));
    assert_eq!(aad, b"signet-cli-keystore-v1\0hlin-ai-kem");
    assert_ne!(aad, at_rest_aad(&label("hlin-ai-kem-pq")));
}

#[test]
fn records_are_named_kept_and_read() {
    let kem = label("hlin-ai-kem");
    assert_eq!(key_file_name(&kem), "hlin-ai-kem.json");
    assert!(is_record("hlin-ai-kem.json"));
    assert!(!is_record(".json"));
    assert!(!is_record("keystore.kek"));
    let record = new_record(&kem, "ECDH-ES+A256KW", "fp", &[0xfb, 0xff], "blob".to_string());
    assert_eq!(record.public_key_b64url, "-_8");
    let m = to_meta(record).unwrap();
    assert_eq!(m.label, "hlin-ai-kem");
    assert_eq!(m.purpose, "kem");
    assert_eq!(m.storage, "software");
    assert_eq!(m.public_key, vec![0xfb, 0xff]);
    let mut torn = new_record(&kem, "A", "fp", &[1], "blob".to_string());
    torn.public_key_b64url = "=".to_string();
    assert_eq!(to_meta(torn).unwrap_err().message, "malformed stored public key");
    assert!(check_absent(&kem, false).is_ok());
    assert_eq!(check_absent(&kem, true).unwrap_err().code, "key_already_exists");
    assert_eq!(read_kek(vec![3; 32]).unwrap(), [3; 32]);
    assert_eq!(read_kek(vec![3; 31]).unwrap_err().message, "keystore KEK is not 32 bytes");
    assert_eq!(read_scalar(vec![3; 32]).unwrap(), [3; 32]);
    assert!(read_scalar(vec![]).is_err());
}

#[test]
fn a_listing_is_in_the_order_of_the_labels() {
    let of = |text: &str| new_record(&label(text), "A", "fp", &[1], "b".to_string());
    let keys = list_records(vec![of("mira-ai-kem"), of("ada-ai-kem-pq"), of("ada-ai-kem")]);
    let labels: Vec<String> = keys.unwrap().into_iter().map(|k| k.label).collect();
    assert_eq!(labels, ["ada-ai-kem", "ada-ai-kem-pq", "mira-ai-kem"]);
    let sorted = sort_by_label(vec![meta("b-ai-kem"), meta("a-ai-kem"), meta("a-ai-kem")]);
    assert_eq!(sorted.len(), 3);
    assert_eq!(sorted[2].label, "b-ai-kem");
    let mut torn = of("a-ai-kem");
    torn.public_key_b64url = "!".to_string();
    assert!(list_records(vec![of("b-ai-kem"), torn]).is_err());
}

#[test]
fn an_encapsulated_secret_is_decapsulated() {
    let pair = generate_pq(Purpose::KemPq).unwrap();
    assert_eq!(pair.secret.len(), 64);
    assert_eq!(pair.public_key.len(), 1568);
    let (ct, z) = encapsulate(&pair.public_key).unwrap();
    assert_eq!(ct.len(), 1568);
    assert_eq!(decapsulate(pair.secret.clone(), &ct).unwrap(), z);
    let (ct1, z1) = encapsulate_with(&pair.public_key, &[1; 32]).unwrap();
    let (ct2, z2) = encapsulate_with(&pair.public_key, &[2; 32]).unwrap();
    assert_ne!(ct1, ct2);
    assert_ne!(z1, z2);
    assert_eq!(encapsulate_with(&pair.public_key, &[1; 32]).unwrap(), (ct1.clone(), z1));
    assert_eq!(decapsulate(pair.secret.clone(), &ct1).unwrap(), z1);
    assert!(encapsulate_with(&[0; 3], &[1; 32]).is_err());
    assert_eq!(decapsulate(vec![0; 3], &ct1).unwrap_err().code, "decrypt_failed");
    let e = decapsulate(pair.secret, &[0; 3]).unwrap_err();
    assert_eq!(e.message, "ml-kem ciphertext must be 1568 bytes");
}

fn verifies(public_key: &[u8], msg: &[u8], ctx: &[u8], signature: &[u8]) -> bool {
    let vk = EncodedVerifyingKey::<MlDsa87>::try_from(public_key).expect("key length");
    let vk = VerifyingKey::<MlDsa87>::decode(&vk);
    let sig = EncodedSignature::<MlDsa87>::try_from(signature).expect("signature length");
    let sig = Signature::<MlDsa87>::decode(&sig).expect("signature decodes");
    vk.verify_with_context(msg, ctx, &sig)
}

#[test]
fn a_post_quantum_signature_verifies_under_its_context_alone() {
    let pair = generate_pq(Purpose::SigningPq).unwrap();
    assert_eq!(pair.secret.len(), 32);
    let sig = sign_pq(pair.secret.clone(), b"m", b"signet:req:v1").unwrap();
    assert_eq!(sig.len(), 4627);
    assert!(verifies(&pair.public_key, b"m", b"signet:req:v1", &sig));
    assert!(verify_pq(&pair.public_key, b"m", b"signet:req:v1", &sig));
    assert!(!verify_pq(&pair.public_key, b"m", b"signet:enroll:v1", &sig));
    assert!(!verify_pq(&pair.public_key, b"n", b"signet:req:v1", &sig));
    assert!(!verify_pq(&pair.public_key, b"m", b"signet:req:v1", &[0xff; 4627]));
    assert!(!verify_pq(&pair.public_key, b"m", b"signet:req:v1", &sig[1..]));
    assert!(!verify_pq(&pair.public_key[1..], b"m", b"signet:req:v1", &sig));
    assert!(!verifies(&pair.public_key, b"m", b"signet:enroll:v1", &sig));
    assert!(!verifies(&pair.public_key, b"n", b"signet:req:v1", &sig));
    assert_eq!(sign_pq(vec![1], b"m", b"c").unwrap_err().code, "decrypt_failed");
    assert_eq!(sign_pq(pair.secret, b"m", &[0; 256]).unwrap_err().code, "invalid_arguments");
}

#[test]
fn drawn_seeds_make_the_key_pair() {
    let mut seeds = [1u8; 64];
    seeds[32..].fill(2);
    let pair = kem_pair(Some(seeds)).unwrap();
    assert_eq!(pair.secret, seeds);
    let (_, ek) = ml_kem::MlKem1024::generate_deterministic(&[1; 32].into(), &[2; 32].into());
    assert_eq!(pair.public_key, ek.as_bytes().to_vec());
    assert!(kem_pair(None).is_none());
    let pair = signing_pair(Some([7; 32])).unwrap();
    assert_eq!(pair.secret, [7; 32]);
    assert_eq!(pair.public_key.len(), 2592);
    let sig = sign_pq(vec![7; 32], b"m", b"c").unwrap();
    assert!(verifies(&pair.public_key, b"m", b"c", &sig));
    assert_ne!(signing_pair(Some([8; 32])).unwrap().public_key, pair.public_key);
    assert!(signing_pair(None).is_none());
}

/// A keystore of one PRSN with fixed classical answers and real post-quantum keys.
struct OnePrsn {
    kem_pq: (Vec<u8>, Vec<u8>),
    signing_pq: Option<(Vec<u8>, Vec<u8>)>,
}

impl Keystore for OnePrsn {
    fn tier(&self) -> Tier {
        Tier::Software
    }

    fn generate(&self, _label: &KeyLabel, _algorithm: &str) -> Result<KeyMeta, CliError> {
        Err(CliError::generic("read-only"))
    }

    fn meta(&self, label: &KeyLabel) -> Result<KeyMeta, CliError> {
        let mut m = meta(&label.full());
        if label.purpose() == Purpose::KemPq {
            m.public_key = self.kem_pq.1.clone();
        }
        Ok(m)
    }

    fn sign(&self, label: &KeyLabel, _msg: &[u8]) -> Result<[u8; 64], CliError> {
        check_use(label, KeyUse::Sign)?;
        Ok([7; 64])
    }

    fn ecdh(&self, label: &KeyLabel, _peer: &[u8]) -> Result<[u8; 32], CliError> {
        check_use(label, KeyUse::Ecdh)?;
        Ok([8; 32])
    }

    fn ml_kem_decapsulate(&self, label: &KeyLabel, ek: &[u8]) -> Result<[u8; 32], CliError> {
        check_use(label, KeyUse::MlKemDecapsulate)?;
        decapsulate(self.kem_pq.0.clone(), ek)
    }

    fn ml_dsa_sign(&self, label: &KeyLabel, msg: &[u8], ctx: &[u8]) -> Result<Vec<u8>, CliError> {
        check_use(label, KeyUse::MlDsaSign)?;
        sign_pq(self.signing_pq.as_ref().unwrap().0.clone(), msg, ctx)
    }

    fn list(&self) -> Result<Vec<KeyMeta>, CliError> {
        Ok(Vec::new())
    }

    fn delete(&self, _label: &KeyLabel) -> Result<(), CliError> {
        Ok(())
    }

    fn has_key(&self, label: &KeyLabel) -> Result<bool, CliError> {
        Ok(label.purpose() != Purpose::SigningPq || self.signing_pq.is_some())
    }
}

fn one_prsn(hybrid: bool) -> OnePrsn {
    let kem = generate_pq(Purpose::KemPq).unwrap();
    let signing_pq = if hybrid {
        let pair = generate_pq(Purpose::SigningPq).unwrap();
        Some((pair.secret, pair.public_key))
    } else {
        None
    };
    OnePrsn { kem_pq: (kem.secret, kem.public_key), signing_pq }
}

#[test]
fn a_request_is_signed_twice_where_there_is_a_second_key() {
    let signing = label("hlin-ai-signing");
    let single = request_signature(&one_prsn(false), &signing, b"canonical").unwrap();
    assert_eq!(single, vec![7; 64]);
    let ks = one_prsn(true);
    let dual = request_signature(&ks, &signing, b"canonical").unwrap();
    assert_eq!(dual.len(), 4691);
    let (es, pq) = dual.split_at(64);
    assert_eq!(es, [7; 64]);
    let public_key = &ks.signing_pq.as_ref().unwrap().1;
    assert!(verifies(public_key, b"canonical", REQUEST_MLDSA_CTX.as_bytes(), pq));
    assert!(request_signature(&ks, &label("hlin-ai-kem"), b"c").is_err());
}

fn canonical(i: &SigningInput) -> Result<Vec<u8>, CliError> {
    let mut bytes = format!(
        "{}|{}|{}|{}|{}|",
        i.method, i.path, i.timestamp, i.nonce, i.fingerprint
    )
    .into_bytes();
    bytes.extend_from_slice(&i.body);
    Ok(bytes)
}

fn values(headers: &[Header]) -> Vec<&str> {
    headers.iter().map(|h| h.value.as_str()).collect()
}

#[test]
fn headers_carry_what_was_signed() {
    let ks = one_prsn(true);
    let signing = label("hlin-ai-signing");
    let body = br#"{"n":1}"#;
    let made = signed_attempt(
        &ks,
        &signing,
        "POST",
        "https://h",
        "/v1/x?y=1",
        Some(body),
        Some(1_750_000_000),
        canonical,
    )
    .ok()
    .unwrap();
    assert_eq!(made.method, "POST");
    assert_eq!(made.url, "https://h/v1/x?y=1");
    assert_eq!(made.body.as_deref(), Some(&body[..]));
    let sent = values(&made.headers);
    assert_eq!(sent[0], "1750000000");
    assert_eq!(sent[1].len(), 32);
    assert_eq!(sent[2], "fp");
    let signed = canonical(&SigningInput {
        method: "POST".to_string(),
        path: "/v1/x?y=1".to_string(),
        body: body.to_vec(),
        timestamp: sent[0].to_string(),
        nonce: sent[1].to_string(),
        fingerprint: sent[2].to_string(),
    })
    .unwrap();
    let signature = base64_decode_field(sent[3], "signature").unwrap();
    assert_eq!(signature.len(), 4691);
    let public_key = &ks.signing_pq.as_ref().unwrap().1;
    let ctx = REQUEST_MLDSA_CTX.as_bytes();
    assert!(verify_pq(public_key, &signed, ctx, &signature[64..]));
    let again = auth_headers(&ks, &signing, "POST", "/p", &[], Some(1), canonical).ok().unwrap();
    assert_ne!(values(&again)[1], sent[1], "each call must mint a fresh nonce");
}

#[test]
fn a_request_without_a_body_signs_an_empty_one() {
    let ks = one_prsn(false);
    let signing = label("hlin-ai-signing");
    let empty = |i: &SigningInput| {
        assert_eq!((i.method.as_str(), i.path.as_str()), ("POST", "/v1/leave"));
        assert!(i.body.is_empty());
        canonical(i)
    };
    let made =
        signed_attempt(&ks, &signing, "POST", "https://h", "/v1/leave", None, Some(1), empty);
    let made = made.ok().unwrap();
    assert!(made.body.is_none());
    assert_eq!(made.headers.len(), 4);
    let e = signed_attempt(&ks, &signing, "PUT", "https://h", "/p", None, Some(1), canonical);
    assert_eq!(e.err().unwrap().message, "unsupported signed HTTP method 'PUT'");
    let e = signed_attempt(&ks, &signing, "GET", "https://h", "/p", None, None, canonical);
    assert_eq!(e.err().unwrap().message, "system clock is before the unix epoch");
    let refused = |_: &SigningInput| Err(CliError::generic("no"));
    let e = signed_attempt(&ks, &signing, "GET", "https://h", "/p", None, Some(1), refused);
    assert_eq!(e.err().unwrap().message, "no");
}

#[test]
fn a_generated_key_is_recorded_and_reported() {
    let kem = label("hlin-ai-kem");
    let pair = |_: Purpose| KeyPair { secret: vec![5; 32], public_key: vec![4; 65] };
    let shown = |p: Purpose, k: &Vec<u8>| Ok(format!("{}-{}", p.as_str(), k.len()));
    let seal = |i: &SealInput| {
        assert_eq!(i.secret, vec![5; 32]);
        assert_eq!(i.aad, b"signet-cli-keystore-v1\0hlin-ai-kem");
        Ok([i.nonce.to_vec(), vec![9]].concat())
    };
    let made = generate(&kem, "ECDH-ES", false, pair, shown, seal).ok().unwrap();
    assert_eq!(made.meta.label, "hlin-ai-kem");
    assert_eq!(made.meta.storage, "software");
    assert_eq!(made.meta.fingerprint, "kem-65");
    assert_eq!(made.meta.public_key, vec![4; 65]);
    let (nonce, ct) = split_blob(&made.record.scalar_blob_b64).unwrap();
    assert_eq!(ct, [nonce.to_vec(), vec![9]].concat());
    assert_eq!(to_meta(made.record).unwrap().algorithm, "ECDH-ES");
    let e = generate(&kem, "ECDH-ES", true, pair, shown, seal).err().unwrap();
    assert_eq!(e.message, "a key 'hlin-ai-kem' already exists; delete it first");
    let torn = |_: Purpose, _: &Vec<u8>| Err(CliError::invalid_data("no point"));
    let e = generate(&kem, "ECDH-ES", false, pair, torn, seal).err().unwrap();
    assert_eq!(e.code, "invalid_data");
    let shut = |_: &SealInput| Err(CliError::encryption_failed("no"));
    let e = generate(&kem, "ECDH-ES", false, pair, shown, shut).err().unwrap();
    assert_eq!(e.code, "encryption_failed");
}

#[test]
fn a_generated_post_quantum_key_seals_its_seeds() {
    let signing = label("hlin-ai-signing-pq");
    let none = |_: Purpose| panic!("no classical pair is made");
    let shown = |_: Purpose, _: &Vec<u8>| Ok("fp".to_string());
    let open = |i: &SealInput| Ok(i.secret.clone());
    let made = generate(&signing, "ML-DSA-87", false, none, shown, open).ok().unwrap();
    assert_eq!(made.meta.public_key.len(), 2592);
    let (_, seed) = split_blob(&made.record.scalar_blob_b64).unwrap();
    let sig = sign_pq(seed, b"m", b"c").unwrap();
    assert!(verify_pq(&made.meta.public_key, b"m", b"c", &sig));
}

#[test]
fn both_halves_of_a_wrap_are_gathered() {
    let ks = one_prsn(false);
    let (ct, z) = encapsulate(&ks.kem_pq.1).unwrap();
    let parts = unwrap_parts(&ks, &label("hlin-ai-kem"), &label("hlin-ai-kem-pq"), &[4], &ct)
        .ok()
        .unwrap();
    assert_eq!(parts.z_ecdh, [8; 32]);
    assert_eq!(parts.z_mlkem, z);
    assert_eq!(parts.rk_ec, vec![4]);
    assert_eq!(parts.rk_pq, ks.kem_pq.1);
    let e = unwrap_parts(&ks, &label("hlin-ai-signing"), &label("hlin-ai-kem-pq"), &[4], &ct);
    assert_eq!(e.err().unwrap().code, "unsupported_algorithm");
    assert_eq!(base64_decode_field("-_8", "epk").unwrap(), vec![0xfb, 0xff]);
    assert!(base64_decode_field("+/8", "epk").unwrap_err().message.contains("epk"));
}

fn status(code: i32, message: &str) -> ShimStatus {
    let mut err = message.as_bytes().to_vec();
    let err_len = err.len();
    err.resize(512, 0);
    ShimStatus { status: code, err, err_len }
}

#[test]
fn shim_failures_are_told_apart() {
    let e = shim_err("op", status(SE_ERR_UNAVAILABLE, "old"));
    assert_eq!(e.message, "op: Secure-Enclave PQC requires macOS 26 (old)");
    assert_eq!(e.code, "unsupported_platform");
    let e = shim_err("op", status(SE_ERR_BAD_BLOB, "torn"));
    assert_eq!(e.code, "invalid_data");
    let e = shim_err("op", status(-9, "what"));
    assert_eq!(e.message, "op failed (shim status -9): what");
}

#[test]
fn shim_answers_are_cut_to_their_length() {
    let out = keygen_reply(
        PqKind::MlKem,
        status(SE_OK, ""),
        vec![1; 100],
        40,
        vec![2; 1568],
        1568,
    )
    .ok()
    .unwrap();
    assert_eq!(out.blob, vec![1; 40]);
    assert_eq!(out.public_key, vec![2; 1568]);
    let e = keygen_reply(PqKind::MlDsa, status(SE_OK, ""), vec![1; 9], 9, vec![2; 2592], 7);
    assert!(e.err().unwrap().message.contains("7-byte verification key (want 2592)"));
    let pk = restore_reply(PqKind::MlDsa, status(SE_OK, ""), vec![2; 2592], 2592).unwrap();
    assert_eq!(pk.len(), PqKind::MlDsa.public_capacity());
    assert!(restore_reply(PqKind::MlDsa, status(-9, ""), vec![2; 2592], 2592).is_err());
    assert!(check_ciphertext(&[0; 1568]).is_ok());
    assert!(check_ciphertext(&[0; 1567]).is_err());
    assert_eq!(decap_reply(status(SE_OK, ""), [3; 32]).unwrap(), [3; 32]);
    assert!(decap_reply(status(SE_ERR_BAD_BLOB, ""), [3; 32]).is_err());
    let sig = sign_reply(b"c", status(SE_OK, ""), vec![4; 4627], 4627).unwrap();
    assert_eq!(sig.len(), 4627);
    let e = sign_reply(b"c", status(SE_OK, ""), vec![4; 4627], 4).unwrap_err();
    assert_eq!(e.message, "SE ML-DSA-87 signing returned a 4-byte signature (want 4627)");
    assert!(sign_reply(&[0; 256], status(SE_OK, ""), vec![4; 4627], 4627).is_err());
}

#[test]
fn se_locked_error_is_translated_and_coded() {
    let e = se_locked_err("the PQ key lookup 'x-signing-pq'");
    assert_eq!(e.exit_code, 52);
    assert_eq!(e.code, "se_locked");
    assert!(e.message.contains("this Mac is locked"));
    assert!(e.message.contains("retry after unlock"));
    assert!(!e.message.starts_with("User interaction"));
}

#[test]
fn se_locked_detail_detection() {
    assert!(detail_is_se_locked("Error { code: -25308, ... }"));
    assert!(detail_is_se_locked(
        "The operation couldn\u{2019}t be completed. User interaction is not allowed."
    ));
    assert!(!detail_is_se_locked("Error { code: -34018, ... }"));
    assert!(!detail_is_se_locked("errSecItemNotFound"));
}

#[test]
fn a_failed_search_is_absent_locked_or_broken() {
    let search = Search::Key("hlin-ai-kem");
    assert!(search_failure(&search, ERR_SEC_ITEM_NOT_FOUND, "x").is_none());
    let e = search_failure(&search, ERR_SEC_INTERACTION_NOT_ALLOWED, "x").unwrap();
    assert_eq!(e.code, "se_locked");
    assert!(e.message.contains("the key lookup 'hlin-ai-kem'"));
    let e = search_failure(&Search::PqKeys, -1, "odd").unwrap();
    assert_eq!(e.message, "Secure Enclave PQ key list: odd");
    assert!(pq_delete_failure("l", -1, "odd").message.contains("odd"));
    assert_eq!(sign_failure("-25308", "x").code, "se_locked");
    assert!(sign_failure("d", "shown").message.contains("shown"));
    assert_eq!(ecdh_failure("-25308", "x").code, "se_locked");
    assert_eq!(ecdh_secret(vec![1; 32]).unwrap(), [1; 32]);
    assert!(ecdh_secret(vec![1; 31]).is_err());
}

#[test]
fn a_failed_creation_names_the_missing_entitlement() {
    let e = creation_failure(&Creation::Key("l"), "code -34018", "x");
    assert_eq!(e.code, "unsupported_platform");
    assert!(e.message.contains("errSecMissingEntitlement"));
    assert_eq!(creation_failure(&Creation::BrokerKey("l"), "-25308", "x").code, "se_locked");
    let e = creation_failure(&Creation::PqBlob("l"), "d", "shown");
    assert_eq!(e.message, "storing the Secure-Enclave PQ key blob 'l': shown");
}

#[test]
fn a_key_is_generated_once_and_under_its_algorithm() {
    let pq = label("hlin-ai-kem-pq");
    assert!(check_generation(&pq, "ML-KEM-1024", true, Ok(false)).is_ok());
    let e = check_generation(&pq, "ML-KEM-1024", false, Ok(false)).unwrap_err();
    assert_eq!(e.code, "unsupported_platform");
    let e = check_generation(&pq, "ES256", true, Ok(false)).unwrap_err();
    assert_eq!(e.message, "a kem-pq key is always ML-KEM-1024, got algorithm 'ES256'");
    let e = check_generation(&pq, "ML-KEM-1024", true, Ok(true)).unwrap_err();
    assert_eq!(e.code, "key_already_exists");
    assert!(check_generation(&label("hlin-ai-kem"), "any", false, Ok(false)).is_ok());
    assert!(check_deletable(&pq, Ok(true)).is_ok());
    assert_eq!(check_deletable(&pq, Ok(false)).unwrap_err().code, "key_not_found");
    assert!(check_broker_label("b", Ok(false)).is_ok());
    assert!(check_broker_label("b", Ok(true)).is_err());
    assert!(no_broker_key("b").message.contains('b'));
    assert_eq!(meta("hlin-ai-kem").storage, "secure-enclave");
    let m = found_meta(&pq, "fp".to_string(), vec![1]);
    assert_eq!(m.algorithm, "ML-KEM-1024");
}

fn item(label: &str, key: Option<u8>) -> ListedItem {
    let found = key.map(|b| FoundKey { public_key: vec![b], fingerprint: "fp".to_string() });
    ListedItem { label: label.to_string(), lookup: Ok(found) }
}

#[test]
fn both_kinds_of_keys_are_listed_in_order() {
    let classical = vec![
        item("mira-ai-signing", Some(1)),
        item("someone elses", Some(2)),
        item("ada-ai-kem", Some(3)),
        item("gone-ai-kem", None),
    ];
    let pq = vec![item("ada-ai-kem-pq", Some(4)), item("ada-ai-kem", Some(5))];
    let keys = list_keys(Some(classical), Ok(pq)).unwrap();
    let labels: Vec<&str> = keys.iter().map(|k| k.label.as_str()).collect();
    assert_eq!(labels, ["ada-ai-kem", "ada-ai-kem-pq", "mira-ai-signing"]);
    let sealed = list_keys(None, Ok(vec![item("ada-ai-kem-pq", Some(4))])).unwrap();
    assert_eq!(sealed.len(), 1, "sealed keys are listed without a classical one");
    assert_eq!(sealed[0].label, "ada-ai-kem-pq");
    assert!(list_keys(None, Ok(vec![])).unwrap().is_empty());
    let locked = se_locked_err("the PQ key list");
    assert_eq!(list_keys(Some(vec![]), Err(locked)).unwrap_err().code, "se_locked");
    let gone = ListedItem {
        label: "ada-ai-kem-pq".to_string(),
        lookup: Err(CliError::key_not_found("gone")),
    };
    assert!(list_keys(Some(vec![]), Ok(vec![gone])).unwrap().is_empty());
}

fn swept(label: &str, failure: Option<(i32, &str)>, present: Result<bool, CliError>) -> SweptKey {
    SweptKey {
        label: label.to_string(),
        stale: true,
        delete_failure: failure.map(|(c, s)| (c, s.to_string())),
        present,
    }
}

#[test]
fn a_sweep_reports_what_is_left() {
    let mut current = swept("current", None, Ok(true));
    current.stale = false;
    let report = sweep_report(vec![
        current,
        swept("gone", None, Ok(false)),
        swept("raced", Some((ERR_SEC_ITEM_NOT_FOUND, "x")), Ok(false)),
        swept("stuck", None, Ok(true)),
        swept("denied", Some((-1, "no")), Ok(true)),
        swept("unsure", None, Err(CliError::generic("e"))),
    ]);
    assert_eq!(report.removed, ["gone", "raced"]);
    let failed: Vec<(&str, &str)> =
        report.failed.iter().map(|(l, r)| (l.as_str(), r.as_str())).collect();
    assert_eq!(failed[0], ("stuck", "still present after delete"));
    assert_eq!(failed[1], ("denied", "delete failed: no"));
    assert_eq!(failed[2].0, "unsure");
    assert!(failed[2].1.starts_with("post-delete verification failed: "));
    assert_eq!(failed.len(), 3);
}
