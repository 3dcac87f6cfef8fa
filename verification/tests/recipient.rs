//! Verified wrap keys: every gate between a directory bundle and a recipient's keys.

use base64::engine::general_purpose::URL_SAFE_NO_PAD;
use base64::Engine;
use signet_cli::error::CliError;
use signet_cli::json::{parse, Json};
use signet_cli::recipient_verify::{
    decode_b64, server_info_url, verified_wrap_keys, Answers, Gate, Half,
    HandleExpectation, Question, RecipientWrapKeys, ServerTrust,
};

const SERVER: &str = "http://unused.invalid";

fn json(text: &str) -> Json {
    parse(text).expect("test JSON")
}

fn trust() -> ServerTrust {
    ServerTrust::unexamined(json("{}"))
}

/// A bundle without key material gives no keys.
fn no_keys() -> Answers {
    let mut answers = Answers::new();
    answers.bundle_keys = Some(Err(CliError::invalid_data("bundle has no keys")));
    answers
}

fn refused(gate: Gate<RecipientWrapKeys>) -> CliError {
    match gate {
        Gate::Fail(e) => e,
        Gate::Ask(_) => panic!("expected a refusal, got a question"),
        Gate::Go(_) => panic!("expected a refusal, got keys"),
    }
}

#[test]
fn user_named_mismatch_is_refused_as_substitution() {
    let bundle = json(r#"{ "handle": "mallory" }"#);
    let err = refused(verified_wrap_keys(
        &trust(),
        SERVER,
        &bundle,
        HandleExpectation::UserNamed("friend-ai"),
        &no_keys(),
        "recipient 'friend-ai'",
    ));
    let msg = err.to_line();
    assert!(
        msg.contains("answers for 'mallory'") && msg.contains("substitution"),
        "expected the substitution refusal, got: {msg}"
    );
}

#[test]
fn user_named_match_passes_the_pin() {
    let bundle = json(r#"{ "handle": "mallory" }"#);
    let err = refused(verified_wrap_keys(
        &trust(),
        SERVER,
        &bundle,
        HandleExpectation::UserNamed("mallory"),
        &no_keys(),
        "recipient 'mallory'",
    ));
    let msg = err.to_line();
    assert!(!msg.contains("substitution"), "the pin fired on a matching handle: {msg}");
}

#[test]
fn server_listed_skips_the_pin() {
    let bundle = json(r#"{ "handle": "mallory" }"#);
    let err = refused(verified_wrap_keys(
        &trust(),
        SERVER,
        &bundle,
        HandleExpectation::ServerListed,
        &no_keys(),
        "recipient",
    ));
    assert!(!err.to_line().contains("substitution"));
}

#[test]
fn missing_handle_fails_closed_before_anything_else() {
    let bundle = json(r#"{ "kem_pubkey": "irrelevant" }"#);
    let err = refused(verified_wrap_keys(
        &trust(),
        SERVER,
        &bundle,
        HandleExpectation::ServerListed,
        &Answers::new(),
        "recipient",
    ));
    assert!(err.to_line().contains("carries no handle"));
}

fn b64(bytes: &[u8]) -> String {
    URL_SAFE_NO_PAD.encode(bytes)
}

fn server_info() -> Json {
    json(&format!(
        r#"{{"current_signing_keys":[
            {{"key_id":"k1","purpose":"attestation_verification","public_key":"{}"}},
            {{"key_id":"p1","purpose":"attestation_verification_pq","public_key":"{}"}}],
            "retired_signing_keys":[{{"key_id":"k0","public_key":"{}"}}]}}"#,
        b64(&[1, 1]),
        b64(&[2, 2]),
        b64(&[0, 0])
    ))
}

fn full_trust() -> ServerTrust {
    ServerTrust::from_info(server_info()).expect("a published key")
}

#[test]
fn keys_are_found_among_current_and_retired_ones() {
    let info = server_info();
    assert_eq!(ServerTrust::find_key_by_id(&info, "k1").unwrap(), Some(vec![1, 1]));
    assert_eq!(ServerTrust::find_key_by_id(&info, "k0").unwrap(), Some(vec![0, 0]));
    assert_eq!(ServerTrust::find_key_by_id(&info, "k9").unwrap(), None);
    assert_eq!(full_trust().active_pq_key().unwrap(), vec![2, 2]);
    assert_eq!(server_info_url("https://h"), "https://h/v1/server-info");
    let e = decode_b64(&json(r#"{"a":"!"}"#), "a", "w").unwrap_err();
    assert_eq!(e.message, "w: a base64url");
    assert_eq!(decode_b64(&json("{}"), "a", "w").unwrap_err().message, "w: missing a");
    assert_eq!(decode_b64(&json(r#"{"a":"-_8"}"#), "a", "w").unwrap(), vec![0xfb, 0xff]);
}

#[test]
fn a_server_without_a_post_quantum_key_is_not_trusted() {
    let e = ServerTrust::from_info(json(r#"{"current_signing_keys":[]}"#)).err().unwrap();
    assert!(e.message.contains("no active ML-DSA-87"));
    assert!(ServerTrust::from_info(json("{}")).is_err());
}

fn keys() -> RecipientWrapKeys {
    RecipientWrapKeys { rk_ec: vec![4, 7], rk_pq: Some(vec![9, 9]) }
}

fn human_bundle() -> Json {
    json(
        r#"{"handle":"gus","account_type":"human","account_id":"a-1",
            "kem_pubkey_fingerprint":"f1","kem_pq_pubkey_fingerprint":"f2"}"#,
    )
}

fn ask(bundle: &Json, answers: &Answers) -> Gate<RecipientWrapKeys> {
    verified_wrap_keys(
        &full_trust(),
        "https://h",
        bundle,
        HandleExpectation::ServerListed,
        answers,
        "recipient",
    )
}

fn question(gate: Gate<RecipientWrapKeys>) -> Question {
    match gate {
        Gate::Ask(q) => q,
        Gate::Fail(e) => panic!("expected a question, got {e:?}"),
        Gate::Go(_) => panic!("expected a question, got keys"),
    }
}

#[test]
fn a_persons_keys_need_both_log_receipts() {
    let bundle = human_bundle();
    let mut answers = Answers::new();
    assert!(matches!(question(ask(&bundle, &answers)), Question::BundleKeys));
    answers.bundle_keys = Some(Ok(keys()));
    match question(ask(&bundle, &answers)) {
        Question::Receipt { half, url } => {
            assert_eq!(half, Half::Kem);
            assert_eq!(
                url,
                "https://h/v1/transparency/log/receipt?fingerprint=f1&purpose=kem"
            );
        }
        _ => panic!("expected the classical receipt to be asked for"),
    }
    answers.kem.receipt = Some(Ok(json(r#"{"server_key_id":"k1"}"#)));
    match question(ask(&bundle, &answers)) {
        Question::ReceiptCheck { half, fingerprint, account_id, server_key, pq_key } => {
            assert_eq!(half, Half::Kem);
            assert_eq!((fingerprint.as_str(), account_id.as_str()), ("f1", "a-1"));
            assert_eq!((server_key, pq_key), (vec![1, 1], vec![2, 2]));
        }
        _ => panic!("expected the receipt to be checked"),
    }
    answers.kem.checked = Some(Ok(()));
    match question(ask(&bundle, &answers)) {
        Question::Receipt { half, url } => {
            assert_eq!(half, Half::KemPq);
            assert!(url.ends_with("fingerprint=f2&purpose=kem_pq"));
        }
        _ => panic!("expected the post-quantum receipt to be asked for"),
    }
    answers.kem_pq.receipt = Some(Ok(json(r#"{"server_key_id":"new"}"#)));
    assert!(matches!(
        question(ask(&bundle, &answers)),
        Question::ReceiptSignerInfo { half: Half::KemPq, .. }
    ));
    let rotated = json(&format!(
        r#"{{"current_signing_keys":[{{"key_id":"new","public_key":"{}"}}]}}"#,
        b64(&[3])
    ));
    answers.kem_pq.signer_info = Some(Ok(rotated));
    match question(ask(&bundle, &answers)) {
        Question::ReceiptCheck { server_key, .. } => assert_eq!(server_key, vec![3]),
        _ => panic!("expected the receipt to be checked"),
    }
    answers.kem_pq.checked = Some(Ok(()));
    match ask(&bundle, &answers) {
        Gate::Go(k) => {
            assert_eq!(k.rk_ec, vec![4, 7]);
            assert_eq!(k.rk_pq, Some(vec![9, 9]));
        }
        _ => panic!("expected the keys"),
    }
}

#[test]
fn an_unlogged_key_is_no_wrap_target() {
    let bundle = human_bundle();
    let mut answers = Answers::new();
    answers.bundle_keys = Some(Ok(keys()));
    answers.kem.receipt = Some(Err(CliError::not_found("none")));
    let e = refused(ask(&bundle, &answers));
    assert_eq!(e.code, CliError::transparency_violation("").code);
    assert!(e.message.contains("an unlogged key is not a wrap target"));
}

#[test]
fn the_handle_decides_the_kind_of_account() {
    let mut answers = Answers::new();
    answers.bundle_keys = Some(Ok(keys()));
    let lying = json(r#"{"handle":"ada-ai","account_type":"human","account_id":"a"}"#);
    assert!(refused(ask(&lying, &answers)).message.contains("but the handle says otherwise"));
    let no_account = json(r#"{"handle":"gus"}"#);
    assert!(refused(ask(&no_account, &answers)).message.contains("carries no account id"));
    let unattested = json(r#"{"handle":"ada-ai","account_id":"a"}"#);
    assert!(refused(ask(&unattested, &answers)).message.contains("names no attestation"));
}

fn prsn_bundle() -> Json {
    json(r#"{"handle":"ada-ai","account_type":"prsn","recipient_account_id":"A-1","attestation_id":"t1"}"#)
}

fn attestation(status: &str, account: &str, handle: &str, rfp: &str) -> Json {
    json(&format!(
        r#"{{"server_key_id":"k1","signed_at":1750000000,"server_signature":"{}",
            "server_pq_key_id":"p1","server_signature_mldsa87":"{}",
            "attestation":{{"status":"{status}","subject_account_id":"{account}",
            "subject_handle":"{handle}","subject_kem_pubkey":"{}","subject_kem_pq_pubkey":"{}",
            "rfp":"{rfp}"}}}}"#,
        b64(&[5]),
        b64(&[6]),
        b64(&[4, 7]),
        b64(&[9, 9])
    ))
}

/// Every outside check answered in favour, for one verification response.
fn in_favour(response: Json) -> Answers {
    let mut answers = Answers::new();
    answers.bundle_keys = Some(Ok(keys()));
    answers.verification = Some(Ok(response));
    answers.signing_input = Some(Some(vec![8]));
    answers.es256 = Some(true);
    answers.mldsa87 = Some(Ok(()));
    answers.inline_receipts = Some(Ok("verified".to_string()));
    answers.pair_commitment = Some(Some("rfp1".to_string()));
    answers
}

#[test]
fn a_prsns_keys_are_those_of_its_attestation() {
    let bundle = prsn_bundle();
    let good = || attestation("active", "a-1", "ada-ai", "rfp1");
    assert!(matches!(ask(&bundle, &in_favour(good())), Gate::Go(_)));

    let mut answers = in_favour(good());
    answers.verification = None;
    match question(ask(&bundle, &answers)) {
        Question::Verification { url } => {
            assert_eq!(url, "https://h/v1/attestations/t1/verification");
        }
        _ => panic!("expected the attestation to be asked for"),
    }
    let mut answers = in_favour(good());
    answers.es256 = None;
    match question(ask(&bundle, &answers)) {
        Question::Es256 { key, message, signature } => {
            assert_eq!((key, message, signature), (vec![1, 1], vec![8], vec![5]));
        }
        _ => panic!("expected the signature to be checked"),
    }
    let mut answers = in_favour(good());
    answers.mldsa87 = None;
    match question(ask(&bundle, &answers)) {
        Question::MlDsa87 { key, message, signature } => {
            assert_eq!((key, message, signature), (vec![2, 2], vec![8], vec![6]));
        }
        _ => panic!("expected the second signature to be checked"),
    }
}

#[test]
fn an_attestation_is_refused_on_any_flaw() {
    let bundle = prsn_bundle();
    let why = |answers: Answers| refused(ask(&bundle, &answers));
    let good = || in_favour(attestation("active", "a-1", "ada-ai", "rfp1"));

    let e = why(in_favour(attestation("revoked", "a-1", "ada-ai", "rfp1")));
    assert_eq!(e.code, CliError::attestation_revoked("").code);
    let e = why(in_favour(attestation("expired", "a-1", "ada-ai", "rfp1")));
    assert_eq!(e.code, CliError::attestation_expired("").code);
    let e = why(in_favour(attestation("odd", "a-1", "ada-ai", "rfp1")));
    assert_eq!(e.message, "recipient: attestation has unknown status Some(\"odd\")");
    let e = why(in_favour(attestation("active", "a-2", "ada-ai", "rfp1")));
    assert!(e.message.contains("DIFFERENT account"));
    let e = why(in_favour(attestation("active", "a-1", "eve-ai", "rfp1")));
    assert!(e.message.contains("'eve-ai' does not match 'ada-ai'"));
    let e = why(in_favour(attestation("active", "a-1", "ada-ai", "other")));
    assert!(e.message.contains("recomputed rfp does not match"));

    let mut answers = good();
    answers.es256 = Some(false);
    assert!(why(answers).message.contains("server signature does not verify"));
    let mut answers = good();
    answers.mldsa87 = Some(Err(CliError::signature_invalid("pq")));
    assert_eq!(why(answers).message, "pq");
    let mut answers = good();
    answers.inline_receipts = Some(Ok("absent".to_string()));
    assert!(why(answers).message.contains("transparency receipts are absent"));
    let mut answers = good();
    answers.bundle_keys = Some(Ok(RecipientWrapKeys { rk_ec: vec![4, 7], rk_pq: None }));
    assert!(why(answers).message.contains("differ from the attested keys"));
    let mut answers = good();
    answers.signing_input = Some(None);
    assert_eq!(why(answers).message, "verification canonical bytes");
}

#[test]
fn a_response_with_one_signature_is_refused() {
    let response = json(
        r#"{"server_key_id":"k1","signed_at":1,"server_signature":"BQ","attestation":{}}"#,
    );
    let e = refused(ask(&prsn_bundle(), &in_favour(response)));
    assert_eq!(e.code, CliError::signature_invalid("").code);
    assert!(e.message.contains("ES256-only verification response rejected"));
}
