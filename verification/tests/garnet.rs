//! Signet Drive access: the credential, its pickup, its renewal and the grant status.

use base64::engine::general_purpose::STANDARD;
use base64::Engine;
use signet_cli::error::CliError;
use signet_cli::garnet::{
    audience_to_wire, auto_renew_due, broker_op_error, cert_renewal_body, cert_renewal_reply,
    cert_renewal_url, complete_pickup, default_credential_path, keygen_receipt, keygen_request,
    past_half_validity, pickup_failed, pickup_handle, pickup_path, pickup_receipt,
    reissue_notice, reject_kind, renewed_cert, requested_audience, resolve_credential_path, sign_request, signature_reply, store_token,
    token_reply, token_request_body, token_url, unexpected_response, CertRenewal, Exchange,
    RenewEvent, RenewStage, RenewStep, TokenReject,
};
use signet_cli::garnet_credential::{load_error, PoPCredential};
use signet_cli::garnet_grant_status_client::{
    attempt_outcome, deregister_error, deregister_url, grant_status_url, map_response,
    parse_rfc3339_unix, query_step, query_with_one_retry, tls_config_error, GrantStatusBody,
    QueryStep,
};
use signet_cli::garnet_pickup::{
    assemble, build_pickup_body, json_str, pickup_base, pickup_url, read_answer,
};
use signet_cli::garnet_revocation::GrantStatusOutcome;
use signet_cli::json::{parse, parse_bytes, Json};
use signet_cli::keystore::Purpose;
use signet_cli::wire::{Op, OpErr, OpOk, Response};
use std::cell::Cell;

const CONFIG_DIR: &str = "/home/g/.config/signet";

#[test]
fn reject_kind_triggers_only_on_a_403_carrying_our_error_shape() {
    assert_eq!(
        reject_kind(403, true),
        TokenReject::AuthorizationRefused,
        "our 403 refusal is the recovery trigger"
    );
    assert_eq!(reject_kind(403, false), TokenReject::Other);
    for status in [500u16, 502, 503] {
        assert_eq!(reject_kind(status, true), TokenReject::Other);
        assert_eq!(reject_kind(status, false), TokenReject::Other);
    }
    assert_eq!(reject_kind(429, true), TokenReject::Other);
    assert_eq!(reject_kind(400, true), TokenReject::Other);
    assert_eq!(reject_kind(401, true), TokenReject::Other);
}

#[test]
fn past_half_validity_triggers_at_the_midpoint_and_after() {
    let (nb, na) = (1_000u64, 1_000 + 604_800);
    let mid = nb + 302_400;
    assert!(!past_half_validity(nb, na, nb));
    assert!(!past_half_validity(nb, na, mid - 1));
    assert!(past_half_validity(nb, na, mid));
    assert!(past_half_validity(nb, na, na));
    assert!(past_half_validity(nb, na, na + 999));
}

#[test]
fn past_half_validity_handles_a_degenerate_window() {
    assert!(past_half_validity(500, 500, 500));
    assert!(past_half_validity(500, 400, 500));
}

#[test]
fn an_unreadable_certificate_is_not_renewed_on_its_own() {
    assert!(!auto_renew_due(None, 10));
    assert!(auto_renew_due(Some((0, 10)), 5));
    assert!(!auto_renew_due(Some((0, 10)), 4));
}

#[test]
fn default_credential_path_is_per_handle_under_garnet() {
    let path = default_credential_path(CONFIG_DIR, "hlin-ai");
    let path = std::path::Path::new(&path);
    assert_eq!(path.file_name().unwrap(), "hlin-ai.json");
    assert_eq!(path.parent().unwrap().file_name().unwrap(), "garnet");
}

#[test]
fn default_credential_path_distinguishes_co_resident_prsns() {
    assert_ne!(
        default_credential_path(CONFIG_DIR, "hlin-ai"),
        default_credential_path(CONFIG_DIR, "mira-ai")
    );
}

#[test]
fn audience_to_wire_maps_only_the_two_friendly_values() {
    assert_eq!(audience_to_wire("server"), Some("signet-server"));
    assert_eq!(audience_to_wire("broker"), Some("signet-broker"));
    assert_eq!(audience_to_wire("signet-broker"), None);
    assert_eq!(audience_to_wire(""), None);
}

#[test]
fn an_unknown_audience_is_an_argument_error() {
    assert_eq!(requested_audience("broker").unwrap(), "signet-broker");
    let e = requested_audience("signet-broker").unwrap_err();
    assert_eq!(e.code, "invalid_arguments");
}

#[test]
fn resolve_credential_path_prefers_an_explicit_flag() {
    let explicit = "/tmp/somewhere/cred.json";
    assert_eq!(resolve_credential_path(Some(explicit), None, CONFIG_DIR).unwrap(), explicit);
    assert_eq!(
        resolve_credential_path(Some(explicit), Some("hlin-ai"), CONFIG_DIR).unwrap(),
        explicit
    );
}

#[test]
fn the_handle_names_the_credential_and_neither_is_an_error() {
    assert_eq!(
        resolve_credential_path(None, Some("hlin-ai"), CONFIG_DIR).unwrap(),
        "/home/g/.config/signet/garnet/hlin-ai.json"
    );
    let e = resolve_credential_path(None, None, CONFIG_DIR).unwrap_err();
    assert_eq!(e.code, "invalid_arguments");
}

#[test]
fn broker_op_error_surfaces_the_brokers_code_and_message() {
    let err = broker_op_error(OpErr {
        code: "authorization_denied".into(),
        message: "label 'x-ai-signing' is not this PRSN".into(),
    });
    assert_eq!(err.code, "broker_op_failed");
    assert!(err.message.contains("authorization_denied"));
    assert!(err.message.contains("not this PRSN"));
}

fn sample() -> PoPCredential {
    PoPCredential::new(
        "hlin-ai",
        vec![0x30, 1, 2, 255],
        vec![0x30, 9, 8],
        vec![0x30, 7],
        "broker-spki-pin-b64url",
        "https://drive.mysignet.ca:8443",
        "server.token.jws",
    )
}

#[test]
fn save_load_round_trips_every_field() {
    let mut cred = sample();
    cred.set_broker_token("broker.token.jws");
    let loaded = PoPCredential::from_stored(cred.to_stored()).unwrap();
    assert_eq!(loaded.handle, "hlin-ai");
    assert_eq!(loaded.server_token(), "server.token.jws");
    assert_eq!(loaded.broker_token(), Some("broker.token.jws"));
    assert_eq!(loaded.broker_spki_pin(), "broker-spki-pin-b64url");
    assert_eq!(loaded.grant_status_url(), "https://drive.mysignet.ca:8443");
    assert_eq!(loaded.ca_anchor_der(), cred.ca_anchor_der());
    assert_eq!(loaded.client_cert_der(), cred.client_cert_der());
    assert_eq!(loaded.client_key_pkcs8(), cred.client_key_pkcs8());
}

#[test]
fn the_stored_form_is_padded_base64() {
    let stored = sample().to_stored();
    assert_eq!(stored.k4_key_pkcs8_b64, "MAEC/w==");
    assert_eq!(stored.client_cert_der_b64, "MAkI");
    assert_eq!(stored.ca_anchor_der_b64, "MAc=");
    assert_eq!(stored.broker_token, None);
}

#[test]
fn each_malformed_field_is_named() {
    let mut stored = sample().to_stored();
    stored.k4_key_pkcs8_b64 = "!".into();
    let e = PoPCredential::from_stored(stored).err().unwrap();
    assert_eq!(e.message, "malformed PoP credential field 'k4 key'");
    assert_eq!(e.code, "filesystem_error");
    let mut stored = sample().to_stored();
    stored.client_cert_der_b64 = "MA".into();
    let e = PoPCredential::from_stored(stored).err().unwrap();
    assert_eq!(e.message, "malformed PoP credential field 'client cert'");
    let mut stored = sample().to_stored();
    stored.ca_anchor_der_b64 = "-_-_".into();
    let e = PoPCredential::from_stored(stored).err().unwrap();
    assert_eq!(e.message, "malformed PoP credential field 'ca anchor'");
}

#[test]
fn broker_token_absent_until_set() {
    let cred = sample();
    assert_eq!(cred.broker_token(), None);
}

#[test]
fn rotate_cert_replaces_identity_and_drops_the_broker_token() {
    let mut cred = sample();
    cred.set_broker_token("broker.token.jws");
    let old_cert = cred.client_cert_der().to_vec();
    cred.rotate_cert(vec![0x30, 5], vec![0x30, 6]);
    assert_ne!(cred.client_cert_der(), old_cert.as_slice(), "the cert is replaced");
    assert_eq!(cred.client_cert_der(), [0x30, 6]);
    assert_eq!(cred.client_key_pkcs8(), [0x30, 5]);
    assert_eq!(cred.broker_token(), None, "the broker token is dropped");
    assert_eq!(cred.handle, "hlin-ai", "the handle is unchanged");
    assert_eq!(cred.server_token(), "server.token.jws");
}

#[test]
fn load_missing_is_a_clear_error() {
    let err = load_error(true, "/tmp/nope.json", "No such file or directory");
    assert_eq!(err.code, "key_not_found");
    let err = load_error(false, "/tmp/c.json", "denied");
    assert_eq!(err.code, "filesystem_error");
    assert_eq!(err.message, "reading /tmp/c.json: denied");
}

#[test]
fn the_shown_form_holds_no_secret() {
    let mut cred = sample();
    cred.set_broker_token("broker.token.jws");
    assert_eq!(
        cred.redacted(),
        "PoPCredential { handle: \"hlin-ai\", k4_key_pkcs8: \"<redacted>\", \
         client_cert_der_len: 3, ca_anchor_der_len: 2, broker_spki_pin: \
         \"broker-spki-pin-b64url\", grant_status_url: \"https://drive.mysignet.ca:8443\", \
         server_token: \"<redacted>\", broker_token: Some(\"<redacted>\") }"
    );
    cred.set_server_token("other");
    let copied = cred.copy();
    assert_eq!(copied.redacted(), cred.redacted());
    assert_eq!(copied.server_token(), "other");
    assert_eq!(copied.bound_handle(), "hlin-ai");
}

const ANCHOR_RFC3339: &str = "2025-06-15T13:46:40Z";

fn anchor_unix() -> i64 {
    parse_rfc3339_unix(ANCHOR_RFC3339).expect("the anchor parses")
}

fn body(text: &str) -> Option<GrantStatusBody> {
    let v = parse(text).ok()?;
    Some(GrantStatusBody {
        status: v.get_str("status")?.to_string(),
        enrollment_confirmed: v.get_bool("enrollment_confirmed")?,
        cert_revoked: v.get_bool("cert_revoked")?,
        server_time: v.get_str("server_time")?.to_string(),
        lease_seconds: v.get_i64("lease_seconds"),
        outage_grace_seconds: v.get_i64("outage_grace_seconds"),
    })
}

fn answer(status: &str, confirmed: bool, revoked: bool, time: &str) -> String {
    format!(
        r#"{{"grant_id":"{}","status":"{status}","enrollment_confirmed":{confirmed},"cert_revoked":{revoked},"server_time":"{time}"}}"#,
        uuid::Uuid::new_v4()
    )
}

#[test]
fn timestamps_are_read_as_unix_seconds() {
    assert_eq!(parse_rfc3339_unix(ANCHOR_RFC3339), Some(1_749_995_200));
    assert_eq!(parse_rfc3339_unix("2025-06-15T15:46:40+02:00"), Some(1_749_995_200));
    assert_eq!(parse_rfc3339_unix("1749995200"), None);
}

#[test]
fn maps_a_live_affirmative_to_live_with_server_time() {
    let text = answer("active", true, false, ANCHOR_RFC3339);
    assert_eq!(map_response(200, body(&text)), GrantStatusOutcome::live(anchor_unix()));
}

#[test]
fn maps_every_definitive_negative_to_revoked() {
    let st = ANCHOR_RFC3339;
    let revoked = answer("revoked", true, false, st);
    assert_eq!(map_response(200, body(&revoked)), GrantStatusOutcome::Revoked);
    let unconfirmed = answer("active", false, false, st);
    assert_eq!(map_response(200, body(&unconfirmed)), GrantStatusOutcome::Revoked);
    let cert_revoked = answer("active", true, true, st);
    assert_eq!(map_response(200, body(&cert_revoked)), GrantStatusOutcome::Revoked);
}

#[test]
fn maps_ambiguous_answers_to_unreachable() {
    let text = answer("active", true, false, ANCHOR_RFC3339);
    assert_eq!(map_response(503, body(&text)), GrantStatusOutcome::Unreachable);
    assert_eq!(map_response(404, body(&text)), GrantStatusOutcome::Unreachable);
    assert_eq!(map_response(200, body("not json")), GrantStatusOutcome::Unreachable);
    let bad_time = answer("active", true, false, "not-a-time");
    assert_eq!(map_response(200, body(&bad_time)), GrantStatusOutcome::Unreachable);
}

#[test]
fn both_sla_values_are_needed() {
    let mut b = body(&answer("active", true, false, ANCHOR_RFC3339)).unwrap();
    b.lease_seconds = Some(10);
    assert_eq!(map_response(200, Some(b)), GrantStatusOutcome::live(anchor_unix()));
    let mut b = body(&answer("active", true, false, ANCHOR_RFC3339)).unwrap();
    b.lease_seconds = Some(10);
    b.outage_grace_seconds = Some(20);
    assert_eq!(
        map_response(200, Some(b)),
        GrantStatusOutcome::live_with_sla(anchor_unix(), 10, 20)
    );
}

#[test]
fn an_error_status_is_an_answer_and_silence_is_not() {
    assert_eq!(attempt_outcome(Some((503, None))), Ok(GrantStatusOutcome::Unreachable));
    let b = body(&answer("revoked", true, false, ANCHOR_RFC3339));
    assert_eq!(attempt_outcome(Some((200, b))), Ok(GrantStatusOutcome::Revoked));
    assert_eq!(attempt_outcome(None), Err(()));
}

fn live() -> GrantStatusOutcome {
    GrantStatusOutcome::live(0)
}

#[test]
fn a_server_answer_on_the_first_try_is_never_retried() {
    let calls = Cell::new(0);
    let attempt = || {
        calls.set(calls.get() + 1);
        Ok(live())
    };
    let out = query_with_one_retry(&attempt, &attempt);
    assert_eq!(out, live());
    assert_eq!(calls.get(), 1, "a definitive answer is used as-is, no retry");
}

#[test]
fn a_definitive_negative_is_not_re_queried() {
    let calls = Cell::new(0);
    let attempt = || {
        calls.set(calls.get() + 1);
        Ok(GrantStatusOutcome::Revoked)
    };
    let out = query_with_one_retry(&attempt, &attempt);
    assert_eq!(out, GrantStatusOutcome::Revoked);
    assert_eq!(calls.get(), 1);
}

#[test]
fn one_transport_failure_then_success_heals() {
    let calls = Cell::new(0);
    let attempt = || {
        calls.set(calls.get() + 1);
        if calls.get() == 1 {
            Err(())
        } else {
            Ok(live())
        }
    };
    let out = query_with_one_retry(&attempt, &attempt);
    assert_eq!(out, live(), "the retry re-establishes and succeeds");
    assert_eq!(calls.get(), 2);
}

#[test]
fn two_transport_failures_fail_closed_unreachable() {
    let calls = Cell::new(0);
    let attempt = || {
        calls.set(calls.get() + 1);
        Err::<GrantStatusOutcome, ()>(())
    };
    let out = query_with_one_retry(&attempt, &attempt);
    assert_eq!(out, GrantStatusOutcome::Unreachable, "still fail-closed");
    assert_eq!(calls.get(), 2, "exactly one retry");
}

/// Run attempts step by step, and count them.
fn stepped(answers: &[Result<GrantStatusOutcome, ()>]) -> (GrantStatusOutcome, usize) {
    let mut runs = 0;
    loop {
        let step = query_step(runs > 0, answers[runs]);
        runs += 1;
        if let QueryStep::Over(outcome) = step {
            return (outcome, runs);
        }
    }
}

#[test]
fn a_query_takes_one_attempt_or_two() {
    let revoked = GrantStatusOutcome::Revoked;
    let unreachable = GrantStatusOutcome::Unreachable;
    assert_eq!(stepped(&[Ok(live())]), (live(), 1));
    assert_eq!(stepped(&[Ok(revoked)]), (revoked, 1));
    assert_eq!(stepped(&[Ok(unreachable)]), (unreachable, 1));
    assert_eq!(stepped(&[Err(()), Ok(live())]), (live(), 2));
    assert_eq!(stepped(&[Err(()), Ok(revoked)]), (revoked, 2));
    assert_eq!(stepped(&[Err(()), Err(())]), (unreachable, 2));
}

#[test]
fn an_http_answer_is_never_asked_for_again() {
    for status in [404, 503, 500, 401] {
        let answer = attempt_outcome(Some((status, None)));
        assert_eq!(stepped(&[answer]), (GrantStatusOutcome::Unreachable, 1));
    }
    assert_eq!(query_step(false, attempt_outcome(None)), QueryStep::Again);
}

#[test]
fn a_pickup_reports_the_credential_it_stored() {
    let picked_up = || PoPCredential::new("hlin-ai", vec![1], vec![2], vec![3], "pin", "u", "t");
    let mut cred = picked_up();
    assert!(complete_pickup(&mut cred, Ok("tok".to_string())).is_none());
    let r = pickup_receipt(&cred, "fp", "/c/x.json");
    assert_eq!((r.handle.as_str(), r.cert_fingerprint.as_str()), ("hlin-ai", "fp"));
    assert_eq!(r.credential_path, "/c/x.json");
    assert!(r.enrollment_confirmed && r.broker_token_acquired);
    let mut cred = picked_up();
    assert!(complete_pickup(&mut cred, Err(CliError::generic("not yet"))).is_some());
    let r = pickup_receipt(&cred, "fp", "/c/x.json");
    assert!(r.enrollment_confirmed && !r.broker_token_acquired);
    assert_eq!(pickup_path(Some("/c/x.json"), "/d", "hlin-ai"), "/c/x.json");
    assert_eq!(pickup_path(None, "/d", "hlin-ai"), "/d/garnet/hlin-ai.json");
    assert_eq!(pickup_base("https://h//"), "https://h");
}

#[test]
fn a_pickup_is_asked_for_below_the_base() {
    assert_eq!(pickup_url("https://h:8443"), "https://h:8443/v1/garnet/pickup");
    assert_eq!(pickup_url("https://h:8443//"), "https://h:8443/v1/garnet/pickup");
}

#[test]
fn the_endpoints_hang_under_the_base_url() {
    let base = "https://h:8443";
    assert_eq!(grant_status_url(base), "https://h:8443/v1/garnet/grant-status");
    assert_eq!(deregister_url(base), "https://h:8443/v1/garnet/broker/deregister");
    assert!(token_url(base).starts_with("https://h:8443/v1/garnet/"));
    assert!(cert_renewal_url(base).starts_with("https://h:8443/v1/garnet/"));
    assert_ne!(token_url(base), cert_renewal_url(base));
    assert!(deregister_error("no route").message.contains("no route"));
    assert!(tls_config_error("bad key").message.contains("bad key"));
}

#[test]
fn pickup_body_carries_the_base64_csr_and_no_bearer_secret() {
    let csr = vec![0x30, 0x82, 1, 2, 3, 0xff];
    let bytes = build_pickup_body(&csr);
    let v = parse_bytes(&bytes).unwrap();
    let csr_b64 = v.get_str("csr").unwrap();
    assert_eq!(STANDARD.decode(csr_b64).unwrap(), csr);
    assert!(v.get("pairing_code").is_none());
    match v {
        Json::Object(fields) => assert_eq!(fields.len(), 1, "csr is the whole body"),
        other => panic!("expected an object, got {other:?}"),
    }
}

#[test]
fn json_str_requires_the_field() {
    let v = parse(r#"{ "access_token": "tok" }"#).unwrap();
    assert_eq!(json_str(&v, "access_token").unwrap(), "tok");
    assert!(json_str(&v, "client_cert").is_err());
}

fn pickup_json() -> Json {
    parse(
        r#"{"client_cert":"C","ca_cert":"A","broker_spki_pin":"pin","access_token":"tok",
            "grant_status_url":"https://s","reissued":true}"#,
    )
    .unwrap()
}

#[test]
fn a_pickup_answer_becomes_a_credential() {
    let read = read_answer(&pickup_json()).unwrap();
    assert_eq!(read.client_cert_pem, "C");
    assert_eq!(read.ca_cert_pem, "A");
    let (cred, reissued) = assemble(
        read,
        Ok(vec![1]),
        Ok(vec![2]),
        Some("hlin-ai".to_string()),
        Ok(vec![3]),
    )
    .ok()
    .unwrap();
    assert!(reissued);
    assert_eq!(cred.handle, "hlin-ai");
    assert_eq!(cred.client_cert_der(), [1]);
    assert_eq!(cred.ca_anchor_der(), [2]);
    assert_eq!(cred.client_key_pkcs8(), [3]);
    assert_eq!(cred.broker_spki_pin(), "pin");
    assert_eq!(cred.server_token(), "tok");
    assert_eq!(cred.grant_status_url(), "https://s");
    assert_eq!(cred.broker_token(), None);
}

#[test]
fn a_pickup_fails_on_its_first_flaw() {
    let v = parse(r#"{"client_cert":"C","broker_spki_pin":1}"#).unwrap();
    let e = read_answer(&v).err().unwrap();
    assert_eq!(e.message, "pickup response missing string field 'ca_cert'");
    let h = || Some("hlin-ai".to_string());
    let read = || read_answer(&pickup_json()).unwrap();
    let bad = || Err("pem".to_string());
    let message = |r: Result<(PoPCredential, bool), CliError>| r.err().unwrap().message;
    assert_eq!(
        message(assemble(read(), bad(), bad(), None, bad())),
        "pickup returned a malformed client cert: pem"
    );
    assert_eq!(
        message(assemble(read(), Ok(vec![]), bad(), None, bad())),
        "pickup returned a malformed CA anchor: pem"
    );
    assert_eq!(
        message(assemble(read(), Ok(vec![]), Ok(vec![]), None, bad())),
        "pickup returned a cert without a PRSN-handle SAN"
    );
    assert_eq!(
        message(assemble(read(), Ok(vec![]), Ok(vec![]), h(), bad())),
        "encoding the K4 key: pem"
    );
}

#[test]
fn tokens_are_requested_and_filed_by_audience() {
    let v = parse_bytes(&token_request_body("signet-broker")).unwrap();
    assert_eq!(v.get_str("audience"), Some("signet-broker"));
    let mut cred = sample();
    store_token(&mut cred, "broker", "b1");
    assert_eq!(cred.broker_token(), Some("b1"));
    assert_eq!(cred.server_token(), "server.token.jws");
    store_token(&mut cred, "server", "s1");
    assert_eq!(cred.server_token(), "s1");
    assert_eq!(cred.broker_token(), Some("b1"));
}

fn refused(status: u16, body: Option<&str>) -> Exchange {
    Exchange::Refused { status, body: body.map(str::to_string) }
}

#[test]
fn only_our_403_denies_a_token() {
    let url = "https://h/token";
    let ok = Exchange::Accepted(Ok(r#"{"access_token":"t"}"#.to_string()));
    assert_eq!(token_reply(url, ok).unwrap(), "t");
    let e = token_reply(url, refused(403, Some(r#"{"error":"grant paused"}"#))).unwrap_err();
    assert_eq!(e.code, "token_denied");
    assert_eq!(e.message, "the server refused the token (403): grant paused");
    let e = token_reply(url, refused(403, Some("<html>"))).unwrap_err();
    assert_eq!(e.code, "token_request_failed");
    assert_eq!(e.message, "the token request failed (403): token request rejected");
    let e = token_reply(url, refused(500, Some(r#"{"error":"internal"}"#))).unwrap_err();
    assert_eq!(e.code, "token_request_failed");
    let e = token_reply(url, refused(403, None)).unwrap_err();
    assert_eq!(e.code, "token_request_failed");
    let e = token_reply(url, Exchange::Unreachable("refused".into())).unwrap_err();
    assert_eq!(e.code, "token_endpoint_unreachable");
    assert_eq!(e.exit_code, 69);
    let e = token_reply(url, Exchange::Accepted(Ok("[]".into()))).unwrap_err();
    assert_eq!(e.message, "token response missing 'access_token'");
    let e = token_reply(url, Exchange::Accepted(Ok("{".into()))).unwrap_err();
    assert!(e.message.starts_with("malformed token response: "));
    let e = token_reply(url, Exchange::Accepted(Err("cut".into()))).unwrap_err();
    assert_eq!(e.message, "reading the token response: cut");
}

#[test]
fn a_renewal_reply_is_a_certificate_or_a_refusal() {
    let url = "https://h/renew";
    let ok = Exchange::Accepted(Ok(r#"{"client_cert":"PEM"}"#.to_string()));
    assert_eq!(cert_renewal_reply(url, ok).unwrap(), "PEM");
    let e = cert_renewal_reply(url, refused(409, None)).unwrap_err();
    assert_eq!(e.code, "cert_renewal_denied");
    assert_eq!(e.message, "the server refused the cert renewal (409): cert renewal rejected");
    let e = cert_renewal_reply(url, Exchange::Accepted(Ok("{}".into()))).unwrap_err();
    assert_eq!(e.message, "cert-renewal response missing 'client_cert'");
    let v = parse_bytes(&cert_renewal_body(&[1, 2, 3])).unwrap();
    assert_eq!(v.get_str("csr"), Some("AQID"));
    assert_eq!(renewed_cert(Ok(vec![4])).unwrap(), vec![4]);
    assert!(renewed_cert(Err("pem".into())).unwrap_err().message.contains("pem"));
}

fn go(step: RenewStep) -> CertRenewal {
    match step {
        RenewStep::Go(r) => r,
        _ => panic!("expected the renewal to go on"),
    }
}

fn issued(handle: Option<&str>) -> RenewEvent {
    RenewEvent::Issued {
        cert: vec![0x30, 6],
        san_handle: handle.map(str::to_string),
        key: Ok(vec![0x30, 5]),
    }
}

#[test]
fn a_renewal_saves_the_certificate_before_it_mints_tokens() {
    let mut cred = sample();
    cred.set_broker_token("old");
    let r = CertRenewal::start(cred);
    assert_eq!(r.stage(), RenewStage::Certificate);
    let r = go(r.step(issued(Some("hlin-ai"))));
    assert_eq!(r.stage(), RenewStage::Rotated);
    assert_eq!(r.credential().client_cert_der(), [0x30, 6]);
    assert_eq!(r.credential().broker_token(), None);
    let r = go(r.step(RenewEvent::Saved));
    assert_eq!(r.stage(), RenewStage::ServerToken);
    let r = go(r.step(RenewEvent::Minted("s2".into())));
    assert_eq!(r.stage(), RenewStage::BrokerToken);
    let r = go(r.step(RenewEvent::Minted("b2".into())));
    assert_eq!(r.stage(), RenewStage::Tokens);
    match r.step(RenewEvent::Saved) {
        RenewStep::Done { cred, broker_refreshed } => {
            assert!(broker_refreshed);
            assert_eq!(cred.server_token(), "s2");
            assert_eq!(cred.broker_token(), Some("b2"));
            assert_eq!(cred.handle, "hlin-ai");
        }
        _ => panic!("expected the renewal to end"),
    }
}

#[test]
fn a_renewal_without_a_broker_token_mints_none() {
    let r = go(CertRenewal::start(sample()).step(issued(Some("hlin-ai"))));
    let r = go(r.step(RenewEvent::Saved));
    let r = go(r.step(RenewEvent::Minted("s2".into())));
    assert_eq!(r.stage(), RenewStage::Tokens);
    match r.step(RenewEvent::Saved) {
        RenewStep::Done { cred, broker_refreshed } => {
            assert!(!broker_refreshed);
            assert_eq!(cred.broker_token(), None);
        }
        _ => panic!("expected the renewal to end"),
    }
}

#[test]
fn a_renewal_refuses_a_certificate_for_someone_else() {
    let failed = |s: RenewStep| match s {
        RenewStep::Failed(e) => e.message,
        _ => panic!("expected a refusal"),
    };
    assert_eq!(
        failed(CertRenewal::start(sample()).step(issued(Some("mira-ai")))),
        "renewal returned a cert for 'mira-ai', not 'hlin-ai'. Refusing to rotate"
    );
    assert_eq!(
        failed(CertRenewal::start(sample()).step(issued(None))),
        "renewal returned a cert without a PRSN-handle SAN"
    );
    let r = CertRenewal::start(sample());
    assert_eq!(failed(r.step(RenewEvent::Failed(CliError::generic("down")))), "down");
}

#[test]
fn a_pickup_is_kept_without_its_broker_token() {
    let mut cred = sample();
    assert_eq!(complete_pickup(&mut cred, Ok("b1".into())), None);
    assert_eq!(cred.broker_token(), Some("b1"));
    let mut cred = sample();
    let notice = complete_pickup(&mut cred, Err(CliError::generic("later"))).unwrap();
    assert!(notice.contains("later"));
    assert_eq!(cred.broker_token(), None);
    assert!(reissue_notice("hlin-ai").contains("hlin-ai"));
    assert!(pickup_failed(&CliError::generic("why")).message.contains("why"));
}

#[test]
fn a_pickup_needs_an_asserted_handle() {
    assert_eq!(pickup_handle(Some("hlin-ai"), true).unwrap(), "hlin-ai");
    let e = pickup_handle(None, true).unwrap_err();
    assert_eq!(e.code, "config_error");
    assert!(e.message.starts_with("not connected yet"));
    let e = pickup_handle(None, false).unwrap_err();
    assert_eq!(e.message, "set SIGNET_HANDLE so signet knows which PRSN is picking up");
}

#[test]
fn broker_requests_are_made_for_the_handle() {
    match keygen_request("hlin-ai", Purpose::KemPq, None).unwrap() {
        Op::Keygen { label, algorithm } => {
            assert_eq!(label, "hlin-ai-kem-pq");
            assert_eq!(algorithm, "ML-KEM-1024");
        }
        other => panic!("unexpected {other:?}"),
    }
    match keygen_request("hlin-ai", Purpose::Signing, Some("X")).unwrap() {
        Op::Keygen { algorithm, .. } => assert_eq!(algorithm, "X"),
        other => panic!("unexpected {other:?}"),
    }
    assert!(keygen_request("hlin", Purpose::Signing, None).is_err());
    match sign_request("hlin-ai", vec![1, 2], 2).unwrap() {
        Op::Sign { label, msg } => {
            assert_eq!(label, "hlin-ai-signing");
            assert_eq!(msg, vec![1, 2]);
        }
        other => panic!("unexpected {other:?}"),
    }
    let e = sign_request("hlin-ai", vec![1, 2, 3], 2).unwrap_err();
    assert_eq!(e.message, "input exceeds the 1 MB sign limit");
}

#[test]
fn broker_answers_are_read_by_their_kind() {
    let r = keygen_receipt(Response::Done(OpOk::Keygen {
        public_key: vec![0xfb, 0xff],
        fingerprint: "fp".into(),
        algorithm: "ES256".into(),
    }))
    .ok()
    .unwrap();
    assert_eq!(r.public_key, "-_8");
    assert_eq!(r.fingerprint, "fp");
    assert_eq!(r.algorithm, "ES256");
    let sig = signature_reply(Response::Done(OpOk::Sign { signature: vec![9] })).unwrap();
    assert_eq!(sig, vec![9]);
    let e = signature_reply(Response::Done(OpOk::Delete)).unwrap_err();
    assert_eq!(e.code, "invalid_data");
    assert_eq!(e.message, unexpected_response(&OpOk::Delete).message);
    let refusal = OpErr { code: "c".into(), message: "m".into() };
    let e = signature_reply(Response::Failed(refusal)).unwrap_err();
    assert_eq!(e.message, "the broker refused the op (c): m");
}
