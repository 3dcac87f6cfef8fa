//! Requests to the server and transfers to object storage.

use signet_cli::clock::Span;
use signet_cli::error::CliError;
use signet_cli::http::{
    api_status_error, api_step, backoff, check_method, combine_signatures, fresh_nonce,
    header_list, json_reply, network, once_reply, relax_ceiling, transfer_backoff, transfer_wait,
    update_recommended, ApiEvent, ApiStep, DownloadStep, PartUpload, RangeDownload, TransferEvent,
    TransferKnobs, UploadStep, DOWNLOAD_ATTEMPTS, MAX_RETRIES,
};
use signet_cli::json::parse;

const SNDBUF: usize = 1_048_576;

#[test]
fn a_stalled_attempt_relaxes_the_next_attempts_ceiling() {
    let c = Span::from_secs(40);
    assert_eq!(relax_ceiling(c), Span::from_secs(80), "a stall must double the ceiling");
    let mut v = c;
    for _ in 0..9 {
        let next = relax_ceiling(v);
        assert!(v.less_than(&next), "each stalled attempt must widen the bound");
        v = next;
    }
    assert!(
        !v.less_than(&Span::from_secs(40 * 512)),
        "ten attempts must span a 512x rate collapse; got {v:?} from {c:?}"
    );
    let huge = Span::from_secs(80_000);
    assert_eq!(relax_ceiling(huge), Span::from_secs(86_400));
    assert_eq!(
        relax_ceiling(Span::from_secs(86_400)),
        Span::from_secs(86_400),
        "the cap must be a fixed point, not a value that keeps growing"
    );
}

#[test]
fn no_ceiling_is_too_large_to_relax() {
    assert_eq!(relax_ceiling(Span::from_secs(u64::MAX)), Span::from_secs(86_400));
    assert_eq!(relax_ceiling(Span::from_secs(0)), Span::from_secs(0));
}

#[test]
fn api_status_error_maps_server_statuses_precisely() {
    let unauth = api_status_error(401, "authentication_required");
    assert_eq!(unauth.exit_code, 10);
    assert_eq!(unauth.code, "authentication_failed");

    let forbidden = api_status_error(403, "sharing_capability_insufficient");
    assert_eq!(forbidden.exit_code, 17);
    assert_eq!(forbidden.code, "authorization_denied");
    assert!(
        forbidden.message.contains("sharing_capability_insufficient"),
        "the server's specific error code should survive in the message",
    );

    let missing = api_status_error(404, "recipient_not_found");
    assert_eq!(missing.exit_code, 26);
    assert_eq!(missing.code, "not_found");
    assert!(
        missing.message.contains("recipient_not_found"),
        "the server's specific error code should survive in the message",
    );

    let conflict = api_status_error(409, "version_conflict");
    assert_eq!(conflict.exit_code, 27);
    assert_eq!(conflict.code, "conflict");
    assert!(
        conflict.message.contains("version_conflict"),
        "the server's specific error code should survive in the message",
    );

    for code in [418u16, 500, 503] {
        let other = api_status_error(code, "boom");
        assert_eq!(other.exit_code, 31, "HTTP {code} should stay network_error");
        assert_eq!(other.code, "network_error");
    }
    assert_eq!(api_status_error(500, "boom").message, "server returned HTTP 500: boom");
}

fn status(code: u16, body: &str) -> ApiEvent {
    ApiEvent::Status { code, body: body.to_string() }
}

fn over(step: ApiStep) -> Result<String, CliError> {
    match step {
        ApiStep::Over(r) => r,
        ApiStep::Retry { .. } => panic!("expected an end"),
    }
}

#[test]
fn transient_failures_are_retried_within_the_budget() {
    let url = "https://h/v1";
    for event in [status(503, "busy"), ApiEvent::Transport("reset".into())] {
        match api_step(url, 0, event) {
            ApiStep::Retry { attempt, wait } => {
                assert_eq!(attempt, 1);
                assert_eq!(wait, backoff(1));
            }
            ApiStep::Over(_) => panic!("expected a retry"),
        }
    }
    let e = over(api_step(url, MAX_RETRIES, status(503, "busy"))).unwrap_err();
    assert_eq!(e.message, "server returned HTTP 503: busy");
    let e = over(api_step(url, MAX_RETRIES, ApiEvent::Transport("reset".into()))).unwrap_err();
    assert_eq!(e.message, "request to https://h/v1 failed: reset");
    assert_eq!(e.code, "network_error");
}

#[test]
fn definite_answers_are_not_retried() {
    let url = "https://h/v1";
    assert_eq!(over(api_step(url, 0, ApiEvent::Accepted(Ok("{}".into())))).unwrap(), "{}");
    let e = over(api_step(url, 0, ApiEvent::Accepted(Err("cut".into())))).unwrap_err();
    assert_eq!(e.message, "reading response body: cut");
    let e = over(api_step(url, 0, status(400, "cli_outdated"))).unwrap_err();
    assert_eq!((e.code, e.exit_code), ("cli_outdated", 16));
    let e = over(api_step(url, 0, status(400, "bad"))).unwrap_err();
    assert_eq!(e.message, "server rejected the request: bad");
    assert_eq!(over(api_step(url, 0, status(404, "x"))).unwrap_err().exit_code, 26);
    assert_eq!(once_reply(url, status(503, "busy")).unwrap_err().code, "network_error");
    assert_eq!(once_reply(url, ApiEvent::Accepted(Ok("b".into()))).unwrap(), "b");
    assert_eq!(network("m").exit_code, 31);
}

#[test]
fn the_wait_grows_with_the_attempts() {
    assert_eq!(backoff(1), Span::from_secs(1));
    assert_eq!(backoff(2), Span::from_secs(2));
    assert_eq!(backoff(3), Span::from_secs(4));
}

#[test]
fn replies_are_json_and_methods_are_known() {
    assert_eq!(json_reply(r#"{"a":1}"#).unwrap().get_i64("a"), Some(1));
    let e = json_reply("<html>").unwrap_err();
    assert!(e.message.starts_with("server returned invalid JSON: "));
    for method in ["GET", "POST", "PATCH", "DELETE"] {
        assert!(check_method(method).is_ok(), "{method}");
    }
    let e = check_method("PUT").unwrap_err();
    assert_eq!(e.message, "unsupported signed HTTP method 'PUT'");
    assert!(update_recommended(Some("true")));
    assert!(!update_recommended(Some("1")));
    assert!(!update_recommended(None));
}

#[test]
fn headers_carry_the_request_signature() {
    let headers = header_list("1750000000", "0a0b", "fp", &[0xfb, 0xff]);
    let pairs: Vec<(&str, &str)> = headers.iter().map(|h| (h.name, h.value.as_str())).collect();
    assert_eq!(
        pairs,
        [
            ("Signet-Timestamp", "1750000000"),
            ("Signet-Nonce", "0a0b"),
            ("Signet-Fingerprint", "fp"),
            ("Signet-Signature", "-_8"),
        ]
    );
    let nonce = fresh_nonce().unwrap();
    assert_eq!(nonce.len(), 32);
    assert!(nonce.chars().all(|c| c.is_ascii_hexdigit() && !c.is_ascii_uppercase()));
    assert_ne!(fresh_nonce().unwrap(), nonce, "each call must mint a fresh nonce");
}

#[test]
fn a_dual_signature_is_both_halves() {
    let both = combine_signatures([1; 64], vec![2; 4627]).unwrap();
    assert_eq!(both.len(), 4691, "hybrid identity must emit the 4691-byte dual");
    assert_eq!(both[63], 1);
    assert_eq!(both[64], 2);
    let e = combine_signatures([1; 64], vec![2; 3]).unwrap_err();
    assert_eq!(e.message, "keystore returned a 3-byte ML-DSA-87 signature (expected 4627)");
}

#[test]
fn transfer_knobs_parse_default_and_clamp() {
    let knobs = |text: &str| TransferKnobs::from_response(&parse(text).unwrap(), SNDBUF);
    let served = knobs(r#"{"part_retry_attempts": 7, "stall_timeout_seconds": 30}"#);
    assert_eq!(served.attempts, 7);
    assert_eq!(served.stall_timeout, Span::from_secs(30));

    let absent = knobs("{}");
    assert_eq!(absent.attempts, 10);
    assert_eq!(absent.stall_timeout, Span::from_secs(15));
    assert_eq!(absent.sndbuf_bytes, SNDBUF);

    let corrupt = knobs(r#"{"part_retry_attempts": 0, "stall_timeout_seconds": 100000}"#);
    assert_eq!(corrupt.attempts, 1, "attempts clamp to >=1");
    assert_eq!(corrupt.stall_timeout, Span::from_secs(300), "stall clamps to <=300s");
}

#[test]
fn knobs_reach_the_transport() {
    let knobs = TransferKnobs::defaults(SNDBUF);
    let bounds = knobs.transport_bounds();
    assert_eq!(bounds.write_gap, knobs.stall_timeout);
    assert_eq!(bounds.sndbuf_bytes, SNDBUF);
}

fn try_again(step: UploadStep) -> PartUpload {
    match step {
        UploadStep::Try(p) => p,
        UploadStep::Over(_) => panic!("expected another attempt"),
    }
}

fn uploaded(step: UploadStep) -> Result<String, CliError> {
    match step {
        UploadStep::Over(r) => r,
        UploadStep::Try(_) => panic!("expected the transfer to end"),
    }
}

fn answered(status: u16, etag: Option<&str>, body: &[u8]) -> TransferEvent {
    TransferEvent::Answered { status, etag: etag.map(str::to_string), body: body.to_vec() }
}

fn stalled() -> TransferEvent {
    TransferEvent::Failed(CliError::transfer_stalled("no progress"))
}

#[test]
fn put_presigned_aborts_stalls_and_recovers_on_a_fresh_connection() {
    let p = try_again(PartUpload::start(4, None));
    assert_eq!(p.attempt(), 1);
    let p = try_again(p.step("bucket", stalled()));
    assert_eq!(p.attempt(), 2);
    let p = try_again(p.step("bucket", stalled()));
    assert_eq!(p.attempt(), 3, "two stalled attempts and a healthy one");
    let etag = uploaded(p.step("bucket", answered(200, Some("\"stall-test-etag\""), b"")));
    assert_eq!(etag.unwrap(), "\"stall-test-etag\"");
}

#[test]
fn put_presigned_exhaustion_is_transfer_stalled_and_bounded() {
    let p = try_again(PartUpload::start(2, None));
    let p = try_again(p.step("bucket", stalled()));
    let error = uploaded(p.step("bucket", stalled())).expect_err("all attempts stall");
    assert_eq!(error.code, "transfer_stalled");
    assert_eq!(error.exit_code, 32);
    assert!(
        error.message.contains("re-run the same command to resume"),
        "the error must tell the caller resume exists: {}",
        error.message
    );
    assert!(error.message.contains("after 2 attempts"));
}

#[test]
fn only_a_stall_widens_the_ceiling() {
    let p = try_again(PartUpload::start(4, Some(Span::from_secs(40))));
    let p = try_again(p.step("bucket", answered(503, None, b"busy")));
    assert_eq!(p.ceiling(), Some(Span::from_secs(40)));
    assert!(p.retry_notice().contains("storage answered HTTP 503"));
    let p = try_again(p.step("bucket", TransferEvent::Failed(network("reset"))));
    assert_eq!(p.ceiling(), Some(Span::from_secs(40)));
    let p = try_again(p.step("bucket", stalled()));
    assert_eq!(p.ceiling(), Some(Span::from_secs(80)));
}

#[test]
fn an_upload_needs_an_etag_and_a_refusal_ends_it() {
    let start = || try_again(PartUpload::start(4, None));
    let e = uploaded(start().step("b", answered(204, None, b""))).unwrap_err();
    assert_eq!(e.message, "pre-signed PUT response is missing an ETag header");
    let e = uploaded(start().step("b", answered(403, None, &[b'n', b'o', 0xff]))).unwrap_err();
    assert_eq!(e.message, "pre-signed PUT to b returned HTTP 403: no\u{fffd}");
    let e = uploaded(start().step("b", answered(400, None, &[b'x'; 500]))).unwrap_err();
    assert_eq!(e.message, format!("pre-signed PUT to b returned HTTP 400: {}", "x".repeat(400)));
    let e = uploaded(PartUpload::start(0, None)).unwrap_err();
    assert_eq!(e.code, "transfer_stalled");
}

fn again(step: DownloadStep) -> RangeDownload {
    match step {
        DownloadStep::Try(d) => d,
        DownloadStep::Over(_) => panic!("expected another attempt"),
    }
}

fn downloaded(step: DownloadStep) -> Result<Vec<u8>, CliError> {
    match step {
        DownloadStep::Over(r) => r,
        DownloadStep::Try(_) => panic!("expected the transfer to end"),
    }
}

#[test]
fn a_download_is_tried_three_times() {
    assert_eq!(DOWNLOAD_ATTEMPTS, 3);
    let d = RangeDownload::start();
    assert_eq!(d.attempt(), 1);
    assert!(d.may_reuse());
    let d = again(d.step("b", answered(502, None, b"")));
    assert_eq!(d.attempt(), 2);
    assert!(!d.may_reuse());
    assert!(d.retry_notice().contains("storage answered HTTP 502"));
    let d = again(d.step("b", TransferEvent::Failed(network("reset"))));
    let e = downloaded(d.step("b", TransferEvent::Failed(network("gone")))).unwrap_err();
    assert_eq!(e.message, "pre-signed GET from storage failed after 3 attempts (gone)");
}

#[test]
fn a_download_ends_on_an_answer() {
    let d = RangeDownload::start();
    assert_eq!(downloaded(d.step("b", answered(206, None, b"data"))).unwrap(), b"data");
    let e = downloaded(RangeDownload::start().step("b", answered(403, None, b"old"))).unwrap_err();
    assert_eq!(e.code, "presigned_rejected");
    assert!(e.message.ends_with("old"));
    let e = downloaded(RangeDownload::start().step("b", answered(404, None, b"no"))).unwrap_err();
    assert_eq!(e.message, "pre-signed GET from b returned HTTP 404: no");
}

#[test]
fn the_second_attempt_is_immediate_and_later_ones_wait() {
    let zero = Span::from_secs(0);
    assert_eq!(transfer_wait(1, 7), zero);
    assert_eq!(transfer_wait(2, 7), zero);
    assert_eq!(transfer_wait(3, 1999), Span::from_millis(999));
    assert_eq!(transfer_wait(4, 1999), Span::from_millis(1999));
    assert_eq!(transfer_wait(9, 8001), Span::from_millis(1));
    let drawn = transfer_backoff(5).unwrap();
    assert!(drawn.less_than(&Span::from_secs(4)));
    assert_eq!(transfer_backoff(2), Some(zero));
}

/// Run a call over the answers to its attempts, and count them.
fn call(answers: Vec<ApiEvent>) -> (Option<Result<String, CliError>>, usize) {
    let mut attempt = 0;
    let mut runs = 0;
    for answer in answers {
        runs += 1;
        match api_step("https://h/p", attempt, answer) {
            ApiStep::Retry { attempt: next, .. } => attempt = next,
            ApiStep::Over(r) => return (Some(r), runs),
        }
    }
    (None, runs)
}

fn unavailable() -> ApiEvent {
    ApiEvent::Status { code: 503, body: "busy".to_string() }
}

#[test]
fn a_call_ends_within_four_attempts() {
    let lost = || ApiEvent::Transport("reset".to_string());
    let (r, runs) = call(vec![lost(), unavailable(), lost(), unavailable(), unavailable()]);
    assert_eq!(runs, 4);
    assert!(r.unwrap().is_err());
    let done = ApiEvent::Accepted(Ok(" verbatim\n".to_string()));
    let (r, runs) = call(vec![lost(), unavailable(), done]);
    assert_eq!(runs, 3);
    assert_eq!(r.unwrap().unwrap(), " verbatim\n");
    assert!(call(vec![lost(), lost(), lost()]).0.is_none());
}
