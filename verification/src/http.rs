//! The rules of the requests to the server and to object storage.
//!
//! - API requests: transient failures are retried with exponential backoff, a refusal that the
//!   server answered maps to its own error, and an outdated client is told so.
//! - Authenticated requests: the signature over a request is classical, or dual where the
//!   identity holds a post-quantum signing key.
//! - Pre-signed bucket transfers: every attempt runs on a fresh connection, within an attempt
//!   budget; a stalled upload widens the time its next attempt may take.

use vstd::arithmetic::power2::{lemma2_to64, lemma2_to64_rest, lemma_pow2_strictly_increases, pow2};
use vstd::bits::lemma_u64_shl_is_mul;
use vstd::prelude::*;
use vstd::utf8::encode_utf8;

use crate::clock::Span;
use crate::codec::{base64url_encode, base64url_text, hex_text};
use crate::error::{outcome, plain, seen, CliError, ErrorView};
use crate::json::{json_text, opt_str, parse, Json, JsonTree};
use crate::keystore::{Behaviour, KeyFacts, KeyLabel, KeyMeta, Keystore, Labelled, Purpose, ML_DSA_87_SIG_LEN};
use crate::random::{drawn, drawn_in_hex, in_hex, random_bytes};
use crate::text::{
    contains, copy_bytes, decimal, first_chars, from_utf8_lossy, head, holds, join2, join3, join4,
    join5, join6, lossy_text, same, to_decimal,
};

verus! {

/// How often an API request is retried.
pub const MAX_RETRIES: u32 = 3;

/// What is said when the server recommends an update.
pub const UPDATE_NUDGE: &'static str =
    "signet: a newer version is available; run 'signet update' to upgrade.";

/// The network failure.
pub open spec fn network_error(message: Seq<char>) -> ErrorView {
    ErrorView { exit_code: 31, code: "network_error"@, message }
}

/// A network failure.
pub fn network(message: &str) -> (e: CliError)
    ensures
        e@ == network_error(message@),
{
    CliError::new(31, "network_error", message)
}

/// The error of an API status that is not retried: a refusal the server answered is no network
/// failure.
pub open spec fn status_error(code: int, body: Seq<char>) -> ErrorView {
    if code == 401 {
        ErrorView::authentication_failed(
            "the server did not accept the request's authentication (HTTP 401): "@ + body,
        )
    } else if code == 403 {
        ErrorView::authorization_denied("the server refused the request (HTTP 403): "@ + body)
    } else if code == 404 {
        ErrorView::not_found(
            "the server reported the resource does not exist (HTTP 404): "@ + body,
        )
    } else if code == 409 {
        ErrorView::conflict(
            "the request conflicts with the current state (HTTP 409): "@ + body,
        )
    } else {
        network_error("server returned HTTP "@ + decimal(code as nat) + ": "@ + body)
    }
}

/// Map an API status that is not retried to its error.
pub fn api_status_error(code: u16, body: &str) -> (e: CliError)
    ensures
        e@ == status_error(code as int, body@),
{
    if code == 401 {
        CliError::authentication_failed(
            &join2(
                "the server did not accept the request's authentication (HTTP 401): ",
                body,
            ),
        )
    } else if code == 403 {
        CliError::authorization_denied(
            &join2("the server refused the request (HTTP 403): ", body),
        )
    } else if code == 404 {
        CliError::not_found(
            &join2("the server reported the resource does not exist (HTTP 404): ", body),
        )
    } else if code == 409 {
        CliError::conflict(
            &join2("the request conflicts with the current state (HTTP 409): ", body),
        )
    } else {
        network(&join4("server returned HTTP ", &to_decimal(code as u64), ": ", body))
    }
}

/// How one API request went.
pub enum ApiEvent {
    /// The server accepted it; its body, or why that could not be read.
    Accepted(Result<String, String>),
    /// The server answered an error status, with this body.
    Status { code: u16, body: String },
    /// The server could not be reached.
    Transport(String),
}

/// [`ApiEvent`], viewed.
pub enum ApiHappened {
    Accepted(Result<Seq<char>, Seq<char>>),
    Status { code: int, body: Seq<char> },
    Transport(Seq<char>),
}

impl View for ApiEvent {
    type V = ApiHappened;

    open spec fn view(&self) -> ApiHappened {
        match self {
            ApiEvent::Accepted(Ok(b)) => ApiHappened::Accepted(Ok(b@)),
            ApiEvent::Accepted(Err(e)) => ApiHappened::Accepted(Err(e@)),
            ApiEvent::Status { code, body } => ApiHappened::Status {
                code: *code as int,
                body: body@,
            },
            ApiEvent::Transport(t) => ApiHappened::Transport(t@),
        }
    }
}

/// Whether a failure may pass by itself: a server error, or no answer at all.
pub open spec fn transient(event: ApiHappened) -> bool {
    match event {
        ApiHappened::Accepted(_) => false,
        ApiHappened::Status { code, .. } => 500 <= code < 600,
        ApiHappened::Transport(_) => true,
    }
}

/// What a request comes to if it is not retried.
pub open spec fn settled(url: Seq<char>, event: ApiHappened) -> Result<Seq<char>, ErrorView> {
    match event {
        ApiHappened::Accepted(Ok(body)) => Ok(body),
        ApiHappened::Accepted(Err(e)) => Err(network_error("reading response body: "@ + e)),
        ApiHappened::Status { code, body } => if code == 400 {
            if holds(body, "cli_outdated"@) {
                Err(
                    ErrorView {
                        exit_code: 16,
                        code: "cli_outdated"@,
                        message:
                            "this CLI version is no longer accepted; run 'signet update' to upgrade"@,
                    },
                )
            } else {
                Err(ErrorView::invalid_data("server rejected the request: "@ + body))
            }
        } else {
            Err(status_error(code, body))
        },
        ApiHappened::Transport(t) => Err(
            network_error("request to "@ + url + " failed: "@ + t),
        ),
    }
}

/// How a request goes on: sent again after a wait, or over.
pub enum ApiStep {
    Retry { attempt: u32, wait: Span },
    Over(Result<String, CliError>),
}

/// How long to wait before retry `attempt`, the first being 1: 1 s, 2 s, 4 s and so on.
pub fn backoff(attempt: u32) -> (s: Span)
    requires
        1 <= attempt <= 64,
    ensures
        s.ns() == pow2((attempt - 1) as nat) * 1_000_000_000,
{
    proof {
        lemma2_to64();
        lemma2_to64_rest();
        if attempt < 64 {
            lemma_pow2_strictly_increases((attempt - 1) as nat, 63);
        }
        lemma_u64_shl_is_mul(1, (attempt - 1) as u64);
    }
    Span::from_secs(1u64 << ((attempt - 1) as u64))
}

/// Take in how a request went after `attempt` retries. Transient failures are retried
/// [`MAX_RETRIES`] times.
pub fn api_step(url: &str, attempt: u32, event: ApiEvent) -> (s: ApiStep)
    ensures
        transient(event@) && attempt < MAX_RETRIES ==> (s matches ApiStep::Retry {
            attempt: next,
            wait,
        } && next == attempt + 1 && wait.ns() == pow2(attempt as nat) * 1_000_000_000),
        !(transient(event@) && attempt < MAX_RETRIES) ==> (s matches ApiStep::Over(r) && outcome(r)
            == settled(url@, event@)),
{
    match event {
        ApiEvent::Accepted(Ok(body)) => ApiStep::Over(Ok(body)),
        ApiEvent::Accepted(Err(e)) => ApiStep::Over(
            Err(network(&join2("reading response body: ", &e))),
        ),
        ApiEvent::Status { code, body } => {
            if code == 400 {
                if contains(&body, "cli_outdated") {
                    return ApiStep::Over(
                        Err(
                            CliError::new(
                                16,
                                "cli_outdated",
                                "this CLI version is no longer accepted; run 'signet update' to upgrade",
                            ),
                        ),
                    );
                }
                return ApiStep::Over(
                    Err(CliError::invalid_data(&join2("server rejected the request: ", &body))),
                );
            }
            if 500 <= code && code < 600 && attempt < MAX_RETRIES {
                return ApiStep::Retry { attempt: attempt + 1, wait: backoff(attempt + 1) };
            }
            ApiStep::Over(Err(api_status_error(code, &body)))
        },
        ApiEvent::Transport(t) => {
            if attempt < MAX_RETRIES {
                return ApiStep::Retry { attempt: attempt + 1, wait: backoff(attempt + 1) };
            }
            ApiStep::Over(Err(network(&join4("request to ", url, " failed: ", &t))))
        },
    }
}

/// What the answers to a call's successive attempts come to, the first of them after `attempt`
/// retries; none where the call goes on.
pub open spec fn call_outcome(url: Seq<char>, answers: Seq<ApiHappened>, attempt: int) -> Option<
    Result<Seq<char>, ErrorView>,
>
    decreases answers.len(),
{
    if answers.len() == 0 {
        None
    } else if transient(answers[0]) && attempt < MAX_RETRIES {
        call_outcome(url, answers.skip(1), attempt + 1)
    } else {
        Some(settled(url, answers[0]))
    }
}

/// A call is over after four attempts at most, and it goes on only after transient failures.
pub proof fn calls_end(url: Seq<char>, answers: Seq<ApiHappened>, attempt: int)
    requires
        0 <= attempt <= MAX_RETRIES,
    ensures
        answers.len() > MAX_RETRIES - attempt ==> call_outcome(url, answers, attempt) is Some,
        call_outcome(url, answers, attempt) is None ==> forall|i: int|
            0 <= i < answers.len() ==> transient(#[trigger] answers[i]),
    decreases answers.len(),
{
    if answers.len() > 0 && transient(answers[0]) && attempt < MAX_RETRIES {
        calls_end(url, answers.skip(1), attempt + 1);
        if call_outcome(url, answers, attempt) is None {
            assert forall|i: int| 0 <= i < answers.len() implies transient(
                #[trigger] answers[i],
            ) by {
                if i > 0 {
                    assert(answers.skip(1)[i - 1] == answers[i]);
                }
            }
        }
    }
}

/// The first answer that is no transient failure, within the budget, is what the call comes to;
/// the text of an accepted one is returned as it is.
pub proof fn the_first_answer_counts(
    url: Seq<char>,
    answers: Seq<ApiHappened>,
    attempt: int,
    at: int,
)
    requires
        0 <= attempt,
        0 <= at < answers.len(),
        attempt + at <= MAX_RETRIES,
        forall|i: int| 0 <= i < at ==> transient(#[trigger] answers[i]),
        !transient(answers[at]),
    ensures
        call_outcome(url, answers, attempt) == Some(settled(url, answers[at])),
        answers[at] matches ApiHappened::Accepted(Ok(text)) ==> call_outcome(
            url,
            answers,
            attempt,
        ) == Some(Ok::<Seq<char>, ErrorView>(text)),
    decreases at,
{
    if at > 0 {
        let rest = answers.skip(1);
        assert forall|i: int| 0 <= i < at - 1 implies transient(#[trigger] rest[i]) by {
            assert(rest[i] == answers[i + 1]);
        }
        assert(transient(answers[0]));
        the_first_answer_counts(url, rest, attempt + 1, at - 1);
    }
}

/// What a request comes to that is sent once and never retried; a 400 is a status like any
/// other here.
pub fn once_reply(url: &str, event: ApiEvent) -> (r: Result<String, CliError>)
    ensures
        outcome(r) == match event@ {
            ApiHappened::Status { code, body } => Err(status_error(code, body)),
            other => settled(url@, other),
        },
{
    match event {
        ApiEvent::Accepted(Ok(body)) => Ok(body),
        ApiEvent::Accepted(Err(e)) => Err(network(&join2("reading response body: ", &e))),
        ApiEvent::Status { code, body } => Err(api_status_error(code, &body)),
        ApiEvent::Transport(t) => Err(network(&join4("request to ", url, " failed: ", &t))),
    }
}

/// Whether the server's header recommends an update.
pub fn update_recommended(header: Option<&str>) -> (r: bool)
    ensures
        r == (opt_str(header) == Some("true"@)),
{
    match header {
        Some(h) => same(h, "true"),
        None => false,
    }
}

/// What an answer that must be JSON comes to.
pub open spec fn json_answer(text: Seq<char>) -> Result<JsonTree, ErrorView> {
    match json_text(text) {
        Ok(v) => Ok(v),
        Err(e) => Err(ErrorView::invalid_data("server returned invalid JSON: "@ + e)),
    }
}

/// Read an answer that must be JSON.
pub fn json_reply(text: &str) -> (r: Result<Json, CliError>)
    ensures
        outcome(r) == json_answer(text@),
{
    match parse(text) {
        Ok(v) => Ok(v),
        Err(e) => Err(CliError::invalid_data(&join2("server returned invalid JSON: ", &e))),
    }
}

/// A refusal that the server answered is raised at once, as its own error and never as a
/// network failure.
pub proof fn refusals_are_precise(url: Seq<char>, code: int, body: Seq<char>)
    requires
        code == 400 || code == 401 || code == 403 || code == 404 || code == 409,
    ensures
        !transient(ApiHappened::Status { code, body }),
        settled(url, ApiHappened::Status { code, body }) is Err,
        settled(url, ApiHappened::Status { code, body })->Err_0.exit_code != 31,
{
}

/// Whether requests with a method are signed.
pub open spec fn method_signed(method: Seq<char>) -> bool {
    method == "GET"@ || method == "POST"@ || method == "PATCH"@ || method == "DELETE"@
}

/// The failure of a method that is not signed for.
pub open spec fn method_refused(method: Seq<char>) -> ErrorView {
    ErrorView::invalid_args("unsupported signed HTTP method '"@ + method + "'"@)
}

/// Refuse a method that is not signed for.
pub fn check_method(method: &str) -> (r: Result<(), CliError>)
    ensures
        plain(r) == if method_signed(method@) {
            Ok::<(), ErrorView>(())
        } else {
            Err(method_refused(method@))
        },
{
    if same(method, "GET") || same(method, "POST") || same(method, "PATCH") || same(
        method,
        "DELETE",
    ) {
        Ok(())
    } else {
        Err(CliError::invalid_args(&join3("unsupported signed HTTP method '", method, "'")))
    }
}

/// The ML-DSA context of a request signature.
pub const REQUEST_MLDSA_CTX: &'static str = "signet:req:v1";

/// The dual signature: the ES256 signature, then the ML-DSA-87 signature, which must have its
/// length.
pub open spec fn dual_signature(es: Seq<u8>, pq: Seq<u8>) -> Result<Seq<u8>, ErrorView> {
    if pq.len() != ML_DSA_87_SIG_LEN {
        Err(
            ErrorView::generic(
                "keystore returned a "@ + decimal(pq.len())
                    + "-byte ML-DSA-87 signature (expected 4627)"@,
            ),
        )
    } else {
        Ok(es + pq)
    }
}

/// Put the two halves of a dual signature together.
pub fn combine_signatures(es: [u8; 64], pq: Vec<u8>) -> (r: Result<Vec<u8>, CliError>)
    ensures
        outcome(r) == dual_signature(es@, pq@),
{
    if pq.len() != ML_DSA_87_SIG_LEN {
        return Err(
            CliError::generic(
                &join3(
                    "keystore returned a ",
                    &to_decimal(pq.len() as u64),
                    "-byte ML-DSA-87 signature (expected 4627)",
                ),
            ),
        );
    }
    let mut dual = copy_bytes(&es);
    let mut pq = pq;
    dual.append(&mut pq);
    Ok(dual)
}

/// Whether `r` is what signing `canonical` with the keystore comes to: it is asked whether the
/// identity holds a post-quantum signing key; the signing key signs in either case; where there
/// is such a key it signs the same bytes under the request context, and the signature is dual.
pub open spec fn signed_request<K: Keystore + ?Sized>(
    ks: &K,
    signing: Labelled,
    canonical: Seq<u8>,
    r: Result<Seq<u8>, ErrorView>,
) -> bool {
    exists|pq: &KeyLabel, has: Result<bool, CliError>|
        #![trigger call_ensures(K::has_key, (ks, pq), has)]
        pq@ == (Labelled { handle: signing.handle, purpose: Purpose::SigningPq }) && call_ensures(
            K::has_key,
            (ks, pq),
            has,
        ) && match has {
            Err(e) => r == Err::<Seq<u8>, ErrorView>(e@),
            Ok(held) => classical_then(ks, signing, canonical, pq@, held, r),
        }
}

/// [`signed_request`], once it is known whether there is a post-quantum signing key.
pub open spec fn classical_then<K: Keystore + ?Sized>(
    ks: &K,
    signing: Labelled,
    canonical: Seq<u8>,
    pq: Labelled,
    held: bool,
    r: Result<Seq<u8>, ErrorView>,
) -> bool {
    exists|l: &KeyLabel, m: &[u8], es: Result<[u8; 64], CliError>|
        #![trigger call_ensures(K::sign, (ks, l, m), es)]
        l@ == signing && m@ == canonical && call_ensures(K::sign, (ks, l, m), es) && match es {
            Err(e) => r == Err::<Seq<u8>, ErrorView>(e@),
            Ok(s) => if held {
                dual_with(ks, canonical, pq, s@, r)
            } else {
                r == Ok::<Seq<u8>, ErrorView>(s@)
            },
        }
}

/// [`signed_request`], once the signing key has signed and the post-quantum key is to sign too.
pub open spec fn dual_with<K: Keystore + ?Sized>(
    ks: &K,
    canonical: Seq<u8>,
    pq: Labelled,
    es: Seq<u8>,
    r: Result<Seq<u8>, ErrorView>,
) -> bool {
    exists|l: &KeyLabel, m: &[u8], c: &[u8], out: Result<Vec<u8>, CliError>|
        #![trigger call_ensures(K::ml_dsa_sign, (ks, l, m, c), out)]
        l@ == pq && m@ == canonical && c@ == encode_utf8(REQUEST_MLDSA_CTX@) && call_ensures(
            K::ml_dsa_sign,
            (ks, l, m, c),
            out,
        ) && match out {
            Err(e) => r == Err::<Seq<u8>, ErrorView>(e@),
            Ok(s) => r == dual_signature(es, s@),
        }
}

/// Sign the canonical bytes of a request.
pub fn request_signature<K: Keystore + ?Sized>(
    keystore: &K,
    signing: &KeyLabel,
    canonical: &[u8],
) -> (r: Result<Vec<u8>, CliError>)
    ensures
        signed_request(keystore, signing@, canonical@, outcome(r)),
{
    let pq_label = match KeyLabel::from_handle(signing.handle(), Purpose::SigningPq) {
        Ok(l) => l,
        Err(e) => return Err(e),
    };
    let has = keystore.has_key(&pq_label);
    assert(call_ensures(K::has_key, (keystore, &pq_label), has));
    let held = match has {
        Ok(b) => b,
        Err(e) => return Err(e),
    };
    let es = keystore.sign(signing, canonical);
    assert(call_ensures(K::sign, (keystore, signing, canonical), es));
    let sig_es = match es {
        Ok(s) => s,
        Err(e) => return Err(e),
    };
    if !held {
        return Ok(copy_bytes(&sig_es));
    }
    let ctx = REQUEST_MLDSA_CTX.as_bytes();
    let pq = keystore.ml_dsa_sign(&pq_label, canonical, ctx);
    assert(call_ensures(K::ml_dsa_sign, (keystore, &pq_label, canonical, ctx), pq));
    match pq {
        Ok(sig_pq) => combine_signatures(sig_es, sig_pq),
        Err(e) => Err(e),
    }
}

/// The post-quantum signing key of the identity that a key belongs to.
pub open spec fn pq_signing_key(signing: Labelled) -> Labelled {
    Labelled { handle: signing.handle, purpose: Purpose::SigningPq }
}

/// Whether `signature` vouches for `bytes`: its first 64 bytes are what the signing key makes of
/// them, and where the identity holds a post-quantum signing key, and only there, the other 4627
/// are what that key makes of the same bytes under the request context.
pub open spec fn vouched(
    b: Behaviour,
    signing: Labelled,
    bytes: Seq<u8>,
    signature: Seq<u8>,
) -> bool {
    &&& (b.signs)(signing, bytes, Ok(signature.take(64)))
    &&& {
        ||| signature.len() == 64 && (b.holds)(pq_signing_key(signing), Ok(false))
        ||| signature.len() == 64 + 4627 && (b.holds)(pq_signing_key(signing), Ok(true)) && (
        b.signs_pq)(
            pq_signing_key(signing),
            bytes,
            encode_utf8("signet:req:v1"@),
            Ok(signature.skip(64)),
        )
    }
}

/// A request signature covers the bytes that were passed in, in both of its halves. Where there
/// is none, the keystore failed so at one of the calls it takes, on these same bytes, or its
/// post-quantum signature had not the length of one.
pub proof fn a_request_signature_covers_the_canonical_bytes<K: Keystore + ?Sized>(
    ks: &K,
    b: Behaviour,
    signing: Labelled,
    canonical: Seq<u8>,
    r: Result<Seq<u8>, ErrorView>,
)
    requires
        b.is_of(ks),
        signed_request(ks, signing, canonical, r),
    ensures
        r matches Ok(signature) ==> vouched(b, signing, canonical, signature),
        r matches Err(e) ==> {
            let pq = pq_signing_key(signing);
            let ctx = encode_utf8("signet:req:v1"@);
            ||| (b.holds)(pq, Err(e))
            ||| (b.signs)(signing, canonical, Err(e))
            ||| (b.holds)(pq, Ok(true)) && (b.signs_pq)(pq, canonical, ctx, Err(e))
            ||| exists|s: Seq<u8>| #[trigger]
                (b.signs_pq)(pq, canonical, ctx, Ok(s)) && s.len() != 4627 && e.exit_code == 1
        },
{
    assert forall|es: Seq<u8>, pq: Seq<u8>| es.len() == 64 implies (#[trigger] (es + pq)).take(64)
        == es && (es + pq).skip(64) == pq by {
        assert((es + pq).take(64) =~= es);
        assert((es + pq).skip(64) =~= pq);
    }
    assert forall|es: Seq<u8>| es.len() == 64 implies #[trigger] es.take(64) == es by {
        assert(es.take(64) =~= es);
    }
}

/// Signing succeeds where the keystore does: its calls succeed, and its post-quantum signatures
/// have their length.
pub proof fn requests_are_signed_where_the_keystore_signs<K: Keystore + ?Sized>(
    ks: &K,
    b: Behaviour,
    signing: Labelled,
    canonical: Seq<u8>,
    r: Result<Seq<u8>, ErrorView>,
)
    requires
        b.is_of(ks),
        signed_request(ks, signing, canonical, r),
        forall|e: ErrorView| !#[trigger] (b.holds)(pq_signing_key(signing), Err(e)),
        forall|e: ErrorView| !#[trigger] (b.signs)(signing, canonical, Err(e)),
        forall|c: Seq<u8>, out: Result<Seq<u8>, ErrorView>| #[trigger]
            (b.signs_pq)(pq_signing_key(signing), canonical, c, out) ==> (out matches Ok(s)
                && s.len() == 4627),
    ensures
        r is Ok,
{
    a_request_signature_covers_the_canonical_bytes(ks, b, signing, canonical, r);
}

/// A fresh single-use nonce: sixteen random bytes in hexadecimal, or none where the operating
/// system has no randomness to give.
pub fn fresh_nonce() -> (r: Option<String>)
    ensures
        exists|b: Option<[u8; 16]>| #[trigger] drawn(b) && seen(r) == in_hex(seen(b)),
{
    drawn_in_hex(random_bytes::<16>())
}

/// A header: its name and its value.
pub struct Header {
    pub name: &'static str,
    pub value: String,
}

/// Headers, viewed.
pub open spec fn header_views(headers: Seq<Header>) -> Seq<(Seq<char>, Seq<char>)> {
    headers.map_values(|h: Header| (h.name@, h.value@))
}

/// The four authentication headers of a request, in order; the signature is in URL-safe base64.
pub open spec fn headers_of(
    timestamp: Seq<char>,
    nonce: Seq<char>,
    fingerprint: Seq<char>,
    signature: Seq<u8>,
) -> Seq<(Seq<char>, Seq<char>)> {
    seq![
        ("Signet-Timestamp"@, timestamp),
        ("Signet-Nonce"@, nonce),
        ("Signet-Fingerprint"@, fingerprint),
        ("Signet-Signature"@, base64url_text(signature)),
    ]
}

/// Write the four authentication headers of a request.
pub fn header_list(timestamp: &str, nonce: &str, fingerprint: &str, signature: &[u8]) -> (r: Vec<
    Header,
>)
    ensures
        header_views(r@) == headers_of(timestamp@, nonce@, fingerprint@, signature@),
{
    let mut r: Vec<Header> = Vec::new();
    r.push(Header { name: "Signet-Timestamp", value: timestamp.to_owned() });
    r.push(Header { name: "Signet-Nonce", value: nonce.to_owned() });
    r.push(Header { name: "Signet-Fingerprint", value: fingerprint.to_owned() });
    r.push(Header { name: "Signet-Signature", value: base64url_encode(signature) });
    assert(header_views(r@) =~= headers_of(timestamp@, nonce@, fingerprint@, signature@));
    r
}

/// What a request's signature is over: the canonical bytes are made of these six.
pub struct SigningInput {
    pub method: String,
    /// The path and query, as the server sees them.
    pub path: String,
    pub body: Vec<u8>,
    pub timestamp: String,
    pub nonce: String,
    pub fingerprint: String,
}

/// [`SigningInput`], viewed.
pub struct Signable {
    pub method: Seq<char>,
    pub path: Seq<char>,
    pub body: Seq<u8>,
    pub timestamp: Seq<char>,
    pub nonce: Seq<char>,
    pub fingerprint: Seq<char>,
}

impl View for SigningInput {
    type V = Signable;

    open spec fn view(&self) -> Signable {
        Signable {
            method: self.method@,
            path: self.path@,
            body: self.body@,
            timestamp: self.timestamp@,
            nonce: self.nonce@,
            fingerprint: self.fingerprint@,
        }
    }
}

/// Whether `r` is what signing a request comes to, `canonical` making the bytes that are signed:
/// the fingerprint is the signing key's, the nonce is freshly drawn, and the headers carry the
/// very timestamp, nonce and fingerprint that the signed bytes were made of.
pub open spec fn headers_made<
    K: Keystore + ?Sized,
    C: FnOnce(&SigningInput) -> Result<Vec<u8>, CliError>,
>(
    ks: &K,
    signing: Labelled,
    method: Seq<char>,
    path: Seq<char>,
    body: Seq<u8>,
    timestamp: Option<u64>,
    canonical: C,
    r: Result<Seq<(Seq<char>, Seq<char>)>, ErrorView>,
) -> bool {
    exists|l: &KeyLabel, m: Result<KeyMeta, CliError>| #[trigger]
        call_ensures(K::meta, (ks, l), m) && l@ == signing && match m {
            Err(e) => r == Err::<Seq<(Seq<char>, Seq<char>)>, ErrorView>(e@),
            Ok(meta) => match timestamp {
                None => r == Err::<Seq<(Seq<char>, Seq<char>)>, ErrorView>(
                    network_error("system clock is before the unix epoch"@),
                ),
                Some(t) => exists|b: Option<[u8; 16]>| #[trigger]
                    drawn(b) && match in_hex(seen(b)) {
                        None => r == Err::<Seq<(Seq<char>, Seq<char>)>, ErrorView>(
                            network_error("the operating system gave no randomness"@),
                        ),
                        Some(nonce) => signed_over(
                            ks,
                            signing,
                            Signable {
                                method,
                                path,
                                body,
                                timestamp: decimal(t as nat),
                                nonce,
                                fingerprint: meta.fingerprint@,
                            },
                            canonical,
                            r,
                        ),
                    },
            },
        }
}

/// [`headers_made`], once all that is signed is at hand.
pub open spec fn signed_over<
    K: Keystore + ?Sized,
    C: FnOnce(&SigningInput) -> Result<Vec<u8>, CliError>,
>(
    ks: &K,
    signing: Labelled,
    input: Signable,
    canonical: C,
    r: Result<Seq<(Seq<char>, Seq<char>)>, ErrorView>,
) -> bool {
    exists|i: &SigningInput, c: Result<Vec<u8>, CliError>| #[trigger]
        call_ensures(canonical, (i,), c) && i@ == input && match c {
            Err(e) => r == Err::<Seq<(Seq<char>, Seq<char>)>, ErrorView>(e@),
            Ok(bytes) => exists|s: Result<Seq<u8>, ErrorView>| #[trigger]
                signed_request(ks, signing, bytes@, s) && match s {
                    Err(e) => r == Err::<Seq<(Seq<char>, Seq<char>)>, ErrorView>(e),
                    Ok(signature) => r == Ok::<Seq<(Seq<char>, Seq<char>)>, ErrorView>(
                        headers_of(input.timestamp, input.nonce, input.fingerprint, signature),
                    ),
                },
        }
}

/// Headers that were made, or why not, viewed.
pub open spec fn made(r: Result<Vec<Header>, CliError>) -> Result<
    Seq<(Seq<char>, Seq<char>)>,
    ErrorView,
> {
    match r {
        Ok(h) => Ok(header_views(h@)),
        Err(e) => Err(e@),
    }
}

/// The authentication headers of one request. Each call draws a nonce and signs anew.
/// `timestamp` is absent on a clock that is set before the Unix epoch; `canonical` makes the
/// bytes that are signed.
pub fn auth_headers<
    K: Keystore + ?Sized,
    C: FnOnce(&SigningInput) -> Result<Vec<u8>, CliError>,
>(
    keystore: &K,
    signing: &KeyLabel,
    method: &str,
    path: &str,
    body: &[u8],
    timestamp: Option<u64>,
    canonical: C,
) -> (r: Result<Vec<Header>, CliError>)
    requires
        forall|i: &SigningInput| #[trigger] call_requires(canonical, (i,)),
    ensures
        headers_made(
            keystore,
            signing@,
            method@,
            path@,
            body@,
            timestamp,
            canonical,
            made(r),
        ),
{
    let meta = keystore.meta(signing);
    assert(call_ensures(K::meta, (keystore, signing), meta));
    let fingerprint = match meta {
        Ok(m) => m.fingerprint,
        Err(e) => return Err(e),
    };
    let timestamp = match timestamp {
        Some(t) => to_decimal(t),
        None => return Err(network("system clock is before the unix epoch")),
    };
    let nonce = match fresh_nonce() {
        Some(n) => n,
        None => return Err(network("the operating system gave no randomness")),
    };
    let input = SigningInput {
        method: method.to_owned(),
        path: path.to_owned(),
        body: copy_bytes(body),
        timestamp,
        nonce,
        fingerprint,
    };
    let made_of = canonical(&input);
    assert(call_ensures(canonical, (&input,), made_of));
    let bytes = match made_of {
        Ok(b) => b,
        Err(e) => return Err(e),
    };
    let signature = request_signature(keystore, signing, &bytes);
    assert(signed_request(keystore, signing@, bytes@, outcome(signature)));
    match signature {
        Ok(s) => Ok(header_list(&input.timestamp, &input.nonce, &input.fingerprint, &s)),
        Err(e) => Err(e),
    }
}

/// Whether the values of `headers` authenticate a request with this method, path and body: the
/// timestamp is `timestamp`, the nonce was drawn, the fingerprint is the signing key's own, and
/// the signature vouches for the bytes that are made of the method, the path and the body
/// together with the very timestamp, nonce and fingerprint that the headers show.
pub open spec fn authenticates(
    b: Behaviour,
    canon: spec_fn(Signable, Result<Seq<u8>, ErrorView>) -> bool,
    signing: Labelled,
    method: Seq<char>,
    path: Seq<char>,
    body: Seq<u8>,
    timestamp: nat,
    headers: Seq<(Seq<char>, Seq<char>)>,
) -> bool {
    &&& headers.len() == 4
    &&& headers[0] == ("Signet-Timestamp"@, decimal(timestamp))
    &&& headers[1].0 == "Signet-Nonce"@
    &&& exists|n: [u8; 16]| #[trigger] drawn(Some(n)) && headers[1].1 == hex_text(n@)
    &&& headers[2].0 == "Signet-Fingerprint"@
    &&& exists|k: KeyFacts| #[trigger]
        (b.describes)(signing, Ok(k)) && headers[2].1 == k.fingerprint
    &&& headers[3].0 == "Signet-Signature"@
    &&& exists|bytes: Seq<u8>, signature: Seq<u8>| #[trigger]
        vouched(b, signing, bytes, signature) && headers[3].1 == base64url_text(signature)
            && canon(
            Signable {
                method,
                path,
                body,
                timestamp: headers[0].1,
                nonce: headers[1].1,
                fingerprint: headers[2].1,
            },
            Ok(bytes),
        )
}

/// Authentication headers vouch for the very request they are made for.
pub proof fn headers_authenticate_their_request<
    K: Keystore + ?Sized,
    C: FnOnce(&SigningInput) -> Result<Vec<u8>, CliError>,
>(
    ks: &K,
    b: Behaviour,
    canonical: C,
    canon: spec_fn(Signable, Result<Seq<u8>, ErrorView>) -> bool,
    signing: Labelled,
    method: Seq<char>,
    path: Seq<char>,
    body: Seq<u8>,
    timestamp: Option<u64>,
    headers: Seq<(Seq<char>, Seq<char>)>,
)
    requires
        b.is_of(ks),
        forall|i: &SigningInput, out: Result<Vec<u8>, CliError>| #[trigger]
            call_ensures(canonical, (i,), out) ==> canon(i@, outcome(out)),
        headers_made(
            ks,
            signing,
            method,
            path,
            body,
            timestamp,
            canonical,
            Ok::<Seq<(Seq<char>, Seq<char>)>, ErrorView>(headers),
        ),
    ensures
        timestamp is Some,
        authenticates(b, canon, signing, method, path, body, timestamp->0 as nat, headers),
{
    assert forall|bytes: Seq<u8>, s: Result<Seq<u8>, ErrorView>| #[trigger]
        signed_request(ks, signing, bytes, s) implies (s matches Ok(signature) ==> vouched(
        b,
        signing,
        bytes,
        signature,
    )) by {
        a_request_signature_covers_the_canonical_bytes(ks, b, signing, bytes, s);
    }
}

/// A request is authenticated unless something it takes is missing: where the clock is set, the
/// keystore's calls succeed and the canonical bytes can be made, the headers fail only for want
/// of randomness.
pub proof fn requests_are_authenticated_where_they_can_be<
    K: Keystore + ?Sized,
    C: FnOnce(&SigningInput) -> Result<Vec<u8>, CliError>,
>(
    ks: &K,
    b: Behaviour,
    canonical: C,
    signing: Labelled,
    method: Seq<char>,
    path: Seq<char>,
    body: Seq<u8>,
    timestamp: Option<u64>,
    r: Result<Seq<(Seq<char>, Seq<char>)>, ErrorView>,
)
    requires
        b.is_of(ks),
        timestamp is Some,
        forall|i: &SigningInput, out: Result<Vec<u8>, CliError>| #[trigger]
            call_ensures(canonical, (i,), out) ==> out is Ok,
        forall|e: ErrorView| !#[trigger] (b.describes)(signing, Err(e)),
        forall|e: ErrorView| !#[trigger] (b.holds)(pq_signing_key(signing), Err(e)),
        forall|m: Seq<u8>, e: ErrorView| !#[trigger] (b.signs)(signing, m, Err(e)),
        forall|m: Seq<u8>, c: Seq<u8>, out: Result<Seq<u8>, ErrorView>| #[trigger]
            (b.signs_pq)(pq_signing_key(signing), m, c, out) ==> (out matches Ok(s) && s.len()
                == 4627),
        headers_made(ks, signing, method, path, body, timestamp, canonical, r),
    ensures
        r matches Err(e) ==> drawn(None::<[u8; 16]>) && e == network_error(
            "the operating system gave no randomness"@,
        ),
{
    assert forall|bytes: Seq<u8>, s: Result<Seq<u8>, ErrorView>| #[trigger]
        signed_request(ks, signing, bytes, s) implies s is Ok by {
        requests_are_signed_where_the_keystore_signs(ks, b, signing, bytes, s);
    }
}

/// A request that is ready to be sent.
pub struct Outgoing {
    pub method: String,
    pub url: String,
    pub headers: Vec<Header>,
    /// The body, which is JSON; none for a request without one.
    pub body: Option<Vec<u8>>,
}

/// [`Outgoing`], viewed.
pub struct Sendable {
    pub method: Seq<char>,
    pub url: Seq<char>,
    pub headers: Seq<(Seq<char>, Seq<char>)>,
    pub body: Option<Seq<u8>>,
}

impl View for Outgoing {
    type V = Sendable;

    open spec fn view(&self) -> Sendable {
        Sendable {
            method: self.method@,
            url: self.url@,
            headers: header_views(self.headers@),
            body: seen(self.body),
        }
    }
}

/// The bytes of a body; none are the empty body.
pub open spec fn body_bytes(body: Option<&[u8]>) -> Seq<u8> {
    match body {
        Some(b) => b@,
        None => Seq::empty(),
    }
}

/// Whether `r` is the request of one attempt of a signed call, or why there is none: what is sent
/// is what was signed, to the URL that the path completes.
pub open spec fn attempt_made<
    K: Keystore + ?Sized,
    C: FnOnce(&SigningInput) -> Result<Vec<u8>, CliError>,
>(
    ks: &K,
    signing: Labelled,
    method: Seq<char>,
    base_url: Seq<char>,
    path: Seq<char>,
    body: Option<&[u8]>,
    timestamp: Option<u64>,
    canonical: C,
    r: Result<Sendable, ErrorView>,
) -> bool {
    exists|h: Result<Seq<(Seq<char>, Seq<char>)>, ErrorView>| #[trigger]
        headers_made(ks, signing, method, path, body_bytes(body), timestamp, canonical, h)
            && match h {
            Err(e) => r == Err::<Sendable, ErrorView>(e),
            Ok(headers) => r == if method_signed(method) {
                Ok::<Sendable, ErrorView>(
                    Sendable {
                        method,
                        url: base_url + path,
                        headers,
                        body: match body {
                            Some(b) => Some(b@),
                            None => None,
                        },
                    },
                )
            } else {
                Err(method_refused(method))
            },
        }
}

/// The request of one attempt of a signed call. A retry makes its own, with its own timestamp,
/// nonce and signature.
pub fn signed_attempt<
    K: Keystore + ?Sized,
    C: FnOnce(&SigningInput) -> Result<Vec<u8>, CliError>,
>(
    keystore: &K,
    signing: &KeyLabel,
    method: &str,
    base_url: &str,
    path: &str,
    body: Option<&[u8]>,
    timestamp: Option<u64>,
    canonical: C,
) -> (r: Result<Outgoing, CliError>)
    requires
        forall|i: &SigningInput| #[trigger] call_requires(canonical, (i,)),
    ensures
        attempt_made(
            keystore,
            signing@,
            method@,
            base_url@,
            path@,
            body,
            timestamp,
            canonical,
            outcome(r),
        ),
{
    let sent: Option<Vec<u8>> = match body {
        Some(b) => Some(copy_bytes(b)),
        None => None,
    };
    let none: Vec<u8> = Vec::new();
    assert(none@ =~= Seq::empty());
    let signed = match body {
        Some(b) => b,
        None => none.as_slice(),
    };
    let headers = auth_headers(keystore, signing, method, path, signed, timestamp, canonical);
    assert(headers_made(
        keystore,
        signing@,
        method@,
        path@,
        body_bytes(body),
        timestamp,
        canonical,
        made(headers),
    ));
    let headers = match headers {
        Ok(h) => h,
        Err(e) => return Err(e),
    };
    match check_method(method) {
        Ok(()) => Ok(
            Outgoing {
                method: method.to_owned(),
                url: join2(base_url, path),
                headers,
                body: sent,
            },
        ),
        Err(e) => Err(e),
    }
}

/// What is sent is what was signed: a request goes out only with a method that is signed for, to
/// the base URL with the path behind it, with the body as it was passed in, and with headers that
/// authenticate this method, path and body. Any other method is refused.
pub proof fn what_is_sent_is_what_was_signed<
    K: Keystore + ?Sized,
    C: FnOnce(&SigningInput) -> Result<Vec<u8>, CliError>,
>(
    ks: &K,
    b: Behaviour,
    canonical: C,
    canon: spec_fn(Signable, Result<Seq<u8>, ErrorView>) -> bool,
    signing: Labelled,
    method: Seq<char>,
    base_url: Seq<char>,
    path: Seq<char>,
    body: Option<&[u8]>,
    timestamp: Option<u64>,
    r: Result<Sendable, ErrorView>,
)
    requires
        b.is_of(ks),
        forall|i: &SigningInput, out: Result<Vec<u8>, CliError>| #[trigger]
            call_ensures(canonical, (i,), out) ==> canon(i@, outcome(out)),
        attempt_made(ks, signing, method, base_url, path, body, timestamp, canonical, r),
    ensures
        r matches Ok(sent) ==> {
            &&& timestamp is Some
            &&& sent.method == method
            &&& method == "GET"@ || method == "POST"@ || method == "PATCH"@ || method == "DELETE"@
            &&& sent.url == base_url + path
            &&& sent.body is Some <==> body is Some
            &&& sent.body is Some ==> sent.body->0 == body->0@
            &&& authenticates(
                b,
                canon,
                signing,
                method,
                path,
                if sent.body is Some {
                    sent.body->0
                } else {
                    Seq::empty()
                },
                timestamp->0 as nat,
                sent.headers,
            )
        },
        !(method == "GET"@ || method == "POST"@ || method == "PATCH"@ || method == "DELETE"@)
            ==> r is Err,
{
    assert forall|h: Result<Seq<(Seq<char>, Seq<char>)>, ErrorView>| #[trigger]
        headers_made(
            ks,
            signing,
            method,
            path,
            body_bytes(body),
            timestamp,
            canonical,
            h,
        ) implies (h matches Ok(headers) ==> timestamp is Some && authenticates(
        b,
        canon,
        signing,
        method,
        path,
        body_bytes(body),
        timestamp->0 as nat,
        headers,
    )) by {
        if h is Ok {
            headers_authenticate_their_request(
                ks,
                b,
                canonical,
                canon,
                signing,
                method,
                path,
                body_bytes(body),
                timestamp,
                h->Ok_0,
            );
        }
    }
}

/// A signed request with one of the four methods fails only as its headers do.
pub proof fn a_signed_method_is_sent<
    K: Keystore + ?Sized,
    C: FnOnce(&SigningInput) -> Result<Vec<u8>, CliError>,
>(
    ks: &K,
    canonical: C,
    signing: Labelled,
    method: Seq<char>,
    base_url: Seq<char>,
    path: Seq<char>,
    body: Option<&[u8]>,
    timestamp: Option<u64>,
    e: ErrorView,
)
    requires
        method == "GET"@ || method == "POST"@ || method == "PATCH"@ || method == "DELETE"@,
        attempt_made(
            ks,
            signing,
            method,
            base_url,
            path,
            body,
            timestamp,
            canonical,
            Err::<Sendable, ErrorView>(e),
        ),
    ensures
        headers_made(
            ks,
            signing,
            method,
            path,
            match body {
                Some(b) => b@,
                None => Seq::<u8>::empty(),
            },
            timestamp,
            canonical,
            Err::<Seq<(Seq<char>, Seq<char>)>, ErrorView>(e),
        ),
{
}

/// The attempt budget of a download.
pub const DOWNLOAD_ATTEMPTS: u32 = 3;

/// The settings of bucket transfers; the server may tune them.
#[derive(Debug, Clone, Copy)]
pub struct TransferKnobs {
    /// The attempt budget of a part.
    pub attempts: u32,
    /// How long a transfer may make no progress.
    pub stall_timeout: Span,
    /// The cap on the send buffer.
    pub sndbuf_bytes: usize,
}

/// What the bucket transport is told of the settings.
#[derive(Debug, Clone, Copy)]
pub struct TransportBounds {
    /// How long a transfer may make no write progress.
    pub write_gap: Span,
    /// The cap on the send buffer.
    pub sndbuf_bytes: usize,
}

/// `v` held between two bounds.
pub open spec fn clamped(v: int, low: int, high: int) -> int {
    if v < low {
        low
    } else if v > high {
        high
    } else {
        v
    }
}

fn clamp(v: i64, low: i64, high: i64) -> (r: i64)
    requires
        low <= high,
    ensures
        r == clamped(v as int, low as int, high as int),
        low <= r <= high,
{
    if v < low {
        low
    } else if v > high {
        high
    } else {
        v
    }
}

/// The send-buffer cap in a response's `governor` object.
pub open spec fn served_sndbuf(response: JsonTree) -> Option<int> {
    match response.field("governor"@) {
        Some(g) => g.integer_field("sndbuf_bytes"@),
        None => None,
    }
}

impl TransferKnobs {
    /// The settings where the server serves none; the transport has its own default for the
    /// send buffer.
    pub fn defaults(sndbuf_bytes: usize) -> (k: TransferKnobs)
        ensures
            k.attempts == 10,
            k.stall_timeout.ns() == 15_000_000_000,
            k.sndbuf_bytes == sndbuf_bytes,
    {
        TransferKnobs { attempts: 10, stall_timeout: Span::from_secs(15), sndbuf_bytes }
    }

    /// The settings that a response serves: each defaults where it is absent, and is clamped, so
    /// that no value can disable the stall detection or retry without end.
    pub fn from_response(value: &Json, default_sndbuf: usize) -> (k: TransferKnobs)
        ensures
            k.attempts == match value@.integer_field("part_retry_attempts"@) {
                Some(v) => clamped(v, 1, 100),
                None => 10,
            },
            k.stall_timeout.ns() == match value@.integer_field("stall_timeout_seconds"@) {
                Some(v) => clamped(v, 5, 300) * 1_000_000_000,
                None => 15_000_000_000,
            },
            k.sndbuf_bytes == match served_sndbuf(value@) {
                Some(v) => clamped(v, 262_144, 8_388_608),
                None => default_sndbuf as int,
            },
    {
        let d = TransferKnobs::defaults(default_sndbuf);
        let attempts: u32 = match value.get_i64("part_retry_attempts") {
            Some(v) => clamp(v, 1, 100) as u32,
            None => d.attempts,
        };
        let stall_timeout = match value.get_i64("stall_timeout_seconds") {
            Some(v) => Span::from_secs(clamp(v, 5, 300) as u64),
            None => d.stall_timeout,
        };
        let sndbuf_bytes: usize = match value.get("governor") {
            Some(g) => match g.get_i64("sndbuf_bytes") {
                Some(v) => clamp(v, 262_144, 8_388_608) as usize,
                None => d.sndbuf_bytes,
            },
            None => d.sndbuf_bytes,
        };
        TransferKnobs { attempts, stall_timeout, sndbuf_bytes }
    }

    /// What the bucket transport is told: the stall timeout is the gap without write progress.
    pub fn transport_bounds(&self) -> (b: TransportBounds)
        ensures
            b.write_gap == self.stall_timeout,
            b.sndbuf_bytes == self.sndbuf_bytes,
    {
        TransportBounds { write_gap: self.stall_timeout, sndbuf_bytes: self.sndbuf_bytes }
    }
}

/// The ceiling of the wait before an attempt, in milliseconds: none before the second, then 1 s,
/// 2 s, 4 s and 8 s.
pub open spec fn backoff_cap_ms(attempt: int) -> nat {
    if attempt <= 2 {
        0
    } else if attempt == 3 {
        1000
    } else if attempt == 4 {
        2000
    } else if attempt == 5 {
        4000
    } else {
        8000
    }
}

/// The wait before an attempt, in nanoseconds, with `random` spread below the ceiling.
pub open spec fn jittered_ns(attempt: int, random: int) -> int {
    if attempt <= 2 {
        0
    } else {
        (random % backoff_cap_ms(attempt) as int) * 1_000_000
    }
}

/// How long to wait before attempt `attempt` of a transfer, given a random number: the first
/// retry is immediate, later ones spread over a growing ceiling.
pub fn transfer_wait(attempt: u32, random: u64) -> (s: Span)
    ensures
        s.ns() == jittered_ns(attempt as int, random as int),
{
    if attempt <= 2 {
        return Span::from_secs(0);
    }
    let cap_ms: u64 = if attempt == 3 {
        1000
    } else if attempt == 4 {
        2000
    } else if attempt == 5 {
        4000
    } else {
        8000
    };
    Span::from_millis(random % cap_ms)
}

/// How long to wait before attempt `attempt` of a transfer; none where a wait is due and the
/// operating system has no randomness to give.
pub fn transfer_backoff(attempt: u32) -> (r: Option<Span>)
    ensures
        attempt <= 2 ==> (r matches Some(s) && s.ns() == 0),
        attempt > 2 ==> exists|b: Option<[u8; 8]>| #[trigger]
            drawn(b) && match b {
                Some(x) => r matches Some(s) && s.ns() == jittered_ns(
                    attempt as int,
                    vstd::bytes::spec_u64_from_le_bytes(x@) as int,
                ),
                None => r is None,
            },
{
    if attempt <= 2 {
        return Some(transfer_wait(attempt, 0));
    }
    match random_bytes::<8>() {
        Some(b) => {
            let random: u64 = vstd::bytes::u64_from_le_bytes(&b);
            Some(transfer_wait(attempt, random))
        },
        None => None,
    }
}

/// A day, in nanoseconds: the cap on a relaxed ceiling.
pub open spec fn day_ns() -> nat {
    86_400_000_000_000
}

/// A ceiling after a stall: doubled, up to a day.
pub open spec fn relaxed_ns(ns: nat) -> nat {
    if 2 * ns <= day_ns() {
        2 * ns
    } else {
        day_ns()
    }
}

/// Widen the ceiling of a transfer after a stall.
pub fn relax_ceiling(c: Span) -> (r: Span)
    ensures
        r.ns() == relaxed_ns(c.ns()),
{
    let half_day = Span::from_secs(43_200);
    if half_day.less_than(&c) {
        Span::from_secs(86_400)
    } else {
        c.plus(&c)
    }
}

/// Each stall widens the ceiling until it is a day, where it stays.
pub proof fn stalls_widen_the_ceiling(ns: nat)
    ensures
        0 < ns < day_ns() ==> relaxed_ns(ns) > ns,
        relaxed_ns(ns) <= day_ns(),
        relaxed_ns(day_ns()) == day_ns(),
{
}

/// How one attempt of a bucket transfer went.
pub enum TransferEvent {
    /// The storage answered.
    Answered { status: u16, etag: Option<String>, body: Vec<u8> },
    /// The attempt failed without an answer.
    Failed(CliError),
}

/// [`TransferEvent`], viewed.
pub enum TransferHappened {
    Answered { status: int, etag: Option<Seq<char>>, body: Seq<u8> },
    Failed(ErrorView),
}

impl View for TransferEvent {
    type V = TransferHappened;

    open spec fn view(&self) -> TransferHappened {
        match self {
            TransferEvent::Answered { status, etag, body } => TransferHappened::Answered {
                status: *status as int,
                etag: seen(*etag),
                body: body@,
            },
            TransferEvent::Failed(e) => TransferHappened::Failed(e@),
        }
    }
}

/// What is quoted of an answer's body.
pub open spec fn quoted_detail(body: Seq<u8>) -> Seq<char> {
    head(lossy_text(body), 400)
}

fn detail_of(body: &[u8]) -> (s: String)
    ensures
        s@ == quoted_detail(body@),
{
    first_chars(&from_utf8_lossy(body), 400)
}

/// The note of a server error of the storage.
pub open spec fn storage_error(status: int) -> Seq<char> {
    "storage answered HTTP "@ + decimal(status as nat)
}

/// The upload of a part, about to make its attempt `attempt`.
pub struct PartUpload {
    attempts: u32,
    attempt: u32,
    ceiling: Option<Span>,
    last_error: String,
}

/// [`PartUpload`], viewed; the ceiling is in nanoseconds.
pub struct Upload {
    pub attempts: int,
    pub attempt: int,
    pub ceiling: Option<nat>,
    pub last_error: Seq<char>,
}

/// A ceiling in nanoseconds.
pub open spec fn ceiling_ns(c: Option<Span>) -> Option<nat> {
    match c {
        Some(s) => Some(s.ns()),
        None => None,
    }
}

impl View for PartUpload {
    type V = Upload;

    closed spec fn view(&self) -> Upload {
        Upload {
            attempts: self.attempts as int,
            attempt: self.attempt as int,
            ceiling: ceiling_ns(self.ceiling),
            last_error: self.last_error@,
        }
    }
}

/// An upload makes another attempt, or it is over: with the storage's ETag, or a failure.
pub enum UploadStep {
    Try(PartUpload),
    Over(Result<String, CliError>),
}

/// [`UploadStep`], viewed.
pub enum UploadNext {
    Try(Upload),
    Over(Result<Seq<char>, ErrorView>),
}

impl View for UploadStep {
    type V = UploadNext;

    open spec fn view(&self) -> UploadNext {
        match self {
            UploadStep::Try(u) => UploadNext::Try(u@),
            UploadStep::Over(r) => UploadNext::Over(outcome(*r)),
        }
    }
}

/// The failure of an upload whose attempts are spent; it can be resumed.
pub open spec fn upload_exhausted(attempts: int, last_error: Seq<char>) -> ErrorView {
    ErrorView::transfer_stalled(
        "part transfer failed after "@ + decimal(attempts as nat)
            + " attempts on fresh connections ("@ + last_error
            + "): a bad network window between this host and object storage; the upload is preserved: re-run the same command to resume"@,
    )
}

impl Upload {
    /// An upload with a budget of attempts, before its first.
    pub open spec fn start(attempts: int, ceiling: Option<nat>) -> UploadNext {
        Upload { attempts, attempt: 0, ceiling, last_error: Seq::empty() }.next(
            ceiling,
            Seq::empty(),
        )
    }

    /// The next attempt, if there is one left, else the end.
    pub open spec fn next(self, ceiling: Option<nat>, last_error: Seq<char>) -> UploadNext {
        if self.attempt < self.attempts {
            UploadNext::Try(
                Upload {
                    attempts: self.attempts,
                    attempt: self.attempt + 1,
                    ceiling,
                    last_error,
                },
            )
        } else {
            UploadNext::Over(Err(upload_exhausted(self.attempts, last_error)))
        }
    }

    /// What an attempt leads to; `place` is where the part goes, fit to be shown.
    pub open spec fn stepped(self, place: Seq<char>, event: TransferHappened) -> UploadNext {
        match event {
            TransferHappened::Answered { status, etag, body } => if status == 200 || status
                == 204 {
                UploadNext::Over(
                    match etag {
                        Some(t) => Ok(t),
                        None => Err(
                            network_error("pre-signed PUT response is missing an ETag header"@),
                        ),
                    },
                )
            } else if 500 <= status < 600 {
                self.next(self.ceiling, storage_error(status))
            } else {
                UploadNext::Over(
                    Err(
                        network_error(
                            "pre-signed PUT to "@ + place + " returned HTTP "@ + decimal(
                                status as nat,
                            ) + ": "@ + quoted_detail(body),
                        ),
                    ),
                )
            },
            TransferHappened::Failed(e) => self.next(
                if e.code == "transfer_stalled"@ {
                    match self.ceiling {
                        Some(c) => Some(relaxed_ns(c)),
                        None => None,
                    }
                } else {
                    self.ceiling
                },
                e.message,
            ),
        }
    }
}

impl PartUpload {
    /// Start the upload of a part with a budget of attempts and, where there is one, a ceiling on
    /// the time of the first.
    pub fn start(attempts: u32, ceiling: Option<Span>) -> (s: UploadStep)
        ensures
            s@ == Upload::start(attempts as int, ceiling_ns(ceiling)),
    {
        let u = PartUpload { attempts, attempt: 0, ceiling, last_error: String::new() };
        assert(u.last_error@ =~= Seq::empty());
        u.proceed(ceiling, String::new())
    }

    fn proceed(self, ceiling: Option<Span>, last_error: String) -> (s: UploadStep)
        ensures
            s@ == self@.next(ceiling_ns(ceiling), last_error@),
    {
        if self.attempt < self.attempts {
            UploadStep::Try(
                PartUpload {
                    attempts: self.attempts,
                    attempt: self.attempt + 1,
                    ceiling,
                    last_error,
                },
            )
        } else {
            UploadStep::Over(
                Err(
                    CliError::transfer_stalled(
                        &join5(
                            "part transfer failed after ",
                            &to_decimal(self.attempts as u64),
                            " attempts on fresh connections (",
                            &last_error,
                            "): a bad network window between this host and object storage; the upload is preserved: re-run the same command to resume",
                        ),
                    ),
                ),
            )
        }
    }

    /// The attempt to make now; the first is 1.
    pub fn attempt(&self) -> (n: u32)
        ensures
            n == self@.attempt,
    {
        self.attempt
    }

    /// The ceiling on the time of the attempt to make now.
    pub fn ceiling(&self) -> (c: Option<Span>)
        ensures
            ceiling_ns(c) == self@.ceiling,
    {
        self.ceiling
    }

    /// What is said before an attempt that is a retry.
    pub fn retry_notice(&self) -> (s: String)
        ensures
            s@ == "signet: storage transfer attempt "@ + decimal(self@.attempt as nat) + "/"@
                + decimal(self@.attempts as nat) + " ("@ + self@.last_error
                + "): retrying on a fresh connection"@,
    {
        let mut s = join5(
            "signet: storage transfer attempt ",
            &to_decimal(self.attempt as u64),
            "/",
            &to_decimal(self.attempts as u64),
            " (",
        );
        s.append(&self.last_error);
        s.append("): retrying on a fresh connection");
        s
    }

    /// Take in how an attempt went. A stall widens the ceiling of the next attempt; a server
    /// error of the storage does not. Any other answer is final.
    pub fn step(self, place: &str, event: TransferEvent) -> (s: UploadStep)
        ensures
            s@ == self@.stepped(place@, event@),
    {
        match event {
            TransferEvent::Answered { status, etag, body } => {
                if status == 200 || status == 204 {
                    return match etag {
                        Some(t) => UploadStep::Over(Ok(t)),
                        None => UploadStep::Over(
                            Err(network("pre-signed PUT response is missing an ETag header")),
                        ),
                    };
                }
                if 500 <= status && status < 600 {
                    let ceiling = self.ceiling;
                    return self.proceed(
                        ceiling,
                        join2("storage answered HTTP ", &to_decimal(status as u64)),
                    );
                }
                UploadStep::Over(
                    Err(
                        network(
                            &join6(
                                "pre-signed PUT to ",
                                place,
                                " returned HTTP ",
                                &to_decimal(status as u64),
                                ": ",
                                &detail_of(&body),
                            ),
                        ),
                    ),
                )
            },
            TransferEvent::Failed(e) => {
                let mut ceiling = self.ceiling;
                if same(e.code, "transfer_stalled") {
                    ceiling = match ceiling {
                        Some(c) => Some(relax_ceiling(c)),
                        None => None,
                    };
                }
                self.proceed(ceiling, e.message)
            },
        }
    }
}

/// An upload makes no more attempts than its budget has, and only a stall widens its ceiling.
pub proof fn uploads_keep_to_their_budget(u: Upload, place: Seq<char>, event: TransferHappened)
    ensures
        u.stepped(place, event) matches UploadNext::Try(n) ==> n.attempt == u.attempt + 1
            && n.attempt <= u.attempts && n.attempts == u.attempts,
        u.stepped(place, event) matches UploadNext::Try(n) ==> (n.ceiling != u.ceiling ==> (
        event matches TransferHappened::Failed(e) && e.code == "transfer_stalled"@)),
{
}

/// An upload whose last attempt failed for the moment ends as a stalled transfer, which can be
/// resumed, never as a network failure.
pub proof fn a_spent_budget_can_be_resumed(u: Upload, place: Seq<char>, event: TransferHappened)
    requires
        u.attempt >= u.attempts,
        event is Failed || 500 <= event->status < 600,
    ensures
        u.stepped(place, event) matches UploadNext::Over(Err(e)) && e.exit_code == 32 && e.code
            == "transfer_stalled"@,
{
}

/// The download of a range, about to make its attempt `attempt`.
pub struct RangeDownload {
    attempt: u32,
    last_error: String,
}

/// [`RangeDownload`], viewed.
pub struct Download {
    pub attempt: int,
    pub last_error: Seq<char>,
}

impl View for RangeDownload {
    type V = Download;

    closed spec fn view(&self) -> Download {
        Download { attempt: self.attempt as int, last_error: self.last_error@ }
    }
}

/// A download makes another attempt, or it is over.
pub enum DownloadStep {
    Try(RangeDownload),
    Over(Result<Vec<u8>, CliError>),
}

/// [`DownloadStep`], viewed.
pub enum DownloadNext {
    Try(Download),
    Over(Result<Seq<u8>, ErrorView>),
}

impl View for DownloadStep {
    type V = DownloadNext;

    open spec fn view(&self) -> DownloadNext {
        match self {
            DownloadStep::Try(d) => DownloadNext::Try(d@),
            DownloadStep::Over(r) => DownloadNext::Over(outcome(*r)),
        }
    }
}

impl Download {
    /// A download about to make its first attempt.
    pub open spec fn start() -> Download {
        Download { attempt: 1, last_error: Seq::empty() }
    }

    /// The next attempt, if there is one left, else the end.
    pub open spec fn next(self, last_error: Seq<char>) -> DownloadNext {
        if self.attempt < DOWNLOAD_ATTEMPTS {
            DownloadNext::Try(Download { attempt: self.attempt + 1, last_error })
        } else {
            DownloadNext::Over(
                Err(
                    network_error(
                        "pre-signed GET from storage failed after 3 attempts ("@ + last_error
                            + ")"@,
                    ),
                ),
            )
        }
    }

    /// What an attempt leads to; `place` is where the range comes from, fit to be shown.
    pub open spec fn stepped(self, place: Seq<char>, event: TransferHappened) -> DownloadNext {
        match event {
            TransferHappened::Answered { status, body, .. } => if status == 200 || status == 206 {
                DownloadNext::Over(Ok(body))
            } else if 500 <= status < 600 {
                self.next(storage_error(status))
            } else if status == 403 {
                DownloadNext::Over(
                    Err(
                        ErrorView {
                            exit_code: 31,
                            code: "presigned_rejected"@,
                            message:
                                "storage rejected the pre-signed URL (HTTP 403; likely expired): "@
                                + quoted_detail(body),
                        },
                    ),
                )
            } else {
                DownloadNext::Over(
                    Err(
                        network_error(
                            "pre-signed GET from "@ + place + " returned HTTP "@ + decimal(
                                status as nat,
                            ) + ": "@ + quoted_detail(body),
                        ),
                    ),
                )
            },
            TransferHappened::Failed(e) => self.next(e.message),
        }
    }
}

impl RangeDownload {
    /// Start the download of a range.
    pub fn start() -> (d: RangeDownload)
        ensures
            d@ == Download::start(),
    {
        let d = RangeDownload { attempt: 1, last_error: String::new() };
        assert(d.last_error@ =~= Seq::empty());
        d
    }

    /// The attempt to make now; the first is 1.
    pub fn attempt(&self) -> (n: u32)
        ensures
            n == self@.attempt,
    {
        self.attempt
    }

    /// Whether the attempt to make now may reuse a pooled connection: only the first may.
    pub fn may_reuse(&self) -> (r: bool)
        ensures
            r == (self@.attempt == 1),
    {
        self.attempt == 1
    }

    /// What is said before an attempt that is a retry.
    pub fn retry_notice(&self) -> (s: String)
        ensures
            s@ == "signet: storage download attempt "@ + decimal(self@.attempt as nat) + "/3 ("@
                + self@.last_error + "): retrying on a fresh connection"@,
    {
        join5(
            "signet: storage download attempt ",
            &to_decimal(self.attempt as u64),
            "/3 (",
            &self.last_error,
            "): retrying on a fresh connection",
        )
    }

    fn proceed(self, last_error: String) -> (s: DownloadStep)
        ensures
            s@ == self@.next(last_error@),
    {
        if self.attempt < DOWNLOAD_ATTEMPTS {
            DownloadStep::Try(RangeDownload { attempt: self.attempt + 1, last_error })
        } else {
            DownloadStep::Over(
                Err(
                    network(
                        &join3(
                            "pre-signed GET from storage failed after 3 attempts (",
                            &last_error,
                            ")",
                        ),
                    ),
                ),
            )
        }
    }

    /// Take in how an attempt went. A rejected URL is told apart from a network failure, and no
    /// further attempt is spent on it: only a fresh URL helps.
    pub fn step(self, place: &str, event: TransferEvent) -> (s: DownloadStep)
        ensures
            s@ == self@.stepped(place@, event@),
    {
        match event {
            TransferEvent::Answered { status, etag: _, body } => {
                if status == 200 || status == 206 {
                    return DownloadStep::Over(Ok(body));
                }
                if 500 <= status && status < 600 {
                    return self.proceed(
                        join2("storage answered HTTP ", &to_decimal(status as u64)),
                    );
                }
                if status == 403 {
                    return DownloadStep::Over(
                        Err(
                            CliError::new(
                                31,
                                "presigned_rejected",
                                &join2(
                                    "storage rejected the pre-signed URL (HTTP 403; likely expired): ",
                                    &detail_of(&body),
                                ),
                            ),
                        ),
                    );
                }
                DownloadStep::Over(
                    Err(
                        network(
                            &join6(
                                "pre-signed GET from ",
                                place,
                                " returned HTTP ",
                                &to_decimal(status as u64),
                                ": ",
                                &detail_of(&body),
                            ),
                        ),
                    ),
                )
            },
            TransferEvent::Failed(e) => self.proceed(e.message),
        }
    }
}

/// A download makes at most three attempts, and none after its URL was rejected.
pub proof fn downloads_keep_to_their_budget(
    d: Download,
    place: Seq<char>,
    event: TransferHappened,
)
    ensures
        Download::start().attempt == 1,
        d.stepped(place, event) matches DownloadNext::Try(n) ==> n.attempt == d.attempt + 1
            && n.attempt <= DOWNLOAD_ATTEMPTS,
        event matches TransferHappened::Answered { status, .. } && status == 403 ==> d.stepped(
            place,
            event,
        ) is Over,
{
}

/// Each refusal that the server answers has an exit code of its own: a request it rejects, and a
/// client it no longer accepts, an authentication or a permission it refuses, a resource it does
/// not have, a conflict. Only an accepted request is a success, with its body as it is.
pub proof fn each_refusal_has_its_own_exit_code(url: Seq<char>, event: ApiHappened)
    ensures
        match settled(url, event) {
            Ok(text) => event == ApiHappened::Accepted(Ok::<Seq<char>, Seq<char>>(text)),
            Err(e) => match event {
                ApiHappened::Accepted(a) => a is Err && e.exit_code == 31,
                ApiHappened::Transport(_) => e.exit_code == 31,
                ApiHappened::Status { code, body } => e.exit_code == if code == 400 {
                    if holds(body, "cli_outdated"@) {
                        16
                    } else {
                        24
                    }
                } else if code == 401 {
                    10
                } else if code == 403 {
                    17
                } else if code == 404 {
                    26
                } else if code == 409 {
                    27
                } else {
                    31int
                },
            },
        },
{
}

/// A request is sent again exactly where its failure may pass by itself and three retries are not
/// spent, after one, two and four seconds; else it is over.
pub proof fn a_transient_failure_is_retried_three_times(
    url: &str,
    attempt: u32,
    event: ApiEvent,
    step: ApiStep,
)
    requires
        call_ensures(api_step, (url, attempt, event), step),
    ensures
        ({
            let passes = event@ is Transport || (event@ matches ApiHappened::Status { code, .. }
                && 500 <= code <= 599);
            &&& step is Retry <==> passes && attempt < 3
            &&& step matches ApiStep::Retry { attempt: next, wait } ==> next == attempt + 1 && (
            attempt == 0 ==> wait.ns() == 1_000_000_000) && (attempt == 1 ==> wait.ns()
                == 2_000_000_000) && (attempt == 2 ==> wait.ns() == 4_000_000_000)
            &&& step matches ApiStep::Over(r) ==> outcome(r) == settled(url@, event@)
        }),
{
    lemma2_to64();
}

/// An upload is over where the storage took the part, with the ETag that it gave, and where it
/// refused it; a server error of the storage and a failure without an answer cost an attempt
/// each, and end the upload only with the last. A stall doubles the ceiling of the next attempt,
/// up to a day.
pub proof fn an_upload_goes_on_while_it_may_succeed(
    u: Upload,
    place: Seq<char>,
    event: TransferHappened,
)
    ensures
        ({
            let next = u.stepped(place, event);
            let again = event is Failed || 500 <= event->status <= 599;
            &&& next matches UploadNext::Over(Ok(tag)) ==> (event matches
                TransferHappened::Answered { status, etag, .. } && (status == 200 || status == 204)
                && etag == Some(tag))
            &&& event matches TransferHappened::Answered { status, etag: Some(tag), .. } ==> (
            status == 200 || status == 204 ==> next == UploadNext::Over(
                Ok::<Seq<char>, ErrorView>(tag),
            ))
            &&& next is Try <==> again && u.attempt < u.attempts
            &&& event matches TransferHappened::Failed(e) ==> (next matches UploadNext::Try(n)
                ==> n.last_error == e.message && n.ceiling == if e.code == "transfer_stalled"@
                && u.ceiling is Some {
                Some(
                    if 2 * u.ceiling->0 <= 86_400_000_000_000 {
                        2 * u.ceiling->0
                    } else {
                        86_400_000_000_000nat
                    },
                )
            } else {
                u.ceiling
            })
        }),
        forall|attempts: int, ceiling: Option<nat>| #[trigger]
            Upload::start(attempts, ceiling) matches UploadNext::Try(first) ==> first.attempt == 1
                && first.attempts == attempts && first.ceiling == ceiling,
        forall|attempts: int, ceiling: Option<nat>|
            attempts > 0 ==> #[trigger] Upload::start(attempts, ceiling) is Try,
{
}

/// A download is over where the storage answered: with the body where it served it, and with a
/// failure of its own where it rejected the URL. A server error of the storage and a failure
/// without an answer cost one of three attempts.
pub proof fn a_download_goes_on_while_it_may_succeed(
    d: Download,
    place: Seq<char>,
    event: TransferHappened,
)
    ensures
        ({
            let next = d.stepped(place, event);
            let again = event is Failed || 500 <= event->status <= 599;
            &&& next matches DownloadNext::Over(Ok(bytes)) ==> (event matches
                TransferHappened::Answered { status, body, .. } && (status == 200 || status == 206)
                && body == bytes)
            &&& event matches TransferHappened::Answered { status, body, .. } ==> (status == 200
                || status == 206 ==> next == DownloadNext::Over(Ok::<Seq<u8>, ErrorView>(body)))
            &&& event matches TransferHappened::Answered { status, .. } ==> (status == 403 ==> (
            next matches DownloadNext::Over(Err(e)) && e.code == "presigned_rejected"@))
            &&& next is Try <==> again && d.attempt < 3
        }),
{
}

/// A served setting takes effect as it is where it is within its bounds, and as the nearest bound
/// where it is not; an absent one has its default.
pub proof fn served_settings_are_kept_within_bounds(
    value: &Json,
    default_sndbuf: usize,
    k: TransferKnobs,
)
    requires
        call_ensures(TransferKnobs::from_response, (value, default_sndbuf), k),
    ensures
        1 <= k.attempts <= 100,
        5_000_000_000 <= k.stall_timeout.ns() <= 300_000_000_000,
        match value@.integer_field("part_retry_attempts"@) {
            None => k.attempts == 10,
            Some(v) => (1 <= v <= 100 ==> k.attempts == v) && (v < 1 ==> k.attempts == 1) && (v
                > 100 ==> k.attempts == 100),
        },
        match value@.integer_field("stall_timeout_seconds"@) {
            None => k.stall_timeout.ns() == 15_000_000_000,
            Some(v) => 5 <= v <= 300 ==> k.stall_timeout.ns() == v * 1_000_000_000,
        },
        value@.field("governor"@) is None ==> k.sndbuf_bytes == default_sndbuf,
        value@.field("governor"@) matches Some(g) ==> match g.integer_field("sndbuf_bytes"@) {
            None => k.sndbuf_bytes == default_sndbuf,
            Some(v) => 262_144 <= k.sndbuf_bytes <= 8_388_608 && (262_144 <= v <= 8_388_608
                ==> k.sndbuf_bytes == v),
        },
{
}

/// The first retry of a transfer is immediate; the waits before the later ones are spread below a
/// ceiling that starts at a second and doubles up to eight, and every whole millisecond below it
/// may come of the random number.
pub proof fn waits_are_spread_below_a_doubling_ceiling(attempt: int, random: int)
    requires
        random >= 0,
    ensures
        attempt <= 2 ==> jittered_ns(attempt, random) == 0,
        attempt > 2 ==> 0 <= jittered_ns(attempt, random) < backoff_cap_ms(attempt) * 1_000_000,
        attempt > 2 && random < backoff_cap_ms(attempt) ==> jittered_ns(attempt, random) == random
            * 1_000_000,
        backoff_cap_ms(3) == 1000,
        attempt >= 3 ==> backoff_cap_ms(attempt + 1) == if 2 * backoff_cap_ms(attempt) <= 8000 {
            2 * backoff_cap_ms(attempt)
        } else {
            8000
        },
{
    if attempt > 2 {
        let cap = backoff_cap_ms(attempt) as int;
        vstd::arithmetic::div_mod::lemma_mod_bound(random, cap);
        if random < cap {
            vstd::arithmetic::div_mod::lemma_small_mod(random as nat, cap as nat);
        }
    }
}

/// A request that is sent once succeeds with the body that was accepted, and only so; whatever
/// status it is refused with is final.
pub proof fn a_single_request_is_not_retried(
    url: &str,
    event: ApiEvent,
    r: Result<String, CliError>,
)
    requires
        call_ensures(once_reply, (url, event), r),
    ensures
        match r {
            Ok(text) => event@ == ApiHappened::Accepted(Ok::<Seq<char>, Seq<char>>(text@)),
            Err(e) => match event@ {
                ApiHappened::Accepted(a) => a is Err && e@.exit_code == 31,
                ApiHappened::Transport(_) => e@.exit_code == 31,
                ApiHappened::Status { code, .. } => e@.exit_code == if code == 401 {
                    10
                } else if code == 403 {
                    17
                } else if code == 404 {
                    26
                } else if code == 409 {
                    27
                } else {
                    31int
                },
            },
        },
{
}

/// A download whose three attempts are spent is a network failure, and an upload whose attempts
/// are spent a stalled transfer.
pub proof fn spent_attempts_end_a_transfer(
    u: Upload,
    d: Download,
    place: Seq<char>,
    event: TransferHappened,
)
    requires
        event is Failed || 500 <= event->status <= 599,
    ensures
        d.attempt >= 3 ==> (d.stepped(place, event) matches DownloadNext::Over(Err(e))
            && e.exit_code == 31),
        u.attempt >= u.attempts ==> (u.stepped(place, event) matches UploadNext::Over(Err(e))
            && e.exit_code == 32),
{
}

/// An answer is read as the JSON that it is, and refused exactly where it is none.
pub proof fn an_answer_is_read_as_json(text: Seq<char>)
    ensures
        match json_answer(text) {
            Ok(tree) => json_text(text) == Ok::<JsonTree, Seq<char>>(tree),
            Err(e) => json_text(text) is Err && e.exit_code == 24,
        },
{
}

/// Only the first attempt of a download may run on a connection that was used before, and an
/// update is recommended only by the header that says so.
pub proof fn a_retry_runs_on_a_fresh_connection(
    d: &RangeDownload,
    reuse: bool,
    header: Option<&str>,
    recommended: bool,
)
    requires
        call_ensures(RangeDownload::may_reuse, (d,), reuse),
        call_ensures(update_recommended, (header,), recommended),
    ensures
        reuse <==> d@.attempt == 1,
        recommended <==> (header matches Some(h) && h@ == "true"@),
{
}

/// What is quoted of a body is how its text begins: all of it where it is short, and no more than
/// four hundred characters of it.
pub proof fn a_quoted_body_is_kept_short(body: Seq<u8>)
    ensures
        quoted_detail(body).is_prefix_of(lossy_text(body)),
        lossy_text(body).len() <= 400 ==> quoted_detail(body) == lossy_text(body),
        lossy_text(body).len() > 400 ==> quoted_detail(body).len() == 400,
{
}

} // verus!
