//! The agent's use of the broker-mediated path: pickup, token and certificate renewal, and the
//! Secure-Enclave operations through the broker.

use vstd::prelude::*;
use vstd::utf8::encode_utf8;

use crate::codec::{base64_encode, base64_text, base64url_encode, base64url_text};
use crate::error::{outcome, seen, CliError, ErrorView};
use crate::garnet_credential::{Credential, PoPCredential};
use crate::garnet_pickup::decoded;
use crate::json::{json_quoted, json_text, opt_str, parse, text_object, write_text_object};
use crate::keystore::broker::{recovery, Recovery};
use crate::keystore::client::{show, shown};
use crate::keystore::{
    credential_file, handle_checked, label_parsed, labels_read_back, KeyLabel, Labelled, Purpose,
};
use crate::text::{
    all_of_the_trailing_character_goes, bytes_of, decimal, join2, join3, join4, join5, same,
    to_decimal, trim_end_matches, without_trailing,
};
use crate::wire::{OkView, Op, OpErr, OpOk, OpView, Reply, Response};

verus! {

/// How many seconds a renewal request may take.
pub const RENEW_TIMEOUT_SECS: u64 = 10;

/// The default home of a handle's credential: `<config_dir>/garnet/<handle>.json`.
pub fn default_credential_path(config_dir: &str, handle: &str) -> (r: String)
    ensures
        r@ == credential_file(config_dir@, handle@),
{
    join4(config_dir, "/garnet/", handle, ".json")
}

/// Handles that live on one machine have credential files of their own.
pub proof fn credential_files_are_per_handle(config_dir: Seq<char>, a: Seq<char>, b: Seq<char>)
    requires
        a != b,
    ensures
        credential_file(config_dir, a) != credential_file(config_dir, b),
{
    let fa = credential_file(config_dir, a);
    let fb = credential_file(config_dir, b);
    let n = (config_dir + "/garnet/"@).len() as int;
    let m = ".json"@.len() as int;
    if fa == fb {
        assert(a =~= fa.subrange(n, fa.len() - m));
        assert(b =~= fb.subrange(n, fb.len() - m));
    }
}

/// Which credential file a command works on: the one it was given, else the default of the
/// asserted handle.
pub open spec fn credential_resolved(
    credential: Option<Seq<char>>,
    handle: Option<Seq<char>>,
    config_dir: Seq<char>,
) -> Result<Seq<char>, ErrorView> {
    match (credential, handle) {
        (Some(p), _) => Ok(p),
        (None, Some(h)) => Ok(credential_file(config_dir, h)),
        (None, None) => Err(
            ErrorView::invalid_args(
                "no --credential path and SIGNET_HANDLE is unset. Pass --credential <path>, or set SIGNET_HANDLE so I know which PRSN's credential to renew."@,
            ),
        ),
    }
}

/// Resolve which credential file a command works on.
pub fn resolve_credential_path(
    credential: Option<&str>,
    handle: Option<&str>,
    config_dir: &str,
) -> (r: Result<String, CliError>)
    ensures
        outcome(r) == credential_resolved(opt_str(credential), opt_str(handle), config_dir@),
{
    match credential {
        Some(p) => Ok(p.to_owned()),
        None => match handle {
            Some(h) => Ok(default_credential_path(config_dir, h)),
            None => Err(
                CliError::invalid_args(
                    "no --credential path and SIGNET_HANDLE is unset. Pass --credential <path>, or set SIGNET_HANDLE so I know which PRSN's credential to renew.",
                ),
            ),
        },
    }
}

/// Whether `now` is at or past the midpoint of a validity window; an empty or reversed window
/// has its midpoint at its start.
pub open spec fn half_passed(not_before: int, not_after: int, now: int) -> bool {
    let width = if not_after > not_before {
        not_after - not_before
    } else {
        0
    };
    now >= not_before + width / 2
}

/// Whether a certificate with this validity window is due for renewal.
pub fn past_half_validity(not_before: u64, not_after: u64, now: u64) -> (r: bool)
    ensures
        r == half_passed(not_before as int, not_after as int, now as int),
{
    if not_after > not_before {
        now >= not_before + (not_after - not_before) / 2
    } else {
        now >= not_before
    }
}

/// Whether to renew the certificate before an operation: where its validity window can be read
/// and half of it has passed.
pub fn auto_renew_due(window: Option<(u64, u64)>, now: u64) -> (r: bool)
    ensures
        r == match window {
            Some((not_before, not_after)) => half_passed(
                not_before as int,
                not_after as int,
                now as int,
            ),
            None => false,
        },
{
    match window {
        Some((not_before, not_after)) => past_half_validity(not_before, not_after, now),
        None => false,
    }
}

/// The wire name of an audience.
pub open spec fn audience_wire(audience: Seq<char>) -> Option<Seq<char>> {
    if audience == "server"@ {
        Some("signet-server"@)
    } else if audience == "broker"@ {
        Some("signet-broker"@)
    } else {
        None
    }
}

/// Map the friendly name of an audience to its wire name.
pub fn audience_to_wire(audience: &str) -> (r: Option<&'static str>)
    ensures
        opt_str(r) == audience_wire(audience@),
{
    if same(audience, "server") {
        Some("signet-server")
    } else if same(audience, "broker") {
        Some("signet-broker")
    } else {
        None
    }
}

/// The wire name of the audience that was asked for, or the refusal of an unknown one.
pub fn requested_audience(audience: &str) -> (r: Result<&'static str, CliError>)
    ensures
        match r {
            Ok(w) => audience_wire(audience@) == Some(w@),
            Err(e) => audience_wire(audience@) is None && e@ == ErrorView::invalid_args(
                "--audience must be 'server' or 'broker' (got '"@ + audience@ + "')"@,
            ),
        },
{
    match audience_to_wire(audience) {
        Some(w) => Ok(w),
        None => Err(
            CliError::invalid_args(
                &join3("--audience must be 'server' or 'broker' (got '", audience, "')"),
            ),
        ),
    }
}

/// Keep a freshly minted token of an audience.
pub fn store_token(cred: &mut PoPCredential, audience: &str, token: &str)
    requires
        audience_wire(audience@) is Some,
    ensures
        final(cred)@ == if audience@ == "server"@ {
            Credential { server_token: token@, ..old(cred)@ }
        } else {
            Credential { broker_token: Some(token@), ..old(cred)@ }
        },
{
    if same(audience, "server") {
        cred.set_server_token(token);
    } else {
        cred.set_broker_token(token);
    }
}

/// How a refused token request is classified.
#[derive(Debug, Clone, Copy, PartialEq, Eq, Structural)]
pub enum TokenReject {
    /// The server itself refused the authorization: a fresh grant may await.
    AuthorizationRefused,
    /// Anything else, which never triggers a recovery.
    Other,
}

/// Classify a refused token request: only a 403 in the server's own error shape counts as a
/// refused authorization. The status rules out the server's internal errors, which have that
/// shape too; the shape rules out a 403 that a proxy made up.
pub fn reject_kind(status: u16, body_is_our_error_shape: bool) -> (r: TokenReject)
    ensures
        r == if status == 403 && body_is_our_error_shape {
            TokenReject::AuthorizationRefused
        } else {
            TokenReject::Other
        },
{
    if status == 403 && body_is_our_error_shape {
        TokenReject::AuthorizationRefused
    } else {
        TokenReject::Other
    }
}

/// How a request over the mutual-TLS channel went.
pub enum Exchange {
    /// The server accepted it; its body, or why that could not be read.
    Accepted(Result<String, String>),
    /// The server refused it with a status; its body, where that could be read.
    Refused { status: u16, body: Option<String> },
    /// The server could not be reached.
    Unreachable(String),
}

/// [`Exchange`], viewed.
pub enum Exchanged {
    Accepted(Result<Seq<char>, Seq<char>>),
    Refused { status: int, body: Option<Seq<char>> },
    Unreachable(Seq<char>),
}

impl View for Exchange {
    type V = Exchanged;

    open spec fn view(&self) -> Exchanged {
        match self {
            Exchange::Accepted(Ok(b)) => Exchanged::Accepted(Ok(b@)),
            Exchange::Accepted(Err(e)) => Exchanged::Accepted(Err(e@)),
            Exchange::Refused { status, body } => Exchanged::Refused {
                status: *status as int,
                body: seen(*body),
            },
            Exchange::Unreachable(t) => Exchanged::Unreachable(t@),
        }
    }
}

/// The reason in a refusal that has the server's own error shape.
pub open spec fn stated_reason(body: Option<Seq<char>>) -> Option<Seq<char>> {
    match body {
        None => None,
        Some(b) => match json_text(b) {
            Ok(v) => v.text_field("error"@),
            Err(_) => None,
        },
    }
}

fn read_reason(body: &Option<String>) -> (r: Option<String>)
    ensures
        seen(r) == stated_reason(seen(*body)),
{
    match body {
        None => None,
        Some(b) => match parse(b) {
            Ok(v) => match v.get_str("error") {
                Some(s) => Some(s.to_owned()),
                None => None,
            },
            Err(_) => None,
        },
    }
}

/// The failure of an endpoint that could not be reached or read.
pub open spec fn endpoint_unreachable(message: Seq<char>) -> ErrorView {
    ErrorView { exit_code: 69, code: "token_endpoint_unreachable"@, message }
}

/// What a refused token request comes to.
pub open spec fn token_refused(status: int, reason: Option<Seq<char>>) -> ErrorView {
    if status == 403 && reason is Some {
        ErrorView {
            exit_code: 77,
            code: "token_denied"@,
            message: "the server refused the token ("@ + decimal(status as nat) + "): "@
                + reason->0,
        }
    } else {
        ErrorView {
            exit_code: 77,
            code: "token_request_failed"@,
            message: "the token request failed ("@ + decimal(status as nat) + "): "@ + (
            match reason {
                Some(r) => r,
                None => "token request rejected"@,
            }),
        }
    }
}

/// What a token request comes to.
pub open spec fn token_granted(url: Seq<char>, exchange: Exchanged) -> Result<
    Seq<char>,
    ErrorView,
> {
    match exchange {
        Exchanged::Accepted(Err(e)) => Err(
            endpoint_unreachable("reading the token response: "@ + e),
        ),
        Exchanged::Accepted(Ok(body)) => match json_text(body) {
            Err(e) => Err(ErrorView::invalid_data("malformed token response: "@ + e)),
            Ok(v) => match v.text_field("access_token"@) {
                Some(t) => Ok(t),
                None => Err(ErrorView::invalid_data("token response missing 'access_token'"@)),
            },
        },
        Exchanged::Refused { status, body } => Err(token_refused(status, stated_reason(body))),
        Exchanged::Unreachable(t) => Err(
            endpoint_unreachable("could not reach the token endpoint at "@ + url + ": "@ + t),
        ),
    }
}

/// Where tokens are asked for.
pub fn token_url(base_url: &str) -> (r: String)
    ensures
        r@ == without_trailing(base_url@, '/') + "/v1/garnet/token"@,
{
    join2(trim_end_matches(base_url, '/'), "/v1/garnet/token")
}

/// The body of a token request.
pub fn token_request_body(audience_wire: &str) -> (r: Vec<u8>)
    ensures
        r@ == encode_utf8(text_object("audience"@, audience_wire@)),
{
    bytes_of(&write_text_object("audience", audience_wire))
}

/// Read the answer to a token request that was posted to `url`.
pub fn token_reply(url: &str, exchange: Exchange) -> (r: Result<String, CliError>)
    ensures
        outcome(r) == token_granted(url@, exchange@),
{
    match exchange {
        Exchange::Accepted(Err(e)) => Err(
            CliError::new(
                69,
                "token_endpoint_unreachable",
                &join2("reading the token response: ", &e),
            ),
        ),
        Exchange::Accepted(Ok(body)) => match parse(&body) {
            Err(e) => Err(CliError::invalid_data(&join2("malformed token response: ", &e))),
            Ok(v) => match v.get_str("access_token") {
                Some(t) => Ok(t.to_owned()),
                None => Err(CliError::invalid_data("token response missing 'access_token'")),
            },
        },
        Exchange::Refused { status, body } => {
            let reason = read_reason(&body);
            match reject_kind(status, reason.is_some()) {
                TokenReject::AuthorizationRefused => {
                    let reason = match reason {
                        Some(r) => r,
                        None => "authorization refused".to_owned(),
                    };
                    Err(
                        CliError::new(
                            77,
                            "token_denied",
                            &join4(
                                "the server refused the token (",
                                &to_decimal(status as u64),
                                "): ",
                                &reason,
                            ),
                        ),
                    )
                },
                TokenReject::Other => {
                    let reason = match reason {
                        Some(r) => r,
                        None => "token request rejected".to_owned(),
                    };
                    Err(
                        CliError::new(
                            77,
                            "token_request_failed",
                            &join4(
                                "the token request failed (",
                                &to_decimal(status as u64),
                                "): ",
                                &reason,
                            ),
                        ),
                    )
                },
            }
        },
        Exchange::Unreachable(t) => Err(
            CliError::new(
                69,
                "token_endpoint_unreachable",
                &join4("could not reach the token endpoint at ", url, ": ", &t),
            ),
        ),
    }
}

/// Of all the ways a token request can fail, only the server's own refusal of the
/// authorization makes the broker keystore try a recovery; a server blip, a proxy's answer or
/// an unreachable endpoint never does.
pub proof fn only_a_refused_authorization_recovers(
    url: Seq<char>,
    exchange: Exchanged,
    attempted: bool,
)
    requires
        token_granted(url, exchange) is Err,
    ensures
        recovery(token_granted(url, exchange)->Err_0.code, attempted) != Recovery::Definitive ==> (
        exchange is Refused && exchange->status == 403 && stated_reason(exchange->body) is Some),
{
    reveal_strlit("token_denied");
    reveal_strlit("token_request_failed");
    reveal_strlit("token_endpoint_unreachable");
    reveal_strlit("invalid_data");
    reveal_strlit("broker_pin_mismatch");
    reveal_strlit("access_paused");
    assert("token_denied"@.len() == 12 && "token_denied"@[0] == 't');
    assert("invalid_data"@.len() == 12 && "invalid_data"@[0] == 'i');
    assert("token_request_failed"@.len() == 20);
    assert("token_endpoint_unreachable"@.len() == 26);
    assert("broker_pin_mismatch"@.len() == 19);
    assert("access_paused"@.len() == 13);
}

/// What a certificate-renewal request comes to: the PEM of the new certificate.
pub open spec fn renewal_granted(url: Seq<char>, exchange: Exchanged) -> Result<
    Seq<char>,
    ErrorView,
> {
    match exchange {
        Exchanged::Accepted(Err(e)) => Err(
            endpoint_unreachable("reading the cert-renewal response: "@ + e),
        ),
        Exchanged::Accepted(Ok(body)) => match json_text(body) {
            Err(e) => Err(ErrorView::invalid_data("malformed cert-renewal response: "@ + e)),
            Ok(v) => match v.text_field("client_cert"@) {
                Some(t) => Ok(t),
                None => Err(
                    ErrorView::invalid_data("cert-renewal response missing 'client_cert'"@),
                ),
            },
        },
        Exchanged::Refused { status, body } => Err(
            ErrorView {
                exit_code: 77,
                code: "cert_renewal_denied"@,
                message: "the server refused the cert renewal ("@ + decimal(status as nat)
                    + "): "@ + (match stated_reason(body) {
                    Some(r) => r,
                    None => "cert renewal rejected"@,
                }),
            },
        ),
        Exchanged::Unreachable(t) => Err(
            endpoint_unreachable(
                "could not reach the cert-renewal endpoint at "@ + url + ": "@ + t,
            ),
        ),
    }
}

/// Where certificates are renewed.
pub fn cert_renewal_url(base_url: &str) -> (r: String)
    ensures
        r@ == without_trailing(base_url@, '/') + "/v1/garnet/renew-cert"@,
{
    join2(trim_end_matches(base_url, '/'), "/v1/garnet/renew-cert")
}

/// The body of a certificate-renewal request: the certificate request, in standard base64.
pub fn cert_renewal_body(csr_der: &[u8]) -> (r: Vec<u8>)
    ensures
        r@ == encode_utf8(text_object("csr"@, base64_text(csr_der@))),
{
    bytes_of(&write_text_object("csr", &base64_encode(csr_der)))
}

/// Read the answer to a certificate-renewal request that was posted to `url`.
pub fn cert_renewal_reply(url: &str, exchange: Exchange) -> (r: Result<String, CliError>)
    ensures
        outcome(r) == renewal_granted(url@, exchange@),
{
    match exchange {
        Exchange::Accepted(Err(e)) => Err(
            CliError::new(
                69,
                "token_endpoint_unreachable",
                &join2("reading the cert-renewal response: ", &e),
            ),
        ),
        Exchange::Accepted(Ok(body)) => match parse(&body) {
            Err(e) => Err(
                CliError::invalid_data(&join2("malformed cert-renewal response: ", &e)),
            ),
            Ok(v) => match v.get_str("client_cert") {
                Some(t) => Ok(t.to_owned()),
                None => Err(
                    CliError::invalid_data("cert-renewal response missing 'client_cert'"),
                ),
            },
        },
        Exchange::Refused { status, body } => {
            let reason = match read_reason(&body) {
                Some(r) => r,
                None => "cert renewal rejected".to_owned(),
            };
            Err(
                CliError::new(
                    77,
                    "cert_renewal_denied",
                    &join4(
                        "the server refused the cert renewal (",
                        &to_decimal(status as u64),
                        "): ",
                        &reason,
                    ),
                ),
            )
        },
        Exchange::Unreachable(t) => Err(
            CliError::new(
                69,
                "token_endpoint_unreachable",
                &join4("could not reach the cert-renewal endpoint at ", url, ": ", &t),
            ),
        ),
    }
}

/// The renewed certificate in DER, or why its PEM is malformed.
pub fn renewed_cert(der: Result<Vec<u8>, String>) -> (r: Result<Vec<u8>, CliError>)
    ensures
        outcome(r) == match decoded(der) {
            Ok(b) => Ok::<Seq<u8>, ErrorView>(b),
            Err(e) => Err(
                ErrorView::invalid_data("cert-renewal returned a malformed cert: "@ + e),
            ),
        },
{
    match der {
        Ok(b) => Ok(b),
        Err(e) => Err(
            CliError::invalid_data(&join2("cert-renewal returned a malformed cert: ", &e)),
        ),
    }
}

/// Where a certificate renewal stands: what it waits for.
#[derive(Debug, Clone, Copy, PartialEq, Eq, Structural)]
pub enum RenewStage {
    /// The new certificate.
    Certificate,
    /// The credential with the new certificate to be saved.
    Rotated,
    /// A server token bound to the new certificate.
    ServerToken,
    /// A broker token bound to the new certificate.
    BrokerToken,
    /// The credential with the new tokens to be saved.
    Tokens,
}

/// A certificate renewal in flight, with the credential as it stands.
pub struct CertRenewal {
    cred: PoPCredential,
    had_broker: bool,
    stage: RenewStage,
}

/// [`CertRenewal`], viewed.
pub struct Renewal {
    pub cred: Credential,
    pub had_broker: bool,
    pub stage: RenewStage,
}

impl View for CertRenewal {
    type V = Renewal;

    closed spec fn view(&self) -> Renewal {
        Renewal { cred: self.cred@, had_broker: self.had_broker, stage: self.stage }
    }
}

/// What happened since the last step of a renewal.
pub enum RenewEvent {
    /// The server issued a certificate: its DER, the handle in it, and the encoded key it
    /// belongs to.
    Issued { cert: Vec<u8>, san_handle: Option<String>, key: Result<Vec<u8>, String> },
    /// The credential was saved.
    Saved,
    /// A token was minted.
    Minted(String),
    /// A request or a save failed.
    Failed(CliError),
}

/// [`RenewEvent`], viewed.
pub enum RenewHappened {
    Issued { cert: Seq<u8>, san_handle: Option<Seq<char>>, key: Result<Seq<u8>, Seq<char>> },
    Saved,
    Minted(Seq<char>),
    Failed(ErrorView),
}

impl View for RenewEvent {
    type V = RenewHappened;

    open spec fn view(&self) -> RenewHappened {
        match self {
            RenewEvent::Issued { cert, san_handle, key } => RenewHappened::Issued {
                cert: cert@,
                san_handle: seen(*san_handle),
                key: decoded(*key),
            },
            RenewEvent::Saved => RenewHappened::Saved,
            RenewEvent::Minted(t) => RenewHappened::Minted(t@),
            RenewEvent::Failed(e) => RenewHappened::Failed(e@),
        }
    }
}

/// The renewal goes on, or it is over: with the renewed credential and whether a broker token
/// was minted along with the server token, or with a failure.
pub enum RenewStep {
    Go(CertRenewal),
    Done { cred: PoPCredential, broker_refreshed: bool },
    Failed(CliError),
}

/// [`RenewStep`], viewed.
pub enum RenewNext {
    Go(Renewal),
    Done { cred: Credential, broker_refreshed: bool },
    Failed(ErrorView),
}

impl View for RenewStep {
    type V = RenewNext;

    open spec fn view(&self) -> RenewNext {
        match self {
            RenewStep::Go(r) => RenewNext::Go(r@),
            RenewStep::Done { cred, broker_refreshed } => RenewNext::Done {
                cred: cred@,
                broker_refreshed: *broker_refreshed,
            },
            RenewStep::Failed(e) => RenewNext::Failed(e@),
        }
    }
}

impl Renewal {
    /// A renewal about to start.
    pub open spec fn start(cred: Credential) -> Renewal {
        Renewal {
            cred,
            had_broker: cred.broker_token is Some,
            stage: RenewStage::Certificate,
        }
    }

    /// Whether an event is one this stage waits for.
    pub open spec fn awaits(self, event: RenewHappened) -> bool {
        event is Failed || match self.stage {
            RenewStage::Certificate => event is Issued,
            RenewStage::Rotated | RenewStage::Tokens => event is Saved,
            RenewStage::ServerToken | RenewStage::BrokerToken => event is Minted,
        }
    }

    /// The renewal once a certificate was issued: refused unless it is for the same handle.
    pub open spec fn issued(
        self,
        cert: Seq<u8>,
        san_handle: Option<Seq<char>>,
        key: Result<Seq<u8>, Seq<char>>,
    ) -> RenewNext {
        match (san_handle, key) {
            (None, _) => RenewNext::Failed(
                ErrorView::invalid_data("renewal returned a cert without a PRSN-handle SAN"@),
            ),
            (Some(h), key) => if h != self.cred.handle {
                RenewNext::Failed(
                    ErrorView::invalid_data(
                        "renewal returned a cert for '"@ + h + "', not '"@ + self.cred.handle
                            + "'. Refusing to rotate"@,
                    ),
                )
            } else {
                match key {
                    Err(e) => RenewNext::Failed(
                        ErrorView::generic("encoding the renewed K4 key: "@ + e),
                    ),
                    Ok(k) => RenewNext::Go(
                        Renewal {
                            cred: self.cred.rotated(k, cert),
                            had_broker: self.had_broker,
                            stage: RenewStage::Rotated,
                        },
                    ),
                }
            },
        }
    }

    /// What an event leads to.
    pub open spec fn stepped(self, event: RenewHappened) -> RenewNext {
        match event {
            RenewHappened::Failed(e) => RenewNext::Failed(e),
            RenewHappened::Issued { cert, san_handle, key } => self.issued(cert, san_handle, key),
            RenewHappened::Saved => if self.stage == RenewStage::Rotated {
                RenewNext::Go(Renewal { stage: RenewStage::ServerToken, ..self })
            } else {
                RenewNext::Done { cred: self.cred, broker_refreshed: self.had_broker }
            },
            RenewHappened::Minted(t) => if self.stage == RenewStage::ServerToken {
                RenewNext::Go(
                    Renewal {
                        cred: Credential { server_token: t, ..self.cred },
                        had_broker: self.had_broker,
                        stage: if self.had_broker {
                            RenewStage::BrokerToken
                        } else {
                            RenewStage::Tokens
                        },
                    },
                )
            } else {
                RenewNext::Go(
                    Renewal {
                        cred: Credential { broker_token: Some(t), ..self.cred },
                        had_broker: self.had_broker,
                        stage: RenewStage::Tokens,
                    },
                )
            },
        }
    }

    /// What holds at every stage: from the rotation until it is minted anew there is no broker
    /// token, and in the end there is one exactly if there was one before.
    pub open spec fn consistent(self) -> bool {
        match self.stage {
            RenewStage::Certificate => self.had_broker == self.cred.broker_token is Some,
            RenewStage::Rotated | RenewStage::ServerToken => self.cred.broker_token is None,
            RenewStage::BrokerToken => self.had_broker && self.cred.broker_token is None,
            RenewStage::Tokens => self.had_broker == self.cred.broker_token is Some,
        }
    }
}

impl CertRenewal {
    /// Start renewing the certificate of a credential.
    pub fn start(cred: PoPCredential) -> (r: CertRenewal)
        ensures
            r@ == Renewal::start(cred@),
    {
        let had_broker = cred.broker_token().is_some();
        CertRenewal { cred, had_broker, stage: RenewStage::Certificate }
    }

    /// What the renewal waits for.
    pub fn stage(&self) -> (s: RenewStage)
        ensures
            s == self@.stage,
    {
        self.stage
    }

    /// The credential as it stands, to be saved or to ask for tokens with.
    pub fn credential(&self) -> (c: &PoPCredential)
        ensures
            c@ == self@.cred,
    {
        &self.cred
    }

    /// Take in what happened and say how the renewal goes on.
    pub fn step(self, event: RenewEvent) -> (s: RenewStep)
        requires
            self@.awaits(event@),
        ensures
            s@ == self@.stepped(event@),
    {
        match event {
            RenewEvent::Failed(e) => RenewStep::Failed(e),
            RenewEvent::Issued { cert, san_handle, key } => {
                let handle = match san_handle {
                    Some(h) => h,
                    None => return RenewStep::Failed(
                        CliError::invalid_data("renewal returned a cert without a PRSN-handle SAN"),
                    ),
                };
                let mut cred = self.cred;
                if !same(&handle, cred.bound_handle()) {
                    return RenewStep::Failed(
                        CliError::invalid_data(
                            &join5(
                                "renewal returned a cert for '",
                                &handle,
                                "', not '",
                                cred.bound_handle(),
                                "'. Refusing to rotate",
                            ),
                        ),
                    );
                }
                match key {
                    Err(e) => RenewStep::Failed(
                        CliError::generic(&join2("encoding the renewed K4 key: ", &e)),
                    ),
                    Ok(k) => {
                        cred.rotate_cert(k, cert);
                        RenewStep::Go(
                            CertRenewal {
                                cred,
                                had_broker: self.had_broker,
                                stage: RenewStage::Rotated,
                            },
                        )
                    },
                }
            },
            RenewEvent::Saved => {
                if self.stage == RenewStage::Rotated {
                    RenewStep::Go(
                        CertRenewal {
                            cred: self.cred,
                            had_broker: self.had_broker,
                            stage: RenewStage::ServerToken,
                        },
                    )
                } else {
                    RenewStep::Done { cred: self.cred, broker_refreshed: self.had_broker }
                }
            },
            RenewEvent::Minted(t) => {
                let mut cred = self.cred;
                if self.stage == RenewStage::ServerToken {
                    cred.set_server_token(&t);
                    let stage = if self.had_broker {
                        RenewStage::BrokerToken
                    } else {
                        RenewStage::Tokens
                    };
                    RenewStep::Go(CertRenewal { cred, had_broker: self.had_broker, stage })
                } else {
                    cred.set_broker_token(&t);
                    RenewStep::Go(
                        CertRenewal { cred, had_broker: self.had_broker, stage: RenewStage::Tokens },
                    )
                }
            },
        }
    }
}

/// The new certificate is saved before any token is asked for: a renewal comes to wait for a
/// token only once the credential that holds the new certificate was saved.
pub proof fn the_certificate_is_saved_first(r: Renewal, event: RenewHappened)
    requires
        r.awaits(event),
    ensures
        r.stepped(event) matches RenewNext::Go(next) ==> (next.stage == RenewStage::ServerToken
            ==> r.stage == RenewStage::Rotated && event is Saved && next.cred == r.cred),
        r.stepped(event) matches RenewNext::Go(next) ==> (next.stage == RenewStage::BrokerToken
            ==> r.stage == RenewStage::ServerToken),
        r.stepped(event) is Done ==> r.stage == RenewStage::Tokens && event is Saved,
{
}

/// A renewal never moves a credential to another handle, and whether it can reach the broker is
/// the same after as before.
pub proof fn a_renewal_keeps_identity_and_access(r: Renewal, event: RenewHappened)
    requires
        r.awaits(event),
        r.consistent(),
    ensures
        Renewal::start(r.cred).consistent(),
        r.stepped(event) matches RenewNext::Go(next) ==> next.consistent() && next.cred.handle
            == r.cred.handle && next.had_broker == r.had_broker,
        r.stepped(event) matches RenewNext::Done { cred, broker_refreshed } ==> cred.handle
            == r.cred.handle && broker_refreshed == r.had_broker && cred.broker_token is Some
            == r.had_broker,
{
}

/// The PRSN that a pickup is for: the asserted one. `automatic` tells a pickup that an operation
/// started on its own from one that was asked for.
pub fn pickup_handle(asserted: Option<&str>, automatic: bool) -> (r: Result<String, CliError>)
    ensures
        outcome(r) == match opt_str(asserted) {
            Some(h) => Ok::<Seq<char>, ErrorView>(h),
            None => Err(
                ErrorView::config(
                    if automatic {
                        "not connected yet, and SIGNET_HANDLE is not set. Set SIGNET_HANDLE so signet can claim your credential by signed pickup"@
                    } else {
                        "set SIGNET_HANDLE so signet knows which PRSN is picking up"@
                    },
                ),
            ),
        },
{
    match asserted {
        Some(h) => Ok(h.to_owned()),
        None => if automatic {
            Err(
                CliError::config(
                    "not connected yet, and SIGNET_HANDLE is not set. Set SIGNET_HANDLE so signet can claim your credential by signed pickup",
                ),
            )
        } else {
            Err(CliError::config("set SIGNET_HANDLE so signet knows which PRSN is picking up"))
        },
    }
}

/// The failure of a signed pickup, with what to do about it.
pub fn pickup_failed(e: &CliError) -> (r: CliError)
    ensures
        r@ == ErrorView::generic(
            "signed pickup failed: "@ + e@.line()
                + "\n  If you have not enrolled yet, run `signet enroll` (your guardian opens it from their Signet Drive account page). If you are enrolled, your guardian may not have authorized Signet Drive access yet."@,
        ),
{
    CliError::generic(
        &join3(
            "signed pickup failed: ",
            &e.to_line(),
            "\n  If you have not enrolled yet, run `signet enroll` (your guardian opens it from their Signet Drive account page). If you are enrolled, your guardian may not have authorized Signet Drive access yet.",
        ),
    )
}

/// What must be said when a pickup replaced a credential that was already claimed.
pub fn reissue_notice(handle: &str) -> (r: String)
    ensures
        r@ == "⚠ A NEW credential was issued for '"@ + handle@
            + "' and the PREVIOUS one no longer works (recorded in your and your guardian's audit logs). If you did not deliberately re-run pickup or recover this agent just now, treat this as a takeover signal and tell your guardian immediately."@,
{
    join3(
        "⚠ A NEW credential was issued for '",
        handle,
        "' and the PREVIOUS one no longer works (recorded in your and your guardian's audit logs). If you did not deliberately re-run pickup or recover this agent just now, treat this as a takeover signal and tell your guardian immediately.",
    )
}

/// A credential that was just picked up, completed with a broker token if one could be had.
pub open spec fn completed(cred: Credential, token: Result<Seq<char>, ErrorView>) -> Credential {
    match token {
        Ok(t) => Credential { broker_token: Some(t), ..cred },
        Err(_) => cred,
    }
}

/// Complete a credential that was just picked up with a broker token, if one could be had. If
/// not, the credential stays as it is and the notice says why; a later operation asks again.
pub fn complete_pickup(cred: &mut PoPCredential, token: Result<String, CliError>) -> (notice:
    Option<String>)
    ensures
        final(cred)@ == completed(old(cred)@, outcome(token)),
        seen(notice) == match token {
            Ok(_) => None,
            Err(e) => Some(
                "broker token not acquired yet ("@ + e@.line()
                    + "); it will be acquired automatically on your first Secure-Enclave op"@,
            ),
        },
{
    match token {
        Ok(t) => {
            cred.set_broker_token(&t);
            None
        },
        Err(e) => Some(
            join3(
                "broker token not acquired yet (",
                &e.to_line(),
                "); it will be acquired automatically on your first Secure-Enclave op",
            ),
        ),
    }
}

/// Where a pickup keeps its credential: the file that was given, else the handle's own.
pub fn pickup_path(credential: Option<&str>, config_dir: &str, handle: &str) -> (r: String)
    ensures
        r@ == match opt_str(credential) {
            Some(p) => p,
            None => credential_file(config_dir@, handle@),
        },
{
    match credential {
        Some(p) => p.to_owned(),
        None => default_credential_path(config_dir, handle),
    }
}

/// What a pickup reports once its credential is stored.
pub struct PickupReceipt {
    pub handle: String,
    pub cert_fingerprint: String,
    pub credential_path: String,
    pub enrollment_confirmed: bool,
    pub broker_token_acquired: bool,
}

/// [`PickupReceipt`], viewed.
pub struct PickupReport {
    pub handle: Seq<char>,
    pub cert_fingerprint: Seq<char>,
    pub credential_path: Seq<char>,
    pub enrollment_confirmed: bool,
    pub broker_token_acquired: bool,
}

impl View for PickupReceipt {
    type V = PickupReport;

    open spec fn view(&self) -> PickupReport {
        PickupReport {
            handle: self.handle@,
            cert_fingerprint: self.cert_fingerprint@,
            credential_path: self.credential_path@,
            enrollment_confirmed: self.enrollment_confirmed,
            broker_token_acquired: self.broker_token_acquired,
        }
    }
}

/// What a pickup reports of the credential that it stored at a path: the signed pickup confirms
/// the authorization, and the broker token was acquired if the credential has one.
pub open spec fn pickup_report(
    stored: Credential,
    cert_fingerprint: Seq<char>,
    path: Seq<char>,
) -> PickupReport {
    PickupReport {
        handle: stored.handle,
        cert_fingerprint,
        credential_path: path,
        enrollment_confirmed: true,
        broker_token_acquired: stored.broker_token is Some,
    }
}

/// Report a pickup, given the credential that was stored, the fingerprint of its certificate and
/// the path it was written to.
pub fn pickup_receipt(stored: &PoPCredential, cert_fingerprint: &str, path: &str) -> (r:
    PickupReceipt)
    ensures
        r@ == pickup_report(stored@, cert_fingerprint@, path@),
{
    PickupReceipt {
        handle: stored.bound_handle().to_owned(),
        cert_fingerprint: cert_fingerprint.to_owned(),
        credential_path: path.to_owned(),
        enrollment_confirmed: true,
        broker_token_acquired: stored.broker_token().is_some(),
    }
}

/// A pickup reports a broker token exactly where one was granted and stored. A refused one is no
/// failure: the credential is reported all the same.
pub proof fn a_pickup_reports_what_it_stored(
    picked_up: Credential,
    token: Result<Seq<char>, ErrorView>,
    cert_fingerprint: Seq<char>,
    path: Seq<char>,
)
    requires
        picked_up.broker_token is None,
    ensures
        ({
            let stored = completed(picked_up, token);
            let report = pickup_report(stored, cert_fingerprint, path);
            &&& report.broker_token_acquired == stored.broker_token is Some
            &&& report.broker_token_acquired == token is Ok
            &&& token matches Ok(t) ==> stored.broker_token == Some(t)
            &&& report.credential_path == path
            &&& report.enrollment_confirmed
            &&& report.handle == picked_up.handle
        }),
{
}

/// The failure of a broker that refused an operation, with the broker's own code and message.
pub open spec fn op_refused(code: Seq<char>, message: Seq<char>) -> ErrorView {
    ErrorView {
        exit_code: 77,
        code: "broker_op_failed"@,
        message: "the broker refused the op ("@ + code + "): "@ + message,
    }
}

/// Raise a broker's refusal of an operation.
pub fn broker_op_error(e: OpErr) -> (r: CliError)
    ensures
        r@ == op_refused(e.code@, e.message@),
{
    CliError::new(
        77,
        "broker_op_failed",
        &join4("the broker refused the op (", &e.code, "): ", &e.message),
    )
}

/// The failure of a broker whose answer does not fit the request.
pub open spec fn answer_unfit(ok: OkView) -> ErrorView {
    ErrorView::invalid_data(
        "the broker returned an unexpected response variant: "@ + shown(ok),
    )
}

/// Raise a broker's answer that does not fit the request.
pub fn unexpected_response(got: &OpOk) -> (r: CliError)
    ensures
        r@ == answer_unfit(got@),
{
    CliError::invalid_data(
        &join2("the broker returned an unexpected response variant: ", &show(got)),
    )
}

/// The key generation that `garnet keygen` asks for.
pub open spec fn keygen_asked(
    handle: Seq<char>,
    purpose: Purpose,
    algorithm: Option<Seq<char>>,
) -> Result<OpView, ErrorView> {
    match handle_checked(handle) {
        Err(e) => Err(e),
        Ok(_) => Ok(
            OpView::Keygen {
                label: Labelled { handle, purpose }.full(),
                algorithm: match algorithm {
                    Some(a) => a,
                    None => purpose.algorithm(),
                },
            },
        ),
    }
}

/// The operation that generates a handle's key for a purpose, under the purpose's own algorithm
/// unless another is named.
pub fn keygen_request(handle: &str, purpose: Purpose, algorithm: Option<&str>) -> (r: Result<
    Op,
    CliError,
>)
    ensures
        outcome(r) == keygen_asked(handle@, purpose, opt_str(algorithm)),
{
    let label = match KeyLabel::from_handle(handle, purpose) {
        Ok(l) => l,
        Err(e) => return Err(e),
    };
    let algorithm = match algorithm {
        Some(a) => a.to_owned(),
        None => purpose.default_alg().to_owned(),
    };
    Ok(Op::Keygen { label: label.full(), algorithm })
}

/// What `garnet keygen` reports: the public key is in URL-safe base64.
pub struct KeygenReceipt {
    pub algorithm: String,
    pub fingerprint: String,
    pub public_key: String,
}

/// [`KeygenReceipt`], viewed.
pub struct Receipt {
    pub algorithm: Seq<char>,
    pub fingerprint: Seq<char>,
    pub public_key: Seq<char>,
}

impl View for KeygenReceipt {
    type V = Receipt;

    open spec fn view(&self) -> Receipt {
        Receipt {
            algorithm: self.algorithm@,
            fingerprint: self.fingerprint@,
            public_key: self.public_key@,
        }
    }
}

/// Read the broker's answer to a key generation.
pub fn keygen_receipt(answer: Response) -> (r: Result<KeygenReceipt, CliError>)
    ensures
        outcome(r) == match answer@ {
            Reply::Done(OkView::Keygen { public_key, fingerprint, algorithm }) => Ok::<
                Receipt,
                ErrorView,
            >(
                Receipt { algorithm, fingerprint, public_key: base64url_text(public_key) },
            ),
            Reply::Done(other) => Err(answer_unfit(other)),
            Reply::Failed { code, message } => Err(op_refused(code, message)),
        },
{
    match answer {
        Response::Done(OpOk::Keygen { public_key, fingerprint, algorithm }) => Ok(
            KeygenReceipt { algorithm, fingerprint, public_key: base64url_encode(&public_key) },
        ),
        Response::Done(other) => Err(unexpected_response(&other)),
        Response::Failed(e) => Err(broker_op_error(e)),
    }
}

/// The signature that `garnet sign` asks for; a message over the limit is refused.
pub open spec fn sign_asked(handle: Seq<char>, message: Seq<u8>, limit: int) -> Result<
    OpView,
    ErrorView,
> {
    match handle_checked(handle) {
        Err(e) => Err(e),
        Ok(_) => if message.len() > limit {
            Err(ErrorView::invalid_args("input exceeds the 1 MB sign limit"@))
        } else {
            Ok(
                OpView::Sign {
                    label: Labelled { handle, purpose: Purpose::Signing }.full(),
                    msg: message,
                },
            )
        },
    }
}

/// The operation that signs a message of at most `limit` bytes with a handle's signing key.
pub fn sign_request(handle: &str, message: Vec<u8>, limit: usize) -> (r: Result<Op, CliError>)
    ensures
        outcome(r) == sign_asked(handle@, message@, limit as int),
{
    let label = match KeyLabel::from_handle(handle, Purpose::Signing) {
        Ok(l) => l,
        Err(e) => return Err(e),
    };
    if message.len() > limit {
        return Err(CliError::invalid_args("input exceeds the 1 MB sign limit"));
    }
    Ok(Op::Sign { label: label.full(), msg: message })
}

/// Read the broker's answer to a signature request.
pub fn signature_reply(answer: Response) -> (r: Result<Vec<u8>, CliError>)
    ensures
        outcome(r) == match answer@ {
            Reply::Done(OkView::Sign { signature }) => Ok::<Seq<u8>, ErrorView>(signature),
            Reply::Done(other) => Err(answer_unfit(other)),
            Reply::Failed { code, message } => Err(op_refused(code, message)),
        },
{
    match answer {
        Response::Done(OpOk::Sign { signature }) => Ok(signature),
        Response::Done(other) => Err(unexpected_response(&other)),
        Response::Failed(e) => Err(broker_op_error(e)),
    }
}

/// A token is granted if, and only if, the server accepted the request and its answer holds one;
/// it is the one in the answer. A refusal and an endpoint that cannot be reached or read have
/// exit codes of their own, and the code that a re-authorization answers to is given to a 403
/// with a stated reason, and to nothing else.
pub proof fn a_token_is_the_one_that_was_answered(url: Seq<char>, exchange: Exchanged)
    ensures
        match token_granted(url, exchange) {
            Ok(t) => exchange matches Exchanged::Accepted(Ok(body)) && (json_text(
                body,
            ) matches Ok(v) && v.text_field("access_token"@) == Some(t)),
            Err(e) => {
                &&& exchange is Refused ==> e.exit_code == 77
                &&& exchange is Unreachable ==> e.exit_code == 69
                &&& exchange matches Exchanged::Accepted(Err(_)) ==> e.exit_code == 69
                &&& exchange matches Exchanged::Accepted(Ok(body)) ==> (json_text(
                    body,
                ) matches Ok(v) ==> v.text_field("access_token"@) is None) && e.exit_code == 24
                &&& e.code == "token_denied"@ <==> (exchange matches Exchanged::Refused {
                    status,
                    body,
                } && status == 403 && stated_reason(body) is Some)
            },
        },
{
    reveal_strlit("token_denied");
    reveal_strlit("token_request_failed");
    reveal_strlit("token_endpoint_unreachable");
    reveal_strlit("invalid_data");
    assert("token_denied"@.len() == 12 && "token_denied"@[0] == 't');
    assert("invalid_data"@.len() == 12 && "invalid_data"@[0] == 'i');
    assert("token_request_failed"@.len() == 20);
    assert("token_endpoint_unreachable"@.len() == 26);
}

/// A certificate is granted if, and only if, the server accepted the request and its answer
/// holds one; it is the one in the answer.
pub proof fn a_certificate_is_the_one_that_was_answered(url: Seq<char>, exchange: Exchanged)
    ensures
        match renewal_granted(url, exchange) {
            Ok(t) => exchange matches Exchanged::Accepted(Ok(body)) && (json_text(
                body,
            ) matches Ok(v) && v.text_field("client_cert"@) == Some(t)),
            Err(e) => {
                &&& exchange is Refused ==> e.exit_code == 77 && e.code == "cert_renewal_denied"@
                &&& exchange is Unreachable ==> e.exit_code == 69
                &&& exchange matches Exchanged::Accepted(Ok(body)) ==> (json_text(
                    body,
                ) matches Ok(v) ==> v.text_field("client_cert"@) is None)
            },
        },
{
}

/// A certificate is renewed from the middle of its validity on: at a moment by which as much of
/// the window has passed as is left, give or take the odd second, and at every later one.
pub proof fn renewal_starts_at_half_time(
    not_before: u64,
    not_after: u64,
    now: u64,
    due: bool,
)
    requires
        not_before <= not_after,
        call_ensures(auto_renew_due, (Some((not_before, not_after)), now), due),
    ensures
        now < not_before ==> !due,
        now >= not_after ==> due,
        now >= not_before ==> (due <==> (now - not_before) + 1 >= not_after - now),
{
}

/// A renewal in full: where the server issues a certificate for the same handle and every save
/// and request succeeds, the credential ends with the new certificate and key, the newly minted
/// server token, and, where it had a broker token, the newly minted one; all else is as it was.
pub proof fn a_renewal_replaces_certificate_and_tokens(
    cred: Credential,
    cert: Seq<u8>,
    key: Seq<u8>,
    server_token: Seq<char>,
    broker_token: Seq<char>,
)
    ensures
        ({
            let issued = Renewal::start(cred).stepped(
                RenewHappened::Issued {
                    cert,
                    san_handle: Some(cred.handle),
                    key: Ok::<Seq<u8>, Seq<char>>(key),
                },
            );
            let saved = issued->Go_0.stepped(RenewHappened::Saved);
            let minted = saved->Go_0.stepped(RenewHappened::Minted(server_token));
            let ready = if cred.broker_token is Some {
                minted->Go_0.stepped(RenewHappened::Minted(broker_token))
            } else {
                minted
            };
            let end = ready->Go_0.stepped(RenewHappened::Saved);
            &&& issued is Go && saved is Go && minted is Go && ready is Go
            &&& issued->Go_0.stage == RenewStage::Rotated
            &&& issued->Go_0.cred.cert == cert && issued->Go_0.cred.key == key
            &&& saved->Go_0.stage == RenewStage::ServerToken
            &&& cred.broker_token is Some ==> minted->Go_0.stage == RenewStage::BrokerToken
            &&& ready->Go_0.stage == RenewStage::Tokens
            &&& end matches RenewNext::Done { cred: renewed, broker_refreshed } && renewed
                == Credential {
                handle: cred.handle,
                key,
                cert,
                anchor: cred.anchor,
                broker_spki_pin: cred.broker_spki_pin,
                grant_status_url: cred.grant_status_url,
                server_token,
                broker_token: if cred.broker_token is Some {
                    Some(broker_token)
                } else {
                    None
                },
            } && broker_refreshed == cred.broker_token is Some
        }),
{
}

/// A certificate for another handle, or for none, or without its key is refused, and whatever
/// fails ends the renewal with that failure.
pub proof fn a_foreign_certificate_is_refused(
    r: Renewal,
    cert: Seq<u8>,
    san_handle: Option<Seq<char>>,
    key: Result<Seq<u8>, Seq<char>>,
    e: ErrorView,
)
    ensures
        san_handle != Some(r.cred.handle) || key is Err ==> r.stepped(
            RenewHappened::Issued { cert, san_handle, key },
        ) is Failed,
        r.stepped(RenewHappened::Failed(e)) == RenewNext::Failed(e),
{
}

/// What `garnet sign` sends is a signature request with the handle's own signing key over the
/// message as it is; it is refused for a handle that is none, and for a message over the limit,
/// and for nothing else.
pub proof fn a_signature_is_asked_over_the_message(
    handle: Seq<char>,
    message: Seq<u8>,
    limit: int,
)
    ensures
        match sign_asked(handle, message, limit) {
            Ok(op) => op matches OpView::Sign { label, msg } && msg == message && label_parsed(
                label,
                None,
            ) == Ok::<Labelled, ErrorView>(Labelled { handle, purpose: Purpose::Signing }),
            Err(e) => handle_checked(handle) is Err || message.len() > limit,
        },
        handle_checked(handle) is Err || message.len() > limit ==> sign_asked(
            handle,
            message,
            limit,
        ) is Err,
{
    if handle_checked(handle) is Ok {
        labels_read_back(Labelled { handle, purpose: Purpose::Signing }, None);
    }
}

/// What `garnet keygen` sends is a key generation for the handle and the purpose, under the
/// algorithm that was named, or else under the purpose's own.
pub proof fn a_key_is_asked_for_as_named(
    handle: Seq<char>,
    purpose: Purpose,
    algorithm: Option<Seq<char>>,
)
    ensures
        keygen_asked(handle, purpose, algorithm) is Ok <==> handle_checked(handle) is Ok,
        keygen_asked(handle, purpose, algorithm) matches Ok(op) ==> (op matches OpView::Keygen {
            label,
            algorithm: named,
        } && label_parsed(label, None) == Ok::<Labelled, ErrorView>(
            Labelled { handle, purpose },
        ) && match algorithm {
            Some(a) => named == a,
            None => match purpose {
                Purpose::Signing => named == "ES256"@,
                Purpose::Kem => named == "ECDH-ES+A256KW"@,
                Purpose::SigningPq => named == "ML-DSA-87"@,
                Purpose::KemPq => named == "ML-KEM-1024"@,
            },
        }),
{
    if handle_checked(handle) is Ok {
        labels_read_back(Labelled { handle, purpose }, None);
    }
}

/// The broker's answer to a request of these two kinds is passed on as it is; an answer of
/// another kind, and a refusal, are failures.
pub proof fn the_brokers_answer_is_passed_on(
    answer: Response,
    signed: Result<Vec<u8>, CliError>,
    generated: Result<KeygenReceipt, CliError>,
)
    requires
        call_ensures(signature_reply, (answer,), signed),
        call_ensures(keygen_receipt, (answer,), generated),
    ensures
        match signed {
            Ok(s) => answer@ == Reply::Done(OkView::Sign { signature: s@ }),
            Err(e) => !(answer@ matches Reply::Done(OkView::Sign { .. })) && (answer@ is Failed
                ==> e@.exit_code == 77),
        },
        match generated {
            Ok(k) => answer@ matches Reply::Done(
                OkView::Keygen { public_key, fingerprint, algorithm },
            ) && k.algorithm@ == algorithm && k.fingerprint@ == fingerprint && k.public_key@
                == base64url_text(public_key),
            Err(e) => !(answer@ matches Reply::Done(OkView::Keygen { .. })) && (answer@ is Failed
                ==> e@.exit_code == 77),
        },
{
}

/// The credential file that is given is the one worked on; without it the handle's own, and only
/// without a handle there is none.
pub proof fn a_given_credential_is_worked_on(
    credential: Option<Seq<char>>,
    handle: Option<Seq<char>>,
    config_dir: Seq<char>,
)
    ensures
        match credential_resolved(credential, handle, config_dir) {
            Ok(path) => if credential is Some {
                credential == Some(path)
            } else {
                handle matches Some(h) && path == config_dir + "/garnet/"@ + h + ".json"@
            },
            Err(e) => credential is None && handle is None && e.exit_code == 2,
        },
{
}

/// There are two audiences, each with its own wire name.
pub proof fn there_are_two_audiences(audience: Seq<char>)
    ensures
        audience_wire(audience) == Some("signet-server"@) <==> audience == "server"@,
        audience_wire(audience) == Some("signet-broker"@) <==> audience == "broker"@,
        audience_wire(audience) is Some ==> audience == "server"@ || audience == "broker"@,
{
    reveal_strlit("server");
    reveal_strlit("broker");
    reveal_strlit("signet-server");
    reveal_strlit("signet-broker");
    assert("server"@[0] != "broker"@[0]);
    assert("signet-server"@[7] != "signet-broker"@[7]);
}

/// Completing a picked-up credential adds the token that was granted and changes nothing else;
/// where none was granted it changes nothing at all. The report names the certificate and the
/// path that it was given.
pub proof fn completing_adds_the_token_alone(
    picked_up: Credential,
    token: Result<Seq<char>, ErrorView>,
    cert_fingerprint: Seq<char>,
    path: Seq<char>,
)
    ensures
        ({
            let stored = completed(picked_up, token);
            let report = pickup_report(stored, cert_fingerprint, path);
            &&& token is Err ==> stored == picked_up
            &&& token matches Ok(t) ==> stored == Credential {
                broker_token: Some(t),
                ..picked_up
            }
            &&& report.cert_fingerprint == cert_fingerprint
            &&& report.credential_path == path
        }),
{
}

/// Tokens and certificates are asked for at the base URL without its trailing slashes, and the
/// path of each behind it.
pub proof fn requests_go_to_their_paths(
    base: &str,
    token: String,
    renewal: String,
    n: int,
)
    requires
        call_ensures(token_url, (base,), token),
        call_ensures(cert_renewal_url, (base,), renewal),
        0 <= n <= base@.len(),
        n > 0 ==> base@[n - 1] != '/',
        forall|i: int| n <= i < base@.len() ==> #[trigger] base@[i] == '/',
    ensures
        token@ == base@.take(n) + "/v1/garnet/token"@,
        renewal@ == base@.take(n) + "/v1/garnet/renew-cert"@,
{
    all_of_the_trailing_character_goes(base@, '/');
    let m = without_trailing(base@, '/').len() as int;
    if m < n {
        assert(base@[n - 1] == '/');
    }
    if m > n {
        assert(base@.take(m).last() == base@[m - 1]);
    }
}

/// A request says one thing: which audience a token is for, or what a certificate is asked with.
pub proof fn a_request_says_one_thing(
    audience: &str,
    csr_der: &[u8],
    token: Vec<u8>,
    renewal: Vec<u8>,
)
    requires
        call_ensures(token_request_body, (audience,), token),
        call_ensures(cert_renewal_body, (csr_der,), renewal),
    ensures
        token@ == encode_utf8(
            "{"@ + json_quoted("audience"@) + ":"@ + json_quoted(audience@) + "}"@,
        ),
        renewal@ == encode_utf8(
            "{"@ + json_quoted("csr"@) + ":"@ + json_quoted(base64_text(csr_der@)) + "}"@,
        ),
{
}

/// A window that ends before it starts has its midpoint at its start, and a certificate whose
/// window cannot be read is not renewed ahead of an operation.
pub proof fn an_odd_window_is_renewed_from_its_start(
    not_before: u64,
    not_after: u64,
    now: u64,
    due: bool,
    unread: bool,
)
    requires
        not_after <= not_before,
        call_ensures(auto_renew_due, (Some((not_before, not_after)), now), due),
        call_ensures(auto_renew_due, (None, now), unread),
    ensures
        due <==> now >= not_before,
        !unread,
{
}

} // verus!
