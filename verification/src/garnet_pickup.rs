//! Pickup: first contact, in which the agent claims its credential by a signed request.
//!
//! The request carries the certificate request and nothing else. The credential is bound to the
//! handle that the server put into the certificate, never to one that the client supplied.

use vstd::prelude::*;
use vstd::utf8::encode_utf8;

use crate::codec::{base64_encode, base64_text};
use crate::error::{outcome, seen, CliError, ErrorView};
use crate::garnet_credential::{Credential, PoPCredential};
use crate::json::{json_quoted, text_object, write_text_object, Json, JsonTree};
use crate::text::{
    all_of_the_trailing_character_goes, bytes_of, join2, join3, trim_end_matches, without_trailing,
};

verus! {

/// The path of the pickup request.
pub const PICKUP_PATH: &'static str = "/v1/garnet/pickup";

/// The base that the pickup path completes: without its trailing slashes.
pub fn pickup_base<'a>(base: &'a str) -> (r: &'a str)
    ensures
        r@ == without_trailing(base@, '/'),
{
    trim_end_matches(base, '/')
}

/// Where a pickup is asked for.
pub fn pickup_url(base: &str) -> (r: String)
    ensures
        r@ == without_trailing(base@, '/') + PICKUP_PATH@,
{
    join2(pickup_base(base), PICKUP_PATH)
}

/// The body of the pickup request: the certificate request, in standard base64, is all of it.
pub fn build_pickup_body(csr_der: &[u8]) -> (r: Vec<u8>)
    ensures
        r@ == encode_utf8(text_object("csr"@, base64_text(csr_der@))),
{
    bytes_of(&write_text_object("csr", &base64_encode(csr_der)))
}

/// A field of the pickup answer that must hold a text.
pub open spec fn required(answer: JsonTree, key: Seq<char>) -> Result<Seq<char>, ErrorView> {
    match answer.text_field(key) {
        Some(s) => Ok(s),
        None => Err(
            ErrorView::invalid_data("pickup response missing string field '"@ + key + "'"@),
        ),
    }
}

/// Read a field of the pickup answer that must hold a text.
pub fn json_str(value: &Json, key: &str) -> (r: Result<String, CliError>)
    ensures
        outcome(r) == required(value@, key@),
{
    match value.get_str(key) {
        Some(s) => Ok(s.to_owned()),
        None => Err(
            CliError::invalid_data(&join3("pickup response missing string field '", key, "'")),
        ),
    }
}

/// What a pickup answer holds.
pub struct PickupAnswer {
    pub client_cert_pem: String,
    pub ca_cert_pem: String,
    pub broker_spki_pin: String,
    pub access_token: String,
    pub grant_status_url: String,
    /// Whether this pickup replaced a credential that was already claimed.
    pub reissued: bool,
}

/// [`PickupAnswer`], viewed.
pub struct Answered {
    pub client_cert_pem: Seq<char>,
    pub ca_cert_pem: Seq<char>,
    pub broker_spki_pin: Seq<char>,
    pub access_token: Seq<char>,
    pub grant_status_url: Seq<char>,
    pub reissued: bool,
}

impl View for PickupAnswer {
    type V = Answered;

    open spec fn view(&self) -> Answered {
        Answered {
            client_cert_pem: self.client_cert_pem@,
            ca_cert_pem: self.ca_cert_pem@,
            broker_spki_pin: self.broker_spki_pin@,
            access_token: self.access_token@,
            grant_status_url: self.grant_status_url@,
            reissued: self.reissued,
        }
    }
}

/// What a pickup answer says: five required texts, the first that is missing being the
/// failure, and whether it was a re-issue, which an older server leaves out.
pub open spec fn answer_read(answer: JsonTree) -> Result<Answered, ErrorView> {
    match (
        required(answer, "client_cert"@),
        required(answer, "ca_cert"@),
        required(answer, "broker_spki_pin"@),
        required(answer, "access_token"@),
        required(answer, "grant_status_url"@),
    ) {
        (Err(e), _, _, _, _) => Err(e),
        (Ok(_), Err(e), _, _, _) => Err(e),
        (Ok(_), Ok(_), Err(e), _, _) => Err(e),
        (Ok(_), Ok(_), Ok(_), Err(e), _) => Err(e),
        (Ok(_), Ok(_), Ok(_), Ok(_), Err(e)) => Err(e),
        (Ok(client_cert_pem), Ok(ca_cert_pem), Ok(broker_spki_pin), Ok(access_token), Ok(
            grant_status_url,
        )) => Ok(
            Answered {
                client_cert_pem,
                ca_cert_pem,
                broker_spki_pin,
                access_token,
                grant_status_url,
                reissued: answer.bool_field("reissued"@) == Some(true),
            },
        ),
    }
}

/// Read a pickup answer.
pub fn read_answer(answer: &Json) -> (r: Result<PickupAnswer, CliError>)
    ensures
        outcome(r) == answer_read(answer@),
{
    let client_cert_pem = match json_str(answer, "client_cert") {
        Ok(s) => s,
        Err(e) => return Err(e),
    };
    let ca_cert_pem = match json_str(answer, "ca_cert") {
        Ok(s) => s,
        Err(e) => return Err(e),
    };
    let broker_spki_pin = match json_str(answer, "broker_spki_pin") {
        Ok(s) => s,
        Err(e) => return Err(e),
    };
    let access_token = match json_str(answer, "access_token") {
        Ok(s) => s,
        Err(e) => return Err(e),
    };
    let grant_status_url = match json_str(answer, "grant_status_url") {
        Ok(s) => s,
        Err(e) => return Err(e),
    };
    let reissued = match answer.get_bool("reissued") {
        Some(b) => b,
        None => false,
    };
    Ok(
        PickupAnswer {
            client_cert_pem,
            ca_cert_pem,
            broker_spki_pin,
            access_token,
            grant_status_url,
            reissued,
        },
    )
}

/// The credential that an answer makes, given the two certificates in DER, the handle in the
/// client certificate and the encoded client key. The first of them that is missing is the
/// failure.
pub open spec fn assembled(
    answer: Answered,
    client_cert: Result<Seq<u8>, Seq<char>>,
    ca_cert: Result<Seq<u8>, Seq<char>>,
    san_handle: Option<Seq<char>>,
    key: Result<Seq<u8>, Seq<char>>,
) -> Result<Credential, ErrorView> {
    match (client_cert, ca_cert, san_handle, key) {
        (Err(e), _, _, _) => Err(
            ErrorView::invalid_data("pickup returned a malformed client cert: "@ + e),
        ),
        (Ok(_), Err(e), _, _) => Err(
            ErrorView::invalid_data("pickup returned a malformed CA anchor: "@ + e),
        ),
        (Ok(_), Ok(_), None, _) => Err(
            ErrorView::invalid_data("pickup returned a cert without a PRSN-handle SAN"@),
        ),
        (Ok(_), Ok(_), Some(_), Err(e)) => Err(ErrorView::generic("encoding the K4 key: "@ + e)),
        (Ok(cert), Ok(anchor), Some(handle), Ok(key)) => Ok(
            Credential {
                handle,
                key,
                cert,
                anchor,
                broker_spki_pin: answer.broker_spki_pin,
                grant_status_url: answer.grant_status_url,
                server_token: answer.access_token,
                broker_token: None,
            },
        ),
    }
}

/// Bytes that were decoded, or the reason why not, viewed.
pub open spec fn decoded(r: Result<Vec<u8>, String>) -> Result<Seq<u8>, Seq<char>> {
    match r {
        Ok(b) => Ok(b@),
        Err(e) => Err(e@),
    }
}

/// Assemble the credential that an answer makes, with whether it was a re-issue.
pub fn assemble(
    answer: PickupAnswer,
    client_cert: Result<Vec<u8>, String>,
    ca_cert: Result<Vec<u8>, String>,
    san_handle: Option<String>,
    key: Result<Vec<u8>, String>,
) -> (r: Result<(PoPCredential, bool), CliError>)
    ensures
        match r {
            Ok((c, reissued)) => assembled(
                answer@,
                decoded(client_cert),
                decoded(ca_cert),
                seen(san_handle),
                decoded(key),
            ) == Ok::<Credential, ErrorView>(c@) && reissued == answer@.reissued,
            Err(e) => assembled(
                answer@,
                decoded(client_cert),
                decoded(ca_cert),
                seen(san_handle),
                decoded(key),
            ) == Err::<Credential, ErrorView>(e@),
        },
{
    let cert = match client_cert {
        Ok(b) => b,
        Err(e) => return Err(
            CliError::invalid_data(&join2("pickup returned a malformed client cert: ", &e)),
        ),
    };
    let anchor = match ca_cert {
        Ok(b) => b,
        Err(e) => return Err(
            CliError::invalid_data(&join2("pickup returned a malformed CA anchor: ", &e)),
        ),
    };
    let handle = match san_handle {
        Some(h) => h,
        None => return Err(
            CliError::invalid_data("pickup returned a cert without a PRSN-handle SAN"),
        ),
    };
    let key = match key {
        Ok(b) => b,
        Err(e) => return Err(CliError::generic(&join2("encoding the K4 key: ", &e))),
    };
    Ok(
        (
            PoPCredential::new(
                &handle,
                key,
                cert,
                anchor,
                &answer.broker_spki_pin,
                &answer.grant_status_url,
                &answer.access_token,
            ),
            answer.reissued,
        ),
    )
}

/// A credential that was picked up is made of what the server answered, each part from its own
/// field, and of what the certificates say: it is bound to the handle in the client certificate,
/// holds the key that was generated for it and the anchor that was answered, and has no broker
/// token yet.
pub proof fn a_picked_up_credential_is_what_was_answered(
    answer: JsonTree,
    client_cert: Result<Seq<u8>, Seq<char>>,
    ca_cert: Result<Seq<u8>, Seq<char>>,
    san_handle: Option<Seq<char>>,
    key: Result<Seq<u8>, Seq<char>>,
)
    ensures
        answer_read(answer) matches Ok(a) ==> {
            &&& answer.text_field("client_cert"@) == Some(a.client_cert_pem)
            &&& answer.text_field("ca_cert"@) == Some(a.ca_cert_pem)
            &&& a.reissued <==> answer.bool_field("reissued"@) == Some(true)
            &&& match assembled(a, client_cert, ca_cert, san_handle, key) {
                Ok(c) => {
                    &&& client_cert == Ok::<Seq<u8>, Seq<char>>(c.cert)
                    &&& ca_cert == Ok::<Seq<u8>, Seq<char>>(c.anchor)
                    &&& san_handle == Some(c.handle)
                    &&& key == Ok::<Seq<u8>, Seq<char>>(c.key)
                    &&& answer.text_field("broker_spki_pin"@) == Some(c.broker_spki_pin)
                    &&& answer.text_field("grant_status_url"@) == Some(c.grant_status_url)
                    &&& answer.text_field("access_token"@) == Some(c.server_token)
                    &&& c.broker_token is None
                },
                Err(_) => client_cert is Err || ca_cert is Err || san_handle is None || key is Err,
            }
        },
        answer_read(answer) is Err <==> answer.text_field("client_cert"@) is None
            || answer.text_field("ca_cert"@) is None || answer.text_field("broker_spki_pin"@) is None
            || answer.text_field("access_token"@) is None || answer.text_field(
            "grant_status_url"@,
        ) is None,
{
}

/// A pickup is asked for at the base URL without its trailing slashes, with the certificate
/// request and nothing else.
pub proof fn a_pickup_sends_the_certificate_request(
    base: &str,
    csr_der: &[u8],
    url: String,
    body: Vec<u8>,
    n: int,
)
    requires
        call_ensures(pickup_url, (base,), url),
        call_ensures(build_pickup_body, (csr_der,), body),
        0 <= n <= base@.len(),
        n > 0 ==> base@[n - 1] != '/',
        forall|i: int| n <= i < base@.len() ==> #[trigger] base@[i] == '/',
    ensures
        url@ == base@.take(n) + "/v1/garnet/pickup"@,
        body@ == encode_utf8(
            "{"@ + json_quoted("csr"@) + ":"@ + json_quoted(base64_text(csr_der@)) + "}"@,
        ),
{
    all_of_the_trailing_character_goes(base@, '/');
    let m = without_trailing(base@, '/').len() as int;
    if m < n {
        assert(base@[n - 1] == '/');
    }
    if m > n {
        assert(base@.take(m).last() == base@[m - 1]);
    }
}

} // verus!
