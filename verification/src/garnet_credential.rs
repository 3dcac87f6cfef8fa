//! The agent's persistent credential for the broker-mediated path.
//!
//! After pickup the agent holds its client key pair, the certificate issued for it, the pinned
//! deployment-CA anchor and its access tokens. The credential lives in a file of the agent's
//! workspace; its byte fields are stored as standard base64.
//!
//! Pickup yields a server-audience token only. The broker-audience token comes later; until it
//! is set, no broker operation is possible.

use vstd::prelude::*;
use zeroize::Zeroize;

use crate::codec::{base64_bytes, base64_decode, base64_encode, base64_text};
use crate::error::{outcome, seen, CliError, ErrorView};
use crate::json::opt_str;
use crate::text::{copy_bytes, debug_quoted, decimal, join2, join3, quote_debug, to_decimal};

verus! {

/// The credential of one agent.
pub struct PoPCredential {
    /// The handle this credential is bound to.
    pub handle: String,
    /// What is held for that handle.
    pub material: Material,
}

/// What a credential holds besides its handle.
pub struct Material {
    /// The client private key, PKCS#8 DER.
    k4_key_pkcs8: Vec<u8>,
    /// The issued client certificate, DER.
    client_cert_der: Vec<u8>,
    /// The pinned deployment-CA anchor, DER.
    ca_anchor_der: Vec<u8>,
    /// The pinned broker public-key hash, base64url.
    broker_spki_pin: String,
    /// The base URL that tokens and certificates are renewed against.
    grant_status_url: String,
    /// The server-audience access token.
    server_token: String,
    /// The broker-audience access token, once there is one.
    broker_token: Option<String>,
}

/// [`PoPCredential`], viewed.
pub struct Credential {
    pub handle: Seq<char>,
    pub key: Seq<u8>,
    pub cert: Seq<u8>,
    pub anchor: Seq<u8>,
    pub broker_spki_pin: Seq<char>,
    pub grant_status_url: Seq<char>,
    pub server_token: Seq<char>,
    pub broker_token: Option<Seq<char>>,
}

impl View for PoPCredential {
    type V = Credential;

    open spec fn view(&self) -> Credential {
        Credential { handle: self.handle@, ..self.material.unbound() }
    }
}

impl Material {
    /// The credential that this material makes, its handle left blank.
    pub closed spec fn unbound(self) -> Credential {
        Credential {
            handle: Seq::empty(),
            key: self.k4_key_pkcs8@,
            cert: self.client_cert_der@,
            anchor: self.ca_anchor_der@,
            broker_spki_pin: self.broker_spki_pin@,
            grant_status_url: self.grant_status_url@,
            server_token: self.server_token@,
            broker_token: seen(self.broker_token),
        }
    }
}

/// The stored form: byte fields in standard base64.
pub struct StoredCredential {
    pub handle: String,
    pub k4_key_pkcs8_b64: String,
    pub client_cert_der_b64: String,
    pub ca_anchor_der_b64: String,
    pub broker_spki_pin: String,
    pub grant_status_url: String,
    pub server_token: String,
    pub broker_token: Option<String>,
}

/// [`StoredCredential`], viewed.
pub struct Stored {
    pub handle: Seq<char>,
    pub key: Seq<char>,
    pub cert: Seq<char>,
    pub anchor: Seq<char>,
    pub broker_spki_pin: Seq<char>,
    pub grant_status_url: Seq<char>,
    pub server_token: Seq<char>,
    pub broker_token: Option<Seq<char>>,
}

impl View for StoredCredential {
    type V = Stored;

    open spec fn view(&self) -> Stored {
        Stored {
            handle: self.handle@,
            key: self.k4_key_pkcs8_b64@,
            cert: self.client_cert_der_b64@,
            anchor: self.ca_anchor_der_b64@,
            broker_spki_pin: self.broker_spki_pin@,
            grant_status_url: self.grant_status_url@,
            server_token: self.server_token@,
            broker_token: seen(self.broker_token),
        }
    }
}

impl Credential {
    /// The stored form of this credential.
    pub open spec fn stored(self) -> Stored {
        Stored {
            handle: self.handle,
            key: base64_text(self.key),
            cert: base64_text(self.cert),
            anchor: base64_text(self.anchor),
            broker_spki_pin: self.broker_spki_pin,
            grant_status_url: self.grant_status_url,
            server_token: self.server_token,
            broker_token: self.broker_token,
        }
    }

    /// This credential with its key and certificate replaced and no broker token.
    pub open spec fn rotated(self, key: Seq<u8>, cert: Seq<u8>) -> Credential {
        Credential { key, cert, broker_token: None, ..self }
    }

    /// What may be shown of this credential: no key and no token, only whether there is one.
    pub open spec fn redacted(self) -> Seq<char> {
        "PoPCredential { handle: "@ + debug_quoted(self.handle)
            + ", k4_key_pkcs8: \"<redacted>\", client_cert_der_len: "@ + decimal(self.cert.len())
            + ", ca_anchor_der_len: "@ + decimal(self.anchor.len()) + ", broker_spki_pin: "@
            + debug_quoted(self.broker_spki_pin) + ", grant_status_url: "@ + debug_quoted(
            self.grant_status_url,
        ) + ", server_token: \"<redacted>\", broker_token: "@ + (if self.broker_token is Some {
            "Some(\"<redacted>\")"@
        } else {
            "None"@
        }) + " }"@
    }
}

/// The failure of a stored field that is no base64.
pub open spec fn malformed_field(field: Seq<char>) -> ErrorView {
    ErrorView::filesystem("malformed PoP credential field '"@ + field + "'"@)
}

/// The credential that a stored form stands for: its byte fields are decoded in order, and the
/// first that is no base64 is the failure.
pub open spec fn restored(s: Stored) -> Result<Credential, ErrorView> {
    match (base64_bytes(s.key), base64_bytes(s.cert), base64_bytes(s.anchor)) {
        (None, _, _) => Err(malformed_field("k4 key"@)),
        (Some(_), None, _) => Err(malformed_field("client cert"@)),
        (Some(_), Some(_), None) => Err(malformed_field("ca anchor"@)),
        (Some(key), Some(cert), Some(anchor)) => Ok(
            Credential {
                handle: s.handle,
                key,
                cert,
                anchor,
                broker_spki_pin: s.broker_spki_pin,
                grant_status_url: s.grant_status_url,
                server_token: s.server_token,
                broker_token: s.broker_token,
            },
        ),
    }
}

/// `Zeroize::zeroize` on a byte vector: wipes the bytes and leaves the vector empty.
#[verifier::external_body]
fn wipe(v: &mut Vec<u8>)
    ensures
        final(v)@ == Seq::<u8>::empty(),
{
    v.zeroize();
}

/// Decode a base64 field, naming it where it is malformed.
fn b64(s: &str, field: &str) -> (r: Result<Vec<u8>, CliError>)
    ensures
        outcome(r) == match base64_bytes(s@) {
            Some(b) => Ok::<Seq<u8>, ErrorView>(b),
            None => Err(malformed_field(field@)),
        },
{
    match base64_decode(s) {
        Some(b) => Ok(b),
        None => Err(
            CliError::filesystem(&join3("malformed PoP credential field '", field, "'")),
        ),
    }
}

fn copy_token(t: &Option<String>) -> (r: Option<String>)
    ensures
        seen(r) == seen(*t),
{
    match t {
        Some(s) => Some(s.clone()),
        None => None,
    }
}

impl PoPCredential {
    /// The credential that pickup yields: it has no broker token yet.
    pub fn new(
        handle: &str,
        k4_key_pkcs8: Vec<u8>,
        client_cert_der: Vec<u8>,
        ca_anchor_der: Vec<u8>,
        broker_spki_pin: &str,
        grant_status_url: &str,
        server_token: &str,
    ) -> (c: PoPCredential)
        ensures
            c@ == (Credential {
                handle: handle@,
                key: k4_key_pkcs8@,
                cert: client_cert_der@,
                anchor: ca_anchor_der@,
                broker_spki_pin: broker_spki_pin@,
                grant_status_url: grant_status_url@,
                server_token: server_token@,
                broker_token: None,
            }),
            c.handle@ == handle@,
    {
        PoPCredential {
            handle: handle.to_owned(),
            material: Material {
                k4_key_pkcs8,
                client_cert_der,
                ca_anchor_der,
                broker_spki_pin: broker_spki_pin.to_owned(),
                grant_status_url: grant_status_url.to_owned(),
                server_token: server_token.to_owned(),
                broker_token: None,
            },
        }
    }

    /// The handle this credential is bound to.
    pub fn bound_handle(&self) -> (r: &str)
        ensures
            r@ == self@.handle,
    {
        self.handle.as_str()
    }

    /// The pinned deployment-CA anchor, DER.
    pub fn ca_anchor_der(&self) -> (r: &[u8])
        ensures
            r@ == self@.anchor,
    {
        self.material.ca_anchor_der.as_slice()
    }

    /// The client certificate, DER: the single leaf of the chain that is presented.
    pub fn client_cert_der(&self) -> (r: &[u8])
        ensures
            r@ == self@.cert,
    {
        self.material.client_cert_der.as_slice()
    }

    /// The client private key, PKCS#8 DER.
    pub fn client_key_pkcs8(&self) -> (r: &[u8])
        ensures
            r@ == self@.key,
    {
        self.material.k4_key_pkcs8.as_slice()
    }

    /// The pinned broker public-key hash.
    pub fn broker_spki_pin(&self) -> (r: &str)
        ensures
            r@ == self@.broker_spki_pin,
    {
        self.material.broker_spki_pin.as_str()
    }

    /// The base URL that tokens and certificates are renewed against.
    pub fn grant_status_url(&self) -> (r: &str)
        ensures
            r@ == self@.grant_status_url,
    {
        self.material.grant_status_url.as_str()
    }

    /// The server-audience access token.
    pub fn server_token(&self) -> (r: &str)
        ensures
            r@ == self@.server_token,
    {
        self.material.server_token.as_str()
    }

    /// The broker-audience access token, once there is one.
    pub fn broker_token(&self) -> (r: Option<&str>)
        ensures
            opt_str(r) == self@.broker_token,
    {
        match &self.material.broker_token {
            Some(t) => Some(t.as_str()),
            None => None,
        }
    }

    /// Set the broker-audience token.
    pub fn set_broker_token(&mut self, token: &str)
        ensures
            final(self)@ == (Credential { broker_token: Some(token@), ..old(self)@ }),
    {
        self.material.broker_token = Some(token.to_owned());
    }

    /// Replace the server-audience token.
    pub fn set_server_token(&mut self, token: &str)
        ensures
            final(self)@ == (Credential { server_token: token@, ..old(self)@ }),
    {
        self.material.server_token = token.to_owned();
    }

    /// Replace the client key and certificate after a renewal, wiping the old key, and drop the
    /// broker token: it was bound to the old certificate. The server token stays until it is
    /// minted anew.
    pub fn rotate_cert(&mut self, new_key_pkcs8: Vec<u8>, new_cert_der: Vec<u8>)
        ensures
            final(self)@ == old(self)@.rotated(new_key_pkcs8@, new_cert_der@),
    {
        wipe(&mut self.material.k4_key_pkcs8);
        self.material.k4_key_pkcs8 = new_key_pkcs8;
        self.material.client_cert_der = new_cert_der;
        self.material.broker_token = None;
    }

    /// A copy of this credential.
    pub fn copy(&self) -> (c: PoPCredential)
        ensures
            c@ == self@,
    {
        PoPCredential {
            handle: self.handle.clone(),
            material: Material {
                k4_key_pkcs8: copy_bytes(&self.material.k4_key_pkcs8),
                client_cert_der: copy_bytes(&self.material.client_cert_der),
                ca_anchor_der: copy_bytes(&self.material.ca_anchor_der),
                broker_spki_pin: self.material.broker_spki_pin.clone(),
                grant_status_url: self.material.grant_status_url.clone(),
                server_token: self.material.server_token.clone(),
                broker_token: copy_token(&self.material.broker_token),
            },
        }
    }

    /// The form that is written to the credential file. It stands for this credential.
    pub fn to_stored(&self) -> (s: StoredCredential)
        ensures
            s@ == self@.stored(),
            restored(s@) == Ok::<Credential, ErrorView>(self@),
    {
        StoredCredential {
            handle: self.handle.clone(),
            k4_key_pkcs8_b64: base64_encode(&self.material.k4_key_pkcs8),
            client_cert_der_b64: base64_encode(&self.material.client_cert_der),
            ca_anchor_der_b64: base64_encode(&self.material.ca_anchor_der),
            broker_spki_pin: self.material.broker_spki_pin.clone(),
            grant_status_url: self.material.grant_status_url.clone(),
            server_token: self.material.server_token.clone(),
            broker_token: copy_token(&self.material.broker_token),
        }
    }

    /// The credential that a stored form stands for.
    pub fn from_stored(stored: StoredCredential) -> (r: Result<PoPCredential, CliError>)
        ensures
            outcome(r) == restored(stored@),
            r matches Ok(c) ==> c.handle@ == stored.handle@,
    {
        let key = match b64(&stored.k4_key_pkcs8_b64, "k4 key") {
            Ok(b) => b,
            Err(e) => return Err(e),
        };
        let cert = match b64(&stored.client_cert_der_b64, "client cert") {
            Ok(b) => b,
            Err(e) => return Err(e),
        };
        let anchor = match b64(&stored.ca_anchor_der_b64, "ca anchor") {
            Ok(b) => b,
            Err(e) => return Err(e),
        };
        Ok(
            PoPCredential {
                handle: stored.handle,
                material: Material {
                    k4_key_pkcs8: key,
                    client_cert_der: cert,
                    ca_anchor_der: anchor,
                    broker_spki_pin: stored.broker_spki_pin,
                    grant_status_url: stored.grant_status_url,
                    server_token: stored.server_token,
                    broker_token: stored.broker_token,
                },
            },
        )
    }

    /// What may be shown of this credential.
    pub fn redacted(&self) -> (s: String)
        ensures
            s@ == self@.redacted(),
    {
        let mut s = join2("PoPCredential { handle: ", &quote_debug(&self.handle));
        s.append(", k4_key_pkcs8: \"<redacted>\", client_cert_der_len: ");
        s.append(&to_decimal(self.material.client_cert_der.len() as u64));
        s.append(", ca_anchor_der_len: ");
        s.append(&to_decimal(self.material.ca_anchor_der.len() as u64));
        s.append(", broker_spki_pin: ");
        s.append(&quote_debug(&self.material.broker_spki_pin));
        s.append(", grant_status_url: ");
        s.append(&quote_debug(&self.material.grant_status_url));
        s.append(", server_token: \"<redacted>\", broker_token: ");
        if self.material.broker_token.is_some() {
            s.append("Some(\"<redacted>\")");
        } else {
            s.append("None");
        }
        s.append(" }");
        s
    }
}

/// Why a credential file could not be read.
pub open spec fn unreadable(missing: bool, path: Seq<char>, reason: Seq<char>) -> ErrorView {
    if missing {
        ErrorView::key_not_found("no Signet Drive credential at "@ + path)
    } else {
        ErrorView::filesystem("reading "@ + path + ": "@ + reason)
    }
}

/// The failure of a credential file that is missing, or could not be read for `reason`.
pub fn load_error(missing: bool, path: &str, reason: &str) -> (e: CliError)
    ensures
        e@ == unreadable(missing, path@, reason@),
{
    if missing {
        CliError::key_not_found(&join2("no Signet Drive credential at ", path))
    } else {
        let mut m = join3("reading ", path, ": ");
        m.append(reason);
        CliError::filesystem(&m)
    }
}

/// What is shown of a credential tells nothing of its key or its tokens, nor more of its
/// certificates than their lengths: two credentials that agree on the rest are shown alike.
pub proof fn secrets_are_not_shown(a: Credential, b: Credential)
    requires
        a.handle == b.handle,
        a.cert.len() == b.cert.len(),
        a.anchor.len() == b.anchor.len(),
        a.broker_spki_pin == b.broker_spki_pin,
        a.grant_status_url == b.grant_status_url,
        a.broker_token is Some == b.broker_token is Some,
    ensures
        a.redacted() == b.redacted(),
{
}

/// A rotation changes the identity and drops the broker token; who the credential is bound to,
/// what it trusts and where it renews stay.
pub proof fn rotation_keeps_the_binding(c: Credential, key: Seq<u8>, cert: Seq<u8>)
    ensures
        c.rotated(key, cert).handle == c.handle,
        c.rotated(key, cert).anchor == c.anchor,
        c.rotated(key, cert).broker_spki_pin == c.broker_spki_pin,
        c.rotated(key, cert).grant_status_url == c.grant_status_url,
        c.rotated(key, cert).broker_token is None,
{
}

/// A credential is written field by field, its bytes in base64, and what is written is read back
/// as the same credential.
pub proof fn a_stored_credential_is_restored(
    c: &PoPCredential,
    s: StoredCredential,
    r: Result<PoPCredential, CliError>,
)
    requires
        call_ensures(PoPCredential::to_stored, (c,), s),
        call_ensures(PoPCredential::from_stored, (s,), r),
    ensures
        s.handle@ == c@.handle,
        base64_bytes(s.k4_key_pkcs8_b64@) == Some(c@.key),
        base64_bytes(s.client_cert_der_b64@) == Some(c@.cert),
        base64_bytes(s.ca_anchor_der_b64@) == Some(c@.anchor),
        s.broker_spki_pin@ == c@.broker_spki_pin,
        s.grant_status_url@ == c@.grant_status_url,
        s.server_token@ == c@.server_token,
        seen(s.broker_token) == c@.broker_token,
        r matches Ok(d) && d@ == c@,
{
}

/// A stored form is refused if, and only if, one of its three byte fields is no base64.
pub proof fn only_malformed_bytes_are_refused(s: Stored)
    ensures
        restored(s) is Err <==> base64_bytes(s.key) is None || base64_bytes(s.cert) is None
            || base64_bytes(s.anchor) is None,
        restored(s) matches Err(e) ==> e.code == "filesystem_error"@,
{
}

/// A rotation puts the new key and the new certificate in place of the old ones, and keeps the
/// server token.
pub proof fn a_rotation_installs_the_new_pair(c: Credential, key: Seq<u8>, cert: Seq<u8>)
    ensures
        c.rotated(key, cert).key == key,
        c.rotated(key, cert).cert == cert,
        c.rotated(key, cert).server_token == c.server_token,
{
}

/// A credential that is missing is told apart from one that cannot be read.
pub proof fn a_missing_credential_is_told_apart(missing: bool, path: Seq<char>, reason: Seq<char>)
    ensures
        unreadable(missing, path, reason).exit_code == if missing {
            12
        } else {
            21int
        },
{
}

} // verus!
