//! Verified-source recipient keys.
//!
//! A writer wraps only to keys that the recipient's own identity record vouches for, never to
//! a bare directory answer. [`verified_wrap_keys`] is the single entry point:
//!
//! 1. the bundle must answer for the handle that was asked for, where one was typed;
//! 2. its key material must pass the bundle-shape checks;
//! 3. the recipient is classified by its handle (a PRSN's ends in `-ai`), and the server's own
//!    claim must agree;
//! 4. the keys are held against the identity record: the dual-signed attestation response of a
//!    PRSN, or the transparency-log receipts of both key halves of a human.
//!
//! Fetching and the signature primitives are the caller's. The functions here decide in order
//! from the [`Answers`] in hand, and say what to ask next, what failed, or what was accepted.

use vstd::prelude::*;

use crate::codec::{base64url_bytes, base64url_decode};
use crate::error::{outcome, reply, seen, CliError, ErrorView};
use crate::json::{elements, opt_str, Json, JsonTree};
use crate::text::{
    copy_bytes, debug_quoted, ends_with, eq_ignore_ascii_case, join2, join3, join4, join5,
    quote_debug, same, same_but_case, same_bytes,
};

verus! {

/// A recipient's wrap keys: the P-256 point, and the ML-KEM-1024 key where there is one.
pub struct RecipientWrapKeys {
    pub rk_ec: Vec<u8>,
    pub rk_pq: Option<Vec<u8>>,
}

/// A recipient's wrap keys, viewed.
pub struct WrapKeys {
    pub rk_ec: Seq<u8>,
    pub rk_pq: Option<Seq<u8>>,
}

impl View for RecipientWrapKeys {
    type V = WrapKeys;

    open spec fn view(&self) -> WrapKeys {
        WrapKeys { rk_ec: self.rk_ec@, rk_pq: seen(self.rk_pq) }
    }
}

impl RecipientWrapKeys {
    fn copy(&self) -> (r: RecipientWrapKeys)
        ensures
            r@ == self@,
    {
        RecipientWrapKeys {
            rk_ec: copy_bytes(&self.rk_ec),
            rk_pq: match &self.rk_pq {
                Some(k) => Some(copy_bytes(k)),
                None => None,
            },
        }
    }
}

/// The caller's trust regime for the bundle's handle: a name the user typed is pinned, a row
/// the server listed has none to pin against.
pub enum HandleExpectation<'a> {
    UserNamed(&'a str),
    ServerListed,
}

impl<'a> HandleExpectation<'a> {
    /// The name the bundle must answer for, where there is one.
    pub open spec fn pinned(self) -> Option<Seq<char>> {
        match self {
            HandleExpectation::UserNamed(h) => Some(h@),
            HandleExpectation::ServerListed => None,
        }
    }
}

/// Something only the caller can find out.
pub enum Question {
    /// The bundle-shape checks on the bundle.
    BundleKeys,
    /// The attestation-verification response at this URL.
    Verification { url: String },
    /// A fresh server-info: the response's signing key is not among those held.
    SignerInfo { url: String },
    /// A fresh server-info: the response's ML-DSA-87 key is not among those held.
    PqSignerInfo { url: String },
    /// The canonical bytes the server signs for the response's attestation.
    SigningInput { server_key_id: String, signed_at: i64 },
    /// Whether this ES256 signature verifies.
    Es256 { key: Vec<u8>, message: Vec<u8>, signature: Vec<u8> },
    /// Whether this ML-DSA-87 signature verifies.
    MlDsa87 { key: Vec<u8>, message: Vec<u8>, signature: Vec<u8> },
    /// The state of the response's inline receipts.
    InlineReceipts { server_key: Vec<u8>, pq_key: Vec<u8> },
    /// The pair-commitment over these two attested keys.
    PairCommitment { kem: Vec<u8>, kem_pq: Vec<u8> },
    /// The log receipt at this URL, for the half of the pair that `half` names.
    Receipt { half: Half, url: String },
    /// A fresh server-info: the receipt's signing key is not among those held.
    ReceiptSignerInfo { half: Half, url: String },
    /// Whether the receipt verifies for this fingerprint, account and purpose.
    ReceiptCheck {
        half: Half,
        fingerprint: String,
        account_id: String,
        server_key: Vec<u8>,
        pq_key: Vec<u8>,
    },
}

/// One half of a recipient's hybrid key pair.
#[derive(Debug, Clone, Copy, PartialEq, Eq, Structural)]
pub enum Half {
    Kem,
    KemPq,
}

impl Half {
    /// The log purpose of this half.
    pub open spec fn name(self) -> Seq<char> {
        match self {
            Half::Kem => "kem"@,
            Half::KemPq => "kem_pq"@,
        }
    }

    /// The log purpose of this half.
    pub fn purpose(self) -> (r: &'static str)
        ensures
            r@ == self.name(),
    {
        match self {
            Half::Kem => "kem",
            Half::KemPq => "kem_pq",
        }
    }
}

/// A [`Question`], viewed.
pub enum Asked {
    BundleKeys,
    Verification { url: Seq<char> },
    SignerInfo { url: Seq<char> },
    PqSignerInfo { url: Seq<char> },
    SigningInput { server_key_id: Seq<char>, signed_at: int },
    Es256 { key: Seq<u8>, message: Seq<u8>, signature: Seq<u8> },
    MlDsa87 { key: Seq<u8>, message: Seq<u8>, signature: Seq<u8> },
    InlineReceipts { server_key: Seq<u8>, pq_key: Seq<u8> },
    PairCommitment { kem: Seq<u8>, kem_pq: Seq<u8> },
    Receipt { half: Half, url: Seq<char> },
    ReceiptSignerInfo { half: Half, url: Seq<char> },
    ReceiptCheck {
        half: Half,
        fingerprint: Seq<char>,
        account_id: Seq<char>,
        server_key: Seq<u8>,
        pq_key: Seq<u8>,
    },
}

impl View for Question {
    type V = Asked;

    open spec fn view(&self) -> Asked {
        match self {
            Question::BundleKeys => Asked::BundleKeys,
            Question::Verification { url } => Asked::Verification { url: url@ },
            Question::SignerInfo { url } => Asked::SignerInfo { url: url@ },
            Question::PqSignerInfo { url } => Asked::PqSignerInfo { url: url@ },
            Question::SigningInput { server_key_id, signed_at } => Asked::SigningInput {
                server_key_id: server_key_id@,
                signed_at: *signed_at as int,
            },
            Question::Es256 { key, message, signature } => Asked::Es256 {
                key: key@,
                message: message@,
                signature: signature@,
            },
            Question::MlDsa87 { key, message, signature } => Asked::MlDsa87 {
                key: key@,
                message: message@,
                signature: signature@,
            },
            Question::InlineReceipts { server_key, pq_key } => Asked::InlineReceipts {
                server_key: server_key@,
                pq_key: pq_key@,
            },
            Question::PairCommitment { kem, kem_pq } => Asked::PairCommitment {
                kem: kem@,
                kem_pq: kem_pq@,
            },
            Question::Receipt { half, url } => Asked::Receipt { half: *half, url: url@ },
            Question::ReceiptSignerInfo { half, url } => Asked::ReceiptSignerInfo {
                half: *half,
                url: url@,
            },
            Question::ReceiptCheck { half, fingerprint, account_id, server_key, pq_key } =>
                Asked::ReceiptCheck {
                half: *half,
                fingerprint: fingerprint@,
                account_id: account_id@,
                server_key: server_key@,
                pq_key: pq_key@,
            },
        }
    }
}

/// Where a check stands: something to ask, a failure, or a value to go on with.
pub enum Gate<T> {
    Ask(Question),
    Fail(CliError),
    Go(T),
}

/// A [`Gate`], viewed.
pub enum Flow<V> {
    Ask(Asked),
    Fail(ErrorView),
    Go(V),
}

/// A [`Gate`], viewed.
pub open spec fn flow<T: View>(g: Gate<T>) -> Flow<T::V> {
    match g {
        Gate::Ask(q) => Flow::Ask(q@),
        Gate::Fail(e) => Flow::Fail(e@),
        Gate::Go(v) => Flow::Go(v@),
    }
}

/// What has been found out about one half's log receipt so far.
pub struct ReceiptAnswers {
    /// The fetched receipt.
    pub receipt: Option<Result<Json, CliError>>,
    /// The server-info fetched for its signing key.
    pub signer_info: Option<Result<Json, CliError>>,
    /// The outcome of its verification.
    pub checked: Option<Result<(), CliError>>,
}

/// [`ReceiptAnswers`], viewed.
pub struct ReceiptFindings {
    pub receipt: Option<Result<JsonTree, ErrorView>>,
    pub signer_info: Option<Result<JsonTree, ErrorView>>,
    pub checked: Option<Result<(), ErrorView>>,
}

impl View for ReceiptAnswers {
    type V = ReceiptFindings;

    open spec fn view(&self) -> ReceiptFindings {
        ReceiptFindings {
            receipt: reply(self.receipt),
            signer_info: reply(self.signer_info),
            checked: reply(self.checked),
        }
    }
}

impl ReceiptAnswers {
    /// Nothing found out yet.
    pub fn new() -> (r: ReceiptAnswers)
        ensures
            r@ == (ReceiptFindings { receipt: None, signer_info: None, checked: None }),
    {
        ReceiptAnswers { receipt: None, signer_info: None, checked: None }
    }
}

/// What has been found out about one recipient so far.
pub struct Answers {
    /// The outcome of the bundle-shape checks.
    pub bundle_keys: Option<Result<RecipientWrapKeys, CliError>>,
    /// The attestation-verification response.
    pub verification: Option<Result<Json, CliError>>,
    /// The server-info fetched for the response's signing key.
    pub signer_info: Option<Result<Json, CliError>>,
    /// The server-info fetched for the response's ML-DSA-87 key.
    pub pq_signer_info: Option<Result<Json, CliError>>,
    /// The canonical signed bytes; none inside where there are none.
    pub signing_input: Option<Option<Vec<u8>>>,
    /// Whether the ES256 signature verified.
    pub es256: Option<bool>,
    /// The outcome of the ML-DSA-87 verification.
    pub mldsa87: Option<Result<(), CliError>>,
    /// The state of the inline receipts, in the word that names it.
    pub inline_receipts: Option<Result<String, CliError>>,
    /// The recomputed pair-commitment; none inside where the keys are not canonical.
    pub pair_commitment: Option<Option<String>>,
    /// About the classical half's log receipt.
    pub kem: ReceiptAnswers,
    /// About the ML-KEM half's log receipt.
    pub kem_pq: ReceiptAnswers,
}

/// [`Answers`], viewed.
pub struct Findings {
    pub bundle_keys: Option<Result<WrapKeys, ErrorView>>,
    pub verification: Option<Result<JsonTree, ErrorView>>,
    pub signer_info: Option<Result<JsonTree, ErrorView>>,
    pub pq_signer_info: Option<Result<JsonTree, ErrorView>>,
    pub signing_input: Option<Option<Seq<u8>>>,
    pub es256: Option<bool>,
    pub mldsa87: Option<Result<(), ErrorView>>,
    pub inline_receipts: Option<Result<Seq<char>, ErrorView>>,
    pub pair_commitment: Option<Option<Seq<char>>>,
    pub kem: ReceiptFindings,
    pub kem_pq: ReceiptFindings,
}

impl View for Answers {
    type V = Findings;

    open spec fn view(&self) -> Findings {
        Findings {
            bundle_keys: reply(self.bundle_keys),
            verification: reply(self.verification),
            signer_info: reply(self.signer_info),
            pq_signer_info: reply(self.pq_signer_info),
            signing_input: match self.signing_input {
                Some(o) => Some(seen(o)),
                None => None,
            },
            es256: self.es256,
            mldsa87: reply(self.mldsa87),
            inline_receipts: reply(self.inline_receipts),
            pair_commitment: match self.pair_commitment {
                Some(o) => Some(seen(o)),
                None => None,
            },
            kem: self.kem@,
            kem_pq: self.kem_pq@,
        }
    }
}

impl Findings {
    /// Nothing found out yet.
    pub open spec fn none() -> Findings {
        let nothing = ReceiptFindings { receipt: None, signer_info: None, checked: None };
        Findings {
            bundle_keys: None,
            verification: None,
            signer_info: None,
            pq_signer_info: None,
            signing_input: None,
            es256: None,
            mldsa87: None,
            inline_receipts: None,
            pair_commitment: None,
            kem: nothing,
            kem_pq: nothing,
        }
    }
}

impl Answers {
    /// Nothing found out yet.
    pub fn new() -> (r: Answers)
        ensures
            r@ == Findings::none(),
    {
        Answers {
            bundle_keys: None,
            verification: None,
            signer_info: None,
            pq_signer_info: None,
            signing_input: None,
            es256: None,
            mldsa87: None,
            inline_receipts: None,
            pair_commitment: None,
            kem: ReceiptAnswers::new(),
            kem_pq: ReceiptAnswers::new(),
        }
    }
}

/// The server verification keys a writer checks identity records against: one server-info.
pub struct ServerTrust {
    info: Json,
}

impl View for ServerTrust {
    type V = JsonTree;

    closed spec fn view(&self) -> JsonTree {
        self.info@
    }
}

/// Where a server publishes its info.
pub open spec fn info_url(server_url: Seq<char>) -> Seq<char> {
    server_url + "/v1/server-info"@
}

/// Where a server publishes its info.
pub fn server_info_url(server_url: &str) -> (r: String)
    ensures
        r@ == info_url(server_url@),
{
    join2(server_url, "/v1/server-info")
}

/// The first of `keys`, from `from` on, whose field `name` is the text `value`.
pub open spec fn first_with(
    keys: Seq<JsonTree>,
    name: Seq<char>,
    value: Seq<char>,
    from: int,
) -> Option<JsonTree>
    decreases keys.len() - from,
{
    if from < 0 || from >= keys.len() {
        None
    } else if keys[from].text_field(name) == Some(value) {
        Some(keys[from])
    } else {
        first_with(keys, name, value, from + 1)
    }
}

/// The bytes of a published key.
pub open spec fn published_bytes(key: JsonTree) -> Result<Seq<u8>, ErrorView> {
    match key.text_field("public_key"@) {
        None => Err(ErrorView::invalid_data("server-info key missing public_key"@)),
        Some(t) => match base64url_bytes(t) {
            Some(b) => Ok(b),
            None => Err(ErrorView::invalid_data("server-info public_key base64url"@)),
        },
    }
}

/// The key with id `key_id` among the keys that `info` lists under `list`.
pub open spec fn listed_key(info: JsonTree, list: Seq<char>, key_id: Seq<char>) -> Option<
    JsonTree,
> {
    match info.array_field(list) {
        Some(keys) => first_with(keys, "key_id"@, key_id, 0),
        None => None,
    }
}

/// The signing key with id `key_id`, current or else retired; none where neither lists it.
pub open spec fn key_with_id(info: JsonTree, key_id: Seq<char>) -> Result<
    Option<Seq<u8>>,
    ErrorView,
> {
    let found = match listed_key(info, "current_signing_keys"@, key_id) {
        Some(k) => Some(k),
        None => listed_key(info, "retired_signing_keys"@, key_id),
    };
    match found {
        Some(k) => match published_bytes(k) {
            Ok(b) => Ok(Some(b)),
            Err(e) => Err(e),
        },
        None => Ok(None),
    }
}

/// The active ML-DSA-87 key: the first current key of its purpose.
pub open spec fn active_pq(info: JsonTree) -> Result<Seq<u8>, ErrorView> {
    match info.array_field("current_signing_keys"@) {
        None => Err(ErrorView::invalid_data("server-info missing current_signing_keys"@)),
        Some(keys) => match first_with(keys, "purpose"@, "attestation_verification_pq"@, 0) {
            Some(k) => published_bytes(k),
            None => Err(
                ErrorView::transparency_violation(
                    "server publishes no active ML-DSA-87 verification key: refusing to verify recipient identity records ES256-only (MF-2/N9)"@,
                ),
            ),
        },
    }
}

fn find_with<'a>(keys: &'a Vec<Json>, name: &str, value: &str) -> (r: Option<&'a Json>)
    ensures
        match r {
            Some(k) => first_with(elements(keys@), name@, value@, 0) == Some(k@),
            None => first_with(elements(keys@), name@, value@, 0) is None,
        },
{
    let mut i: usize = 0;
    while i < keys.len()
        invariant
            i <= keys@.len(),
            first_with(elements(keys@), name@, value@, 0) == first_with(
                elements(keys@),
                name@,
                value@,
                i as int,
            ),
        decreases keys@.len() - i,
    {
        assert(elements(keys@)[i as int] == keys@[i as int]@);
        match keys[i].get_str(name) {
            Some(v) => {
                if same(v, value) {
                    return Some(&keys[i]);
                }
            },
            None => {},
        }
        i = i + 1;
    }
    None
}

fn public_key_bytes(key: &Json) -> (r: Result<Vec<u8>, CliError>)
    ensures
        outcome(r) == published_bytes(key@),
{
    match key.get_str("public_key") {
        None => Err(CliError::invalid_data("server-info key missing public_key")),
        Some(t) => match base64url_decode(t) {
            Some(b) => Ok(b),
            None => Err(CliError::invalid_data("server-info public_key base64url")),
        },
    }
}

impl ServerTrust {
    /// Take a fetched server-info as the trust base. Refused where it publishes no active
    /// ML-DSA-87 key: the write path never verifies ES256-only.
    pub fn from_info(info: Json) -> (r: Result<ServerTrust, CliError>)
        ensures
            match r {
                Ok(t) => t@ == info@ && active_pq(info@) is Ok,
                Err(e) => active_pq(info@) == Err::<Seq<u8>, ErrorView>(e@),
            },
    {
        let trust = ServerTrust { info };
        match trust.active_pq_key() {
            Ok(_) => Ok(trust),
            Err(e) => Err(e),
        }
    }

    /// A server-info as it stands, unexamined: what a check of a bundle alone needs.
    pub fn unexamined(info: Json) -> (r: ServerTrust)
        ensures
            r@ == info@,
    {
        ServerTrust { info }
    }

    /// The signing key with id `key_id`, current or else retired.
    pub fn find_key_by_id(info: &Json, key_id: &str) -> (r: Result<Option<Vec<u8>>, CliError>)
        ensures
            match r {
                Ok(o) => key_with_id(info@, key_id@) == Ok::<Option<Seq<u8>>, ErrorView>(seen(o)),
                Err(e) => key_with_id(info@, key_id@) == Err::<Option<Seq<u8>>, ErrorView>(e@),
            },
    {
        let mut found: Option<&Json> = None;
        match info.get_array("current_signing_keys") {
            Some(keys) => {
                found = find_with(keys, "key_id", key_id);
            },
            None => {},
        }
        if found.is_none() {
            match info.get_array("retired_signing_keys") {
                Some(keys) => {
                    found = find_with(keys, "key_id", key_id);
                },
                None => {},
            }
        }
        match found {
            Some(k) => match public_key_bytes(k) {
                Ok(b) => Ok(Some(b)),
                Err(e) => Err(e),
            },
            None => Ok(None),
        }
    }

    /// The active ML-DSA-87 key.
    pub fn active_pq_key(&self) -> (r: Result<Vec<u8>, CliError>)
        ensures
            outcome(r) == active_pq(self@),
    {
        match self.info.get_array("current_signing_keys") {
            None => Err(CliError::invalid_data("server-info missing current_signing_keys")),
            Some(keys) => match find_with(keys, "purpose", "attestation_verification_pq") {
                Some(k) => public_key_bytes(k),
                None => Err(
                    CliError::transparency_violation(
                        "server publishes no active ML-DSA-87 verification key: refusing to verify recipient identity records ES256-only (MF-2/N9)",
                    ),
                ),
            },
        }
    }

    /// A signing key by id, from the info held or, on a miss, from a fresh one: `refetch` is
    /// what to ask for, `fresh` what came of it.
    fn key_by_id(
        &self,
        refetch: Question,
        fresh: &Option<Result<Json, CliError>>,
        key_id: &str,
    ) -> (g: Gate<Vec<u8>>)
        ensures
            flow(g) == resolved_key(self@, refetch@, reply(*fresh), key_id@),
    {
        match ServerTrust::find_key_by_id(&self.info, key_id) {
            Err(e) => Gate::Fail(e),
            Ok(Some(k)) => Gate::Go(k),
            Ok(None) => match fresh {
                None => Gate::Ask(refetch),
                Some(Err(e)) => Gate::Fail(e.copy()),
                Some(Ok(info)) => match ServerTrust::find_key_by_id(info, key_id) {
                    Err(e) => Gate::Fail(e),
                    Ok(Some(k)) => Gate::Go(k),
                    Ok(None) => Gate::Fail(
                        CliError::transparency_violation(
                            &join2("server-info has no signing key with id ", key_id),
                        ),
                    ),
                },
            },
        }
    }
}

/// How a signing key is resolved by id: from the info held, on a miss from a fresh one.
pub open spec fn resolved_key(
    held: JsonTree,
    refetch: Asked,
    fresh: Option<Result<JsonTree, ErrorView>>,
    key_id: Seq<char>,
) -> Flow<Seq<u8>> {
    match key_with_id(held, key_id) {
        Err(e) => Flow::Fail(e),
        Ok(Some(k)) => Flow::Go(k),
        Ok(None) => match fresh {
            None => Flow::Ask(refetch),
            Some(Err(e)) => Flow::Fail(e),
            Some(Ok(info)) => match key_with_id(info, key_id) {
                Err(e) => Flow::Fail(e),
                Ok(Some(k)) => Flow::Go(k),
                Ok(None) => Flow::Fail(
                    ErrorView::transparency_violation(
                        "server-info has no signing key with id "@ + key_id,
                    ),
                ),
            },
        },
    }
}

/// The attestation-verification response's signed head: who signed it, when, the signature
/// and the attestation it covers.
pub struct SignedHead {
    pub server_key_id: Seq<char>,
    pub signed_at: int,
    pub attestation: JsonTree,
    pub signature: Seq<u8>,
}

/// The signed head of a response; the first part that is missing or malformed is what fails.
pub open spec fn signed_head(response: JsonTree) -> Result<SignedHead, ErrorView> {
    match (
        response.text_field("server_key_id"@),
        response.integer_field("signed_at"@),
        response.field("attestation"@),
        response.text_field("server_signature"@),
    ) {
        (None, _, _, _) => Err(ErrorView::invalid_data("response missing server_key_id"@)),
        (_, None, _, _) => Err(ErrorView::invalid_data("response missing signed_at"@)),
        (_, _, None, _) => Err(ErrorView::invalid_data("response missing attestation"@)),
        (_, _, _, None) => Err(ErrorView::invalid_data("response missing server_signature"@)),
        (Some(server_key_id), Some(signed_at), Some(attestation), Some(text)) =>
            match base64url_bytes(text) {
            None => Err(ErrorView::invalid_data("server_signature base64url"@)),
            Some(signature) => Ok(
                SignedHead { server_key_id, signed_at, attestation, signature },
            ),
        },
    }
}

/// The key that the response's ML-DSA-87 signature is held against: the one it names, else
/// the server's active one.
pub open spec fn response_pq_key(
    trust: JsonTree,
    server_url: Seq<char>,
    response: JsonTree,
    found: Findings,
) -> Flow<Seq<u8>> {
    match response.text_field("server_pq_key_id"@) {
        Some(id) => resolved_key(
            trust,
            Asked::PqSignerInfo { url: info_url(server_url) },
            found.pq_signer_info,
            id,
        ),
        None => match active_pq(trust) {
            Ok(k) => Flow::Go(k),
            Err(e) => Flow::Fail(e),
        },
    }
}

/// The second, ML-DSA-87 half of a response's verification, and its receipts.
pub open spec fn pq_verified(
    trust: JsonTree,
    server_url: Seq<char>,
    response: JsonTree,
    head: SignedHead,
    server_key: Seq<u8>,
    input: Seq<u8>,
    found: Findings,
    who: Seq<char>,
) -> Flow<JsonTree> {
    match response_pq_key(trust, server_url, response, found) {
        Flow::Ask(q) => Flow::Ask(q),
        Flow::Fail(e) => Flow::Fail(e),
        Flow::Go(pq_key) => match response.text_field("server_signature_mldsa87"@) {
            None => Flow::Fail(
                ErrorView::signature_invalid(
                    who
                        + ": ES256-only verification response rejected: the server has a published ML-DSA-87 key, so the §9 response MUST be dual-signed (MF-2/N9)"@,
                ),
            ),
            Some(text) => match base64url_bytes(text) {
                None => Flow::Fail(
                    ErrorView::invalid_data("server_signature_mldsa87 base64url"@),
                ),
                Some(signature) => match found.mldsa87 {
                    None => Flow::Ask(Asked::MlDsa87 { key: pq_key, message: input, signature }),
                    Some(Err(e)) => Flow::Fail(e),
                    Some(Ok(())) => match found.inline_receipts {
                        None => Flow::Ask(Asked::InlineReceipts { server_key, pq_key }),
                        Some(Err(e)) => Flow::Fail(e),
                        Some(Ok(state)) => if state == "verified"@ {
                            Flow::Go(head.attestation)
                        } else {
                            Flow::Fail(
                                ErrorView::transparency_violation(
                                    who + ": attestation response's transparency receipts are "@
                                        + state
                                        + ": the write path requires the full receipt set"@,
                                ),
                            )
                        },
                    },
                },
            },
        },
    }
}

/// The verification of an attestation response on the write path: both signatures over the
/// same bytes, then the inline receipts, all of them required. Gives the signed attestation.
pub open spec fn verified_response(
    trust: JsonTree,
    server_url: Seq<char>,
    response: JsonTree,
    found: Findings,
    who: Seq<char>,
) -> Flow<JsonTree> {
    match signed_head(response) {
        Err(e) => Flow::Fail(e),
        Ok(head) => match found.signing_input {
            None => Flow::Ask(
                Asked::SigningInput {
                    server_key_id: head.server_key_id,
                    signed_at: head.signed_at,
                },
            ),
            Some(None) => Flow::Fail(ErrorView::invalid_data("verification canonical bytes"@)),
            Some(Some(input)) => match resolved_key(
                trust,
                Asked::SignerInfo { url: info_url(server_url) },
                found.signer_info,
                head.server_key_id,
            ) {
                Flow::Ask(q) => Flow::Ask(q),
                Flow::Fail(e) => Flow::Fail(e),
                Flow::Go(server_key) => match found.es256 {
                    None => Flow::Ask(
                        Asked::Es256 {
                            key: server_key,
                            message: input,
                            signature: head.signature,
                        },
                    ),
                    Some(false) => Flow::Fail(
                        ErrorView::signature_invalid(who + ": server signature does not verify"@),
                    ),
                    Some(true) => pq_verified(
                        trust,
                        server_url,
                        response,
                        head,
                        server_key,
                        input,
                        found,
                        who,
                    ),
                },
            },
        },
    }
}

fn verify_pq_half<'a>(
    trust: &ServerTrust,
    server_url: &str,
    response: &Json,
    attestation: &'a Json,
    server_key: &Vec<u8>,
    input: &Vec<u8>,
    answers: &Answers,
    who: &str,
) -> (g: Gate<&'a Json>)
    ensures
        forall|head: SignedHead|
            head.attestation == attestation@ ==> flow(g) == #[trigger] pq_verified(
                trust@,
                server_url@,
                response@,
                head,
                server_key@,
                input@,
                answers@,
                who@,
            ),
{
    let pq_key = match response.get_str("server_pq_key_id") {
        Some(id) => {
            let refetch = Question::PqSignerInfo { url: server_info_url(server_url) };
            match trust.key_by_id(refetch, &answers.pq_signer_info, id) {
                Gate::Ask(q) => return Gate::Ask(q),
                Gate::Fail(e) => return Gate::Fail(e),
                Gate::Go(k) => k,
            }
        },
        None => match trust.active_pq_key() {
            Ok(k) => k,
            Err(e) => return Gate::Fail(e),
        },
    };
    let signature = match response.get_str("server_signature_mldsa87") {
        None => return Gate::Fail(
            CliError::signature_invalid(
                &join2(
                    who,
                    ": ES256-only verification response rejected: the server has a published ML-DSA-87 key, so the §9 response MUST be dual-signed (MF-2/N9)",
                ),
            ),
        ),
        Some(text) => match base64url_decode(text) {
            None => return Gate::Fail(
                CliError::invalid_data("server_signature_mldsa87 base64url"),
            ),
            Some(b) => b,
        },
    };
    match &answers.mldsa87 {
        None => return Gate::Ask(
            Question::MlDsa87 { key: pq_key, message: copy_bytes(input), signature },
        ),
        Some(Err(e)) => return Gate::Fail(e.copy()),
        Some(Ok(())) => {},
    }
    match &answers.inline_receipts {
        None => Gate::Ask(Question::InlineReceipts { server_key: copy_bytes(server_key), pq_key }),
        Some(Err(e)) => Gate::Fail(e.copy()),
        Some(Ok(state)) => if same(state, "verified") {
            Gate::Go(attestation)
        } else {
            Gate::Fail(
                CliError::transparency_violation(
                    &join4(
                        who,
                        ": attestation response's transparency receipts are ",
                        state,
                        ": the write path requires the full receipt set",
                    ),
                ),
            )
        },
    }
}

/// Verify an attestation response on the write path and hand back the signed attestation.
pub fn verify_verification_response<'a>(
    trust: &ServerTrust,
    server_url: &str,
    response: &'a Json,
    answers: &Answers,
    who: &str,
) -> (g: Gate<&'a Json>)
    ensures
        flow(g) == verified_response(trust@, server_url@, response@, answers@, who@),
{
    let server_key_id = match response.get_str("server_key_id") {
        Some(v) => v,
        None => return Gate::Fail(CliError::invalid_data("response missing server_key_id")),
    };
    let signed_at: i64 = match response.get_i64("signed_at") {
        Some(v) => v,
        None => return Gate::Fail(CliError::invalid_data("response missing signed_at")),
    };
    let attestation = match response.get("attestation") {
        Some(v) => v,
        None => return Gate::Fail(CliError::invalid_data("response missing attestation")),
    };
    let signature = match response.get_str("server_signature") {
        None => return Gate::Fail(CliError::invalid_data("response missing server_signature")),
        Some(text) => match base64url_decode(text) {
            Some(b) => b,
            None => return Gate::Fail(CliError::invalid_data("server_signature base64url")),
        },
    };
    let ghost head = SignedHead {
        server_key_id: server_key_id@,
        signed_at: signed_at as int,
        attestation: attestation@,
        signature: signature@,
    };
    assert(signed_head(response@) == Ok::<SignedHead, ErrorView>(head));
    let input = match &answers.signing_input {
        None => return Gate::Ask(
            Question::SigningInput { server_key_id: server_key_id.to_owned(), signed_at },
        ),
        Some(None) => return Gate::Fail(CliError::invalid_data("verification canonical bytes")),
        Some(Some(b)) => b,
    };
    let refetch = Question::SignerInfo { url: server_info_url(server_url) };
    let server_key = match trust.key_by_id(refetch, &answers.signer_info, server_key_id) {
        Gate::Ask(q) => return Gate::Ask(q),
        Gate::Fail(e) => return Gate::Fail(e),
        Gate::Go(k) => k,
    };
    match answers.es256 {
        None => return Gate::Ask(
            Question::Es256 { key: server_key, message: copy_bytes(input), signature },
        ),
        Some(false) => return Gate::Fail(
            CliError::signature_invalid(&join2(who, ": server signature does not verify")),
        ),
        Some(true) => {},
    }
    let g = verify_pq_half(
        trust,
        server_url,
        response,
        attestation,
        &server_key,
        input,
        answers,
        who,
    );
    assert(flow(g) == pq_verified(
        trust@,
        server_url@,
        response@,
        head,
        server_key@,
        input@,
        answers@,
        who@,
    ));
    g
}

/// An optional text as `{:?}` shows it: `None`, or `Some(..)` around the quoted text.
pub open spec fn debug_shown(text: Option<Seq<char>>) -> Seq<char> {
    match text {
        None => "None"@,
        Some(t) => "Some("@ + debug_quoted(t) + ")"@,
    }
}

fn show_debug(text: Option<&str>) -> (s: String)
    ensures
        s@ == debug_shown(opt_str(text)),
{
    match text {
        None => "None".to_owned(),
        Some(t) => join3("Some(", &quote_debug(t), ")"),
    }
}

/// Only an active attestation's keys are wrap targets.
pub open spec fn status_checked(
    attestation: JsonTree,
    handle: Seq<char>,
    who: Seq<char>,
) -> Result<(), ErrorView> {
    let status = attestation.text_field("status"@);
    if status == Some("active"@) {
        Ok(())
    } else if status == Some("revoked"@) {
        Err(
            ErrorView::attestation_revoked(who + ": '"@ + handle + "' attestation is revoked"@),
        )
    } else if status == Some("expired"@) {
        Err(
            ErrorView::attestation_expired(who + ": '"@ + handle + "' attestation is expired"@),
        )
    } else {
        Err(
            ErrorView::invalid_data(
                who + ": attestation has unknown status "@ + debug_shown(status),
            ),
        )
    }
}

fn check_status(attestation: &Json, handle: &str, who: &str) -> (r: Result<(), CliError>)
    ensures
        outcome(r) == status_checked(attestation@, handle@, who@),
{
    let status = attestation.get_str("status");
    proof {
        reveal_strlit("active");
        reveal_strlit("revoked");
        reveal_strlit("expired");
        assert("active"@[0] != "revoked"@[0]);
        assert("active"@[0] != "expired"@[0]);
        assert("revoked"@[0] != "expired"@[0]);
    }
    match status {
        Some(v) => {
            if same(v, "active") {
                return Ok(());
            }
            if same(v, "revoked") {
                return Err(
                    CliError::attestation_revoked(
                        &join4(who, ": '", handle, "' attestation is revoked"),
                    ),
                );
            }
            if same(v, "expired") {
                return Err(
                    CliError::attestation_expired(
                        &join4(who, ": '", handle, "' attestation is expired"),
                    ),
                );
            }
        },
        None => {},
    }
    Err(
        CliError::invalid_data(
            &join3(who, ": attestation has unknown status ", &show_debug(status)),
        ),
    )
}

/// The attestation must be about this very account and handle.
pub open spec fn subject_checked(
    attestation: JsonTree,
    account_id: Seq<char>,
    handle: Seq<char>,
    who: Seq<char>,
) -> Result<(), ErrorView> {
    match (
        attestation.text_field("subject_account_id"@),
        attestation.text_field("subject_handle"@),
    ) {
        (None, _) => Err(ErrorView::invalid_data("attestation missing subject_account_id"@)),
        (Some(account), subject) => if !same_but_case(account, account_id) {
            Err(
                ErrorView::transparency_violation(
                    who
                        + ": attestation subject is a DIFFERENT account than the directory row: substitution"@,
                ),
            )
        } else {
            match subject {
                None => Err(
                    ErrorView::transparency_violation(
                        who
                            + ": attestation carries no subject_handle: refusing (the §9 schema guarantees the field)"@,
                    ),
                ),
                Some(h) => if h != handle {
                    Err(
                        ErrorView::transparency_violation(
                            who + ": attestation subject handle '"@ + h + "' does not match '"@
                                + handle + "'"@,
                        ),
                    )
                } else {
                    Ok(())
                },
            }
        },
    }
}

fn check_subject(attestation: &Json, account_id: &str, handle: &str, who: &str) -> (r: Result<
    (),
    CliError,
>)
    ensures
        outcome(r) == subject_checked(attestation@, account_id@, handle@, who@),
{
    match attestation.get_str("subject_account_id") {
        None => return Err(CliError::invalid_data("attestation missing subject_account_id")),
        Some(account) => {
            if !eq_ignore_ascii_case(account, account_id) {
                return Err(
                    CliError::transparency_violation(
                        &join2(
                            who,
                            ": attestation subject is a DIFFERENT account than the directory row: substitution",
                        ),
                    ),
                );
            }
        },
    }
    match attestation.get_str("subject_handle") {
        None => Err(
            CliError::transparency_violation(
                &join2(
                    who,
                    ": attestation carries no subject_handle: refusing (the §9 schema guarantees the field)",
                ),
            ),
        ),
        Some(h) => if same(h, handle) {
            Ok(())
        } else {
            let mut m = join4(who, ": attestation subject handle '", h, "' does not match '");
            m.append(handle);
            m.append("'");
            Err(CliError::transparency_violation(&m))
        },
    }
}

/// The two attested keys; the ML-KEM half is required.
pub open spec fn attested_pair(
    attestation: JsonTree,
    handle: Seq<char>,
    who: Seq<char>,
) -> Result<(Seq<u8>, Seq<u8>), ErrorView> {
    match decoded_field(attestation, "subject_kem_pubkey"@, who) {
        Err(e) => Err(e),
        Ok(kem) => match attestation.text_field("subject_kem_pq_pubkey"@) {
            None => Err(
                ErrorView::transparency_violation(
                    who + ": '"@ + handle
                        + "' attestation carries no ML-KEM key: refusing a classical-only wrap (mandatory hybrid write, PQR §9.2)"@,
                ),
            ),
            Some(text) => match base64url_bytes(text) {
                None => Err(
                    ErrorView::invalid_data(who + " attested ML-KEM key base64url"@),
                ),
                Some(kem_pq) => Ok((kem, kem_pq)),
            },
        },
    }
}

/// The bytes of a base64url field.
pub open spec fn decoded_field(object: JsonTree, field: Seq<char>, who: Seq<char>) -> Result<
    Seq<u8>,
    ErrorView,
> {
    match object.text_field(field) {
        None => Err(ErrorView::invalid_data(who + ": missing "@ + field)),
        Some(text) => match base64url_bytes(text) {
            None => Err(ErrorView::invalid_data(who + ": "@ + field + " base64url"@)),
            Some(b) => Ok(b),
        },
    }
}

/// The bytes of a base64url field.
pub fn decode_b64(object: &Json, field: &str, who: &str) -> (r: Result<Vec<u8>, CliError>)
    ensures
        outcome(r) == decoded_field(object@, field@, who@),
{
    match object.get_str(field) {
        None => Err(CliError::invalid_data(&join3(who, ": missing ", field))),
        Some(text) => match base64url_decode(text) {
            None => Err(CliError::invalid_data(&join4(who, ": ", field, " base64url"))),
            Some(b) => Ok(b),
        },
    }
}

fn attested_keys(attestation: &Json, handle: &str, who: &str) -> (r: Result<
    (Vec<u8>, Vec<u8>),
    CliError,
>)
    ensures
        outcome(r) == attested_pair(attestation@, handle@, who@),
{
    let kem = match decode_b64(attestation, "subject_kem_pubkey", who) {
        Err(e) => return Err(e),
        Ok(k) => k,
    };
    match attestation.get_str("subject_kem_pq_pubkey") {
        None => Err(
            CliError::transparency_violation(
                &join4(
                    who,
                    ": '",
                    handle,
                    "' attestation carries no ML-KEM key: refusing a classical-only wrap (mandatory hybrid write, PQR §9.2)",
                ),
            ),
        ),
        Some(text) => match base64url_decode(text) {
            None => Err(CliError::invalid_data(&join2(who, " attested ML-KEM key base64url"))),
            Some(kem_pq) => Ok((kem, kem_pq)),
        },
    }
}

/// The attested pair against its own commitment and against the directory's keys.
pub open spec fn pair_checked(
    attestation: JsonTree,
    kem: Seq<u8>,
    kem_pq: Seq<u8>,
    bundle_keys: WrapKeys,
    found: Findings,
    who: Seq<char>,
) -> Flow<()> {
    match found.pair_commitment {
        None => Flow::Ask(Asked::PairCommitment { kem, kem_pq }),
        Some(None) => Flow::Fail(
            ErrorView::invalid_data(who + " attested KEM keys non-canonical"@),
        ),
        Some(Some(commitment)) => match attestation.text_field("rfp"@) {
            None => Flow::Fail(
                ErrorView::transparency_violation(
                    who + ": hybrid attestation carries no rfp pair-commitment"@,
                ),
            ),
            Some(committed) => if committed != commitment {
                Flow::Fail(
                    ErrorView::transparency_violation(
                        who
                            + ": recomputed rfp does not match the attestation's pair-commitment"@,
                    ),
                )
            } else if bundle_keys.rk_ec != kem || bundle_keys.rk_pq != Some(kem_pq) {
                Flow::Fail(
                    ErrorView::transparency_violation(
                        who
                            + ": directory bundle keys differ from the attested keys: substitution"@,
                    ),
                )
            } else {
                Flow::Go(())
            },
        },
    }
}

fn check_pair(
    attestation: &Json,
    kem: Vec<u8>,
    kem_pq: Vec<u8>,
    bundle_keys: &RecipientWrapKeys,
    answers: &Answers,
    who: &str,
) -> (g: Gate<()>)
    ensures
        flow(g) == pair_checked(attestation@, kem@, kem_pq@, bundle_keys@, answers@, who@),
{
    let commitment = match &answers.pair_commitment {
        None => return Gate::Ask(Question::PairCommitment { kem, kem_pq }),
        Some(None) => return Gate::Fail(
            CliError::invalid_data(&join2(who, " attested KEM keys non-canonical")),
        ),
        Some(Some(c)) => c,
    };
    match attestation.get_str("rfp") {
        None => return Gate::Fail(
            CliError::transparency_violation(
                &join2(who, ": hybrid attestation carries no rfp pair-commitment"),
            ),
        ),
        Some(committed) => {
            if !same(committed, commitment) {
                return Gate::Fail(
                    CliError::transparency_violation(
                        &join2(
                            who,
                            ": recomputed rfp does not match the attestation's pair-commitment",
                        ),
                    ),
                );
            }
        },
    }
    let pq_same = match &bundle_keys.rk_pq {
        Some(k) => same_bytes(k, &kem_pq),
        None => false,
    };
    if !same_bytes(&bundle_keys.rk_ec, &kem) || !pq_same {
        return Gate::Fail(
            CliError::transparency_violation(
                &join2(
                    who,
                    ": directory bundle keys differ from the attested keys: substitution",
                ),
            ),
        );
    }
    Gate::Go(())
}

/// A verified attestation against the recipient: status, subject, keys, in that order.
pub open spec fn attestation_checked(
    attestation: JsonTree,
    bundle_keys: WrapKeys,
    account_id: Seq<char>,
    handle: Seq<char>,
    found: Findings,
    who: Seq<char>,
) -> Flow<()> {
    match status_checked(attestation, handle, who) {
        Err(e) => Flow::Fail(e),
        Ok(()) => match subject_checked(attestation, account_id, handle, who) {
            Err(e) => Flow::Fail(e),
            Ok(()) => match attested_pair(attestation, handle, who) {
                Err(e) => Flow::Fail(e),
                Ok((kem, kem_pq)) => pair_checked(
                    attestation,
                    kem,
                    kem_pq,
                    bundle_keys,
                    found,
                    who,
                ),
            },
        },
    }
}

/// Where the attestation-verification response of `attestation_id` is published.
pub open spec fn verification_url(server_url: Seq<char>, attestation_id: Seq<char>) -> Seq<char> {
    server_url + "/v1/attestations/"@ + attestation_id + "/verification"@
}

/// A PRSN's keys against its attestation-verification response.
pub open spec fn attested(
    trust: JsonTree,
    server_url: Seq<char>,
    bundle: JsonTree,
    bundle_keys: WrapKeys,
    account_id: Seq<char>,
    handle: Seq<char>,
    found: Findings,
    who: Seq<char>,
) -> Flow<()> {
    match bundle.text_field("attestation_id"@) {
        None => Flow::Fail(
            ErrorView::transparency_violation(
                who + ": '"@ + handle
                    + "' is a PRSN but its bundle names no attestation: cannot verified-source the wrap keys"@,
            ),
        ),
        Some(id) => match found.verification {
            None => Flow::Ask(Asked::Verification { url: verification_url(server_url, id) }),
            Some(Err(e)) => Flow::Fail(e),
            Some(Ok(response)) => match verified_response(
                trust,
                server_url,
                response,
                found,
                who,
            ) {
                Flow::Ask(q) => Flow::Ask(q),
                Flow::Fail(e) => Flow::Fail(e),
                Flow::Go(attestation) => attestation_checked(
                    attestation,
                    bundle_keys,
                    account_id,
                    handle,
                    found,
                    who,
                ),
            },
        },
    }
}

/// Hold a PRSN's keys against its attestation-verification response.
pub fn verify_against_attestation(
    trust: &ServerTrust,
    server_url: &str,
    bundle: &Json,
    bundle_keys: &RecipientWrapKeys,
    account_id: &str,
    handle: &str,
    answers: &Answers,
    who: &str,
) -> (g: Gate<()>)
    ensures
        flow(g) == attested(
            trust@,
            server_url@,
            bundle@,
            bundle_keys@,
            account_id@,
            handle@,
            answers@,
            who@,
        ),
{
    let id = match bundle.get_str("attestation_id") {
        None => return Gate::Fail(
            CliError::transparency_violation(
                &join4(
                    who,
                    ": '",
                    handle,
                    "' is a PRSN but its bundle names no attestation: cannot verified-source the wrap keys",
                ),
            ),
        ),
        Some(id) => id,
    };
    let response = match &answers.verification {
        None => return Gate::Ask(
            Question::Verification {
                url: join4(server_url, "/v1/attestations/", id, "/verification"),
            },
        ),
        Some(Err(e)) => return Gate::Fail(e.copy()),
        Some(Ok(r)) => r,
    };
    let attestation = match verify_verification_response(
        trust,
        server_url,
        response,
        answers,
        who,
    ) {
        Gate::Ask(q) => return Gate::Ask(q),
        Gate::Fail(e) => return Gate::Fail(e),
        Gate::Go(a) => a,
    };
    match check_status(attestation, handle, who) {
        Err(e) => return Gate::Fail(e),
        Ok(()) => {},
    }
    match check_subject(attestation, account_id, handle, who) {
        Err(e) => return Gate::Fail(e),
        Ok(()) => {},
    }
    match attested_keys(attestation, handle, who) {
        Err(e) => Gate::Fail(e),
        Ok((kem, kem_pq)) => check_pair(attestation, kem, kem_pq, bundle_keys, answers, who),
    }
}

/// Where the log receipt of a fingerprint is published.
pub open spec fn receipt_url(server_url: Seq<char>, fingerprint: Seq<char>, half: Half) -> Seq<
    char,
> {
    server_url + "/v1/transparency/log/receipt?fingerprint="@ + fingerprint + "&purpose="@
        + half.name()
}

/// One half's log receipt: fetched, its own signer resolved, and verified for this account.
pub open spec fn receipt_checked(
    trust: JsonTree,
    server_url: Seq<char>,
    half: Half,
    fingerprint: Seq<char>,
    account_id: Seq<char>,
    pq_key: Seq<u8>,
    found: ReceiptFindings,
    who: Seq<char>,
) -> Flow<()> {
    match found.receipt {
        None => Flow::Ask(
            Asked::Receipt { half, url: receipt_url(server_url, fingerprint, half) },
        ),
        Some(Err(e)) => Flow::Fail(
            ErrorView::transparency_violation(
                who + ": no verifiable "@ + half.name() + " log receipt for the offered key ("@
                    + e.line() + "); an unlogged key is not a wrap target"@,
            ),
        ),
        Some(Ok(receipt)) => match receipt.text_field("server_key_id"@) {
            None => Flow::Fail(
                ErrorView::transparency_violation("receipt missing server_key_id"@),
            ),
            Some(key_id) => match resolved_key(
                trust,
                Asked::ReceiptSignerInfo { half, url: info_url(server_url) },
                found.signer_info,
                key_id,
            ) {
                Flow::Ask(q) => Flow::Ask(q),
                Flow::Fail(e) => Flow::Fail(e),
                Flow::Go(server_key) => match found.checked {
                    None => Flow::Ask(
                        Asked::ReceiptCheck { half, fingerprint, account_id, server_key, pq_key },
                    ),
                    Some(Err(e)) => Flow::Fail(e),
                    Some(Ok(())) => Flow::Go(()),
                },
            },
        },
    }
}

fn check_receipt(
    trust: &ServerTrust,
    server_url: &str,
    half: Half,
    fingerprint: &str,
    account_id: &str,
    pq_key: &Vec<u8>,
    answers: &ReceiptAnswers,
    who: &str,
) -> (g: Gate<()>)
    ensures
        flow(g) == receipt_checked(
            trust@,
            server_url@,
            half,
            fingerprint@,
            account_id@,
            pq_key@,
            answers@,
            who@,
        ),
{
    let receipt = match &answers.receipt {
        None => return Gate::Ask(
            Question::Receipt {
                half,
                url: join5(
                    server_url,
                    "/v1/transparency/log/receipt?fingerprint=",
                    fingerprint,
                    "&purpose=",
                    half.purpose(),
                ),
            },
        ),
        Some(Err(e)) => {
            let mut m = join4(
                who,
                ": no verifiable ",
                half.purpose(),
                " log receipt for the offered key (",
            );
            m.append(&e.to_line());
            m.append("); an unlogged key is not a wrap target");
            return Gate::Fail(CliError::transparency_violation(&m));
        },
        Some(Ok(r)) => r,
    };
    let key_id = match receipt.get_str("server_key_id") {
        None => return Gate::Fail(
            CliError::transparency_violation("receipt missing server_key_id"),
        ),
        Some(id) => id,
    };
    let refetch = Question::ReceiptSignerInfo { half, url: server_info_url(server_url) };
    let server_key = match trust.key_by_id(refetch, &answers.signer_info, key_id) {
        Gate::Ask(q) => return Gate::Ask(q),
        Gate::Fail(e) => return Gate::Fail(e),
        Gate::Go(k) => k,
    };
    match &answers.checked {
        None => Gate::Ask(
            Question::ReceiptCheck {
                half,
                fingerprint: fingerprint.to_owned(),
                account_id: account_id.to_owned(),
                server_key,
                pq_key: copy_bytes(pq_key),
            },
        ),
        Some(Err(e)) => Gate::Fail(e.copy()),
        Some(Ok(())) => Gate::Go(()),
    }
}

/// A human's keys against the log receipts of both halves, the classical one first.
pub open spec fn logged(
    trust: JsonTree,
    server_url: Seq<char>,
    bundle: JsonTree,
    account_id: Seq<char>,
    found: Findings,
    who: Seq<char>,
) -> Flow<()> {
    match (
        bundle.text_field("kem_pubkey_fingerprint"@),
        bundle.text_field("kem_pq_pubkey_fingerprint"@),
        active_pq(trust),
    ) {
        (None, _, _) => Flow::Fail(
            ErrorView::invalid_data(who + " bundle missing KEM fingerprint"@),
        ),
        (_, None, _) => Flow::Fail(
            ErrorView::invalid_data(who + " bundle missing ML-KEM fingerprint"@),
        ),
        (_, _, Err(e)) => Flow::Fail(e),
        (Some(fp_ec), Some(fp_pq), Ok(pq_key)) => match receipt_checked(
            trust,
            server_url,
            Half::Kem,
            fp_ec,
            account_id,
            pq_key,
            found.kem,
            who,
        ) {
            Flow::Ask(q) => Flow::Ask(q),
            Flow::Fail(e) => Flow::Fail(e),
            Flow::Go(()) => receipt_checked(
                trust,
                server_url,
                Half::KemPq,
                fp_pq,
                account_id,
                pq_key,
                found.kem_pq,
                who,
            ),
        },
    }
}

/// Hold a human's keys against the log receipts of both halves.
pub fn verify_against_receipts(
    trust: &ServerTrust,
    server_url: &str,
    bundle: &Json,
    account_id: &str,
    answers: &Answers,
    who: &str,
) -> (g: Gate<()>)
    ensures
        flow(g) == logged(trust@, server_url@, bundle@, account_id@, answers@, who@),
{
    let fp_ec = match bundle.get_str("kem_pubkey_fingerprint") {
        None => return Gate::Fail(
            CliError::invalid_data(&join2(who, " bundle missing KEM fingerprint")),
        ),
        Some(f) => f,
    };
    let fp_pq = match bundle.get_str("kem_pq_pubkey_fingerprint") {
        None => return Gate::Fail(
            CliError::invalid_data(&join2(who, " bundle missing ML-KEM fingerprint")),
        ),
        Some(f) => f,
    };
    let pq_key = match trust.active_pq_key() {
        Err(e) => return Gate::Fail(e),
        Ok(k) => k,
    };
    match check_receipt(
        trust,
        server_url,
        Half::Kem,
        fp_ec,
        account_id,
        &pq_key,
        &answers.kem,
        who,
    ) {
        Gate::Ask(q) => return Gate::Ask(q),
        Gate::Fail(e) => return Gate::Fail(e),
        Gate::Go(()) => {},
    }
    check_receipt(
        trust,
        server_url,
        Half::KemPq,
        fp_pq,
        account_id,
        &pq_key,
        &answers.kem_pq,
        who,
    )
}

/// The handle a bundle answers for, which must be the one that was asked for.
pub open spec fn identified(bundle: JsonTree, pinned: Option<Seq<char>>, who: Seq<char>) -> Result<
    Seq<char>,
    ErrorView,
> {
    match bundle.text_field("handle"@) {
        None => Err(
            ErrorView::transparency_violation(
                who
                    + ": recipient bundle carries no handle: cannot classify for verified-source key resolution"@,
            ),
        ),
        Some(handle) => match pinned {
            Some(expected) => if handle != expected {
                Err(
                    ErrorView::transparency_violation(
                        who + ": asked the directory for '"@ + expected
                            + "' but the bundle answers for '"@ + handle
                            + "'; refusing (substitution)"@,
                    ),
                )
            } else {
                Ok(handle)
            },
            None => Ok(handle),
        },
    }
}

/// Whether a handle is a PRSN's.
pub open spec fn is_prsn(handle: Seq<char>) -> bool {
    "-ai"@.is_suffix_of(handle)
}

/// The account a bundle is about, once the server's own claim of its kind agrees.
pub open spec fn classified(bundle: JsonTree, handle: Seq<char>, who: Seq<char>) -> Result<
    Seq<char>,
    ErrorView,
> {
    let claimed = bundle.text_field("account_type"@);
    if claimed is Some && (claimed->0 == "prsn"@) != is_prsn(handle) {
        Err(
            ErrorView::transparency_violation(
                who + ": the server calls '"@ + handle + "' a "@ + claimed->0
                    + ", but the handle says otherwise (PRSN handles end in -ai); refusing"@,
            ),
        )
    } else {
        let account = match bundle.field("account_id"@) {
            Some(JsonTree::Text(s)) => Some(s),
            Some(_) => None,
            None => bundle.text_field("recipient_account_id"@),
        };
        match account {
            Some(id) => Ok(id),
            None => Err(
                ErrorView::transparency_violation(
                    who
                        + ": recipient bundle carries no account id: cannot bind the keys to an identity record"@,
                ),
            ),
        }
    }
}

/// The whole decision: identity first, keys second, then the identity record.
pub open spec fn wrap_keys_verified(
    trust: JsonTree,
    server_url: Seq<char>,
    bundle: JsonTree,
    pinned: Option<Seq<char>>,
    found: Findings,
    who: Seq<char>,
) -> Flow<WrapKeys> {
    match identified(bundle, pinned, who) {
        Err(e) => Flow::Fail(e),
        Ok(handle) => match found.bundle_keys {
            None => Flow::Ask(Asked::BundleKeys),
            Some(Err(e)) => Flow::Fail(e),
            Some(Ok(keys)) => match classified(bundle, handle, who) {
                Err(e) => Flow::Fail(e),
                Ok(account_id) => {
                    let checked = if is_prsn(handle) {
                        attested(
                            trust,
                            server_url,
                            bundle,
                            keys,
                            account_id,
                            handle,
                            found,
                            who,
                        )
                    } else {
                        logged(trust, server_url, bundle, account_id, found, who)
                    };
                    match checked {
                        Flow::Ask(q) => Flow::Ask(q),
                        Flow::Fail(e) => Flow::Fail(e),
                        Flow::Go(()) => Flow::Go(keys),
                    }
                },
            },
        },
    }
}

fn identify<'a>(bundle: &'a Json, expectation: HandleExpectation<'_>, who: &str) -> (r: Result<
    &'a str,
    CliError,
>)
    ensures
        outcome(r) == identified(bundle@, expectation.pinned(), who@),
{
    let handle = match bundle.get_str("handle") {
        None => return Err(
            CliError::transparency_violation(
                &join2(
                    who,
                    ": recipient bundle carries no handle: cannot classify for verified-source key resolution",
                ),
            ),
        ),
        Some(h) => h,
    };
    match expectation {
        HandleExpectation::UserNamed(expected) => {
            if !same(handle, expected) {
                let mut m = join4(
                    who,
                    ": asked the directory for '",
                    expected,
                    "' but the bundle answers for '",
                );
                m.append(handle);
                m.append("'; refusing (substitution)");
                return Err(CliError::transparency_violation(&m));
            }
        },
        HandleExpectation::ServerListed => {},
    }
    Ok(handle)
}

fn classify<'a>(bundle: &'a Json, handle: &str, who: &str) -> (r: Result<&'a str, CliError>)
    ensures
        outcome(r) == classified(bundle@, handle@, who@),
{
    match bundle.get_str("account_type") {
        Some(claimed) => {
            if same(claimed, "prsn") != ends_with(handle, "-ai") {
                let mut m = join5(who, ": the server calls '", handle, "' a ", claimed);
                m.append(
                    ", but the handle says otherwise (PRSN handles end in -ai); refusing",
                );
                return Err(CliError::transparency_violation(&m));
            }
        },
        None => {},
    }
    let account = match bundle.get("account_id") {
        Some(Json::Text(s)) => Some(s.as_str()),
        Some(_) => None,
        None => bundle.get_str("recipient_account_id"),
    };
    match account {
        Some(id) => Ok(id),
        None => Err(
            CliError::transparency_violation(
                &join2(
                    who,
                    ": recipient bundle carries no account id: cannot bind the keys to an identity record",
                ),
            ),
        ),
    }
}

/// Resolve and fully verify a third-party recipient's wrap keys, as far as the answers in
/// hand go.
pub fn verified_wrap_keys(
    trust: &ServerTrust,
    server_url: &str,
    bundle: &Json,
    expectation: HandleExpectation<'_>,
    answers: &Answers,
    who: &str,
) -> (g: Gate<RecipientWrapKeys>)
    ensures
        flow(g) == wrap_keys_verified(
            trust@,
            server_url@,
            bundle@,
            expectation.pinned(),
            answers@,
            who@,
        ),
{
    let handle = match identify(bundle, expectation, who) {
        Err(e) => return Gate::Fail(e),
        Ok(h) => h,
    };
    let keys = match &answers.bundle_keys {
        None => return Gate::Ask(Question::BundleKeys),
        Some(Err(e)) => return Gate::Fail(e.copy()),
        Some(Ok(k)) => k,
    };
    let account_id = match classify(bundle, handle, who) {
        Err(e) => return Gate::Fail(e),
        Ok(id) => id,
    };
    let checked = if ends_with(handle, "-ai") {
        verify_against_attestation(
            trust,
            server_url,
            bundle,
            keys,
            account_id,
            handle,
            answers,
            who,
        )
    } else {
        verify_against_receipts(trust, server_url, bundle, account_id, answers, who)
    };
    match checked {
        Gate::Ask(q) => Gate::Ask(q),
        Gate::Fail(e) => Gate::Fail(e),
        Gate::Go(()) => Gate::Go(keys.copy()),
    }
}

/// Keys are accepted only for the handle that was typed, where one was, and only as the
/// bundle-shape checks handed them over.
pub proof fn accepted_keys_are_the_pinned_recipients(
    trust: JsonTree,
    server_url: Seq<char>,
    bundle: JsonTree,
    pinned: Option<Seq<char>>,
    found: Findings,
    who: Seq<char>,
)
    ensures
        wrap_keys_verified(trust, server_url, bundle, pinned, found, who) matches Flow::Go(keys)
            ==> {
            &&& found.bundle_keys == Some(Ok::<WrapKeys, ErrorView>(keys))
            &&& bundle.text_field("handle"@) is Some
            &&& pinned is Some ==> bundle.text_field("handle"@) == pinned
        },
{
}

/// A PRSN's keys are accepted only when both server signatures verified over the canonical
/// bytes, the receipts are fully verified, the attestation is active and about this very
/// account and handle, its pair-commitment holds, and the keys are the attested ones.
pub proof fn accepted_prsn_keys_are_attested(
    trust: JsonTree,
    server_url: Seq<char>,
    bundle: JsonTree,
    pinned: Option<Seq<char>>,
    found: Findings,
    who: Seq<char>,
)
    requires
        wrap_keys_verified(trust, server_url, bundle, pinned, found, who) is Go,
        is_prsn(bundle.text_field("handle"@)->0),
    ensures
        ({
            let keys = wrap_keys_verified(trust, server_url, bundle, pinned, found, who)->Go_0;
            let response = found.verification->0->Ok_0;
            let attestation = signed_head(response)->Ok_0.attestation;
            &&& found.verification is Some && found.verification->0 is Ok
            &&& signed_head(response) is Ok
            &&& found.es256 == Some(true)
            &&& found.mldsa87 is Some && found.mldsa87->0 is Ok
            &&& found.inline_receipts == Some(Ok::<Seq<char>, ErrorView>("verified"@))
            &&& attestation.text_field("status"@) == Some("active"@)
            &&& attestation.text_field("subject_handle"@) == bundle.text_field("handle"@)
            &&& attestation.text_field("subject_account_id"@) is Some
            &&& found.pair_commitment == Some(attestation.text_field("rfp"@))
            &&& attestation.text_field("subject_kem_pubkey"@) is Some
            &&& attestation.text_field("subject_kem_pq_pubkey"@) is Some
            &&& base64url_bytes(attestation.text_field("subject_kem_pubkey"@)->0) == Some(
                keys.rk_ec,
            )
            &&& base64url_bytes(attestation.text_field("subject_kem_pq_pubkey"@)->0) is Some
            &&& keys.rk_pq == base64url_bytes(
                attestation.text_field("subject_kem_pq_pubkey"@)->0,
            )
        }),
{
}

/// A human's keys are accepted only when the log receipts of both halves verified.
pub proof fn accepted_human_keys_are_logged(
    trust: JsonTree,
    server_url: Seq<char>,
    bundle: JsonTree,
    pinned: Option<Seq<char>>,
    found: Findings,
    who: Seq<char>,
)
    requires
        wrap_keys_verified(trust, server_url, bundle, pinned, found, who) is Go,
        !is_prsn(bundle.text_field("handle"@)->0),
    ensures
        found.kem.checked is Some && found.kem.checked->0 is Ok,
        found.kem_pq.checked is Some && found.kem_pq.checked->0 is Ok,
        active_pq(trust) is Ok,
{
}

/// The server's account type cannot route a recipient around its own kind of record.
pub proof fn a_contradicted_handle_is_refused(
    trust: JsonTree,
    server_url: Seq<char>,
    bundle: JsonTree,
    pinned: Option<Seq<char>>,
    found: Findings,
    who: Seq<char>,
)
    requires
        bundle.text_field("handle"@) is Some,
        bundle.text_field("account_type"@) is Some,
        (bundle.text_field("account_type"@)->0 == "prsn"@) != is_prsn(
            bundle.text_field("handle"@)->0,
        ),
    ensures
        !(wrap_keys_verified(trust, server_url, bundle, pinned, found, who) is Go),
{
}

/// What there is to find out about a recipient: the answer to each question that may be asked.
pub struct World {
    /// What the bundle-shape checks make of the bundle.
    pub bundle_keys: Result<WrapKeys, ErrorView>,
    /// What is served where a question that names a URL asks.
    pub served: spec_fn(Asked) -> Result<JsonTree, ErrorView>,
    /// The bytes that a server key signs at a time for the response's attestation.
    pub canonical: spec_fn(Seq<char>, int) -> Option<Seq<u8>>,
    /// Whether an ES256 signature verifies, by key, message and signature.
    pub es256: spec_fn(Seq<u8>, Seq<u8>, Seq<u8>) -> bool,
    /// Whether an ML-DSA-87 signature verifies, by key, message and signature.
    pub mldsa87: spec_fn(Seq<u8>, Seq<u8>, Seq<u8>) -> Result<(), ErrorView>,
    /// The state of the response's receipts under two server keys.
    pub inline_receipts: spec_fn(Seq<u8>, Seq<u8>) -> Result<Seq<char>, ErrorView>,
    /// The commitment to a pair of keys.
    pub commitment: spec_fn(Seq<u8>, Seq<u8>) -> Option<Seq<char>>,
    /// Whether a log receipt verifies for a fingerprint and an account under two server keys.
    pub receipt: spec_fn(Half, Seq<char>, Seq<char>, Seq<u8>, Seq<u8>) -> Result<(), ErrorView>,
}

/// A recipient that is looked up: all that a decision on its keys rests on besides the answers.
pub struct Lookup {
    pub trust: JsonTree,
    pub server_url: Seq<char>,
    pub bundle: JsonTree,
    pub pinned: Option<Seq<char>>,
    pub who: Seq<char>,
}

impl Lookup {
    /// Where the decision stands with these answers.
    pub open spec fn on(self, found: Findings) -> Flow<WrapKeys> {
        wrap_keys_verified(
            self.trust,
            self.server_url,
            self.bundle,
            self.pinned,
            found,
            self.who,
        )
    }

    /// Where the decision stands with `got` for what was found out about one half's receipt.
    pub open spec fn on_half(self, found: Findings, half: Half, got: ReceiptFindings) -> Flow<
        WrapKeys,
    > {
        match half {
            Half::Kem => self.on(Findings { kem: got, ..found }),
            Half::KemPq => self.on(Findings { kem_pq: got, ..found }),
        }
    }
}

impl Findings {
    /// What was found out about one half's receipt.
    pub open spec fn half(self, half: Half) -> ReceiptFindings {
        match half {
            Half::Kem => self.kem,
            Half::KemPq => self.kem_pq,
        }
    }
}

impl World {
    /// Whether what was found out about one half's receipt is what there is to find out: every
    /// answer in hand is the one to the question that is asked where it is missing.
    pub open spec fn answers_half(self, of: Lookup, found: Findings, half: Half) -> bool {
        let got = found.half(half);
        &&& got.receipt is Some ==> (of.on_half(
            found,
            half,
            ReceiptFindings { receipt: None, ..got },
        ) matches Flow::Ask(q) ==> q is Receipt ==> got.receipt->0 == (self.served)(q))
        &&& got.signer_info is Some ==> (of.on_half(
            found,
            half,
            ReceiptFindings { signer_info: None, ..got },
        ) matches Flow::Ask(q) ==> q is ReceiptSignerInfo ==> got.signer_info->0 == (
        self.served)(q))
        &&& got.checked is Some ==> (of.on_half(
            found,
            half,
            ReceiptFindings { checked: None, ..got },
        ) matches Flow::Ask(
            Asked::ReceiptCheck { half, fingerprint, account_id, server_key, pq_key },
        ) ==> got.checked->0 == (self.receipt)(
            half,
            fingerprint,
            account_id,
            server_key,
            pq_key,
        ))
    }

    /// Whether what was found out is what there is to find out: every answer in hand is the one
    /// to the question that is asked where it is missing.
    pub open spec fn answers(self, of: Lookup, found: Findings) -> bool {
        &&& found.bundle_keys is Some ==> found.bundle_keys->0 == self.bundle_keys
        &&& found.verification is Some ==> (of.on(
            Findings { verification: None, ..found },
        ) matches Flow::Ask(q) ==> q is Verification ==> found.verification->0 == (self.served)(
            q,
        ))
        &&& found.signing_input is Some ==> (of.on(
            Findings { signing_input: None, ..found },
        ) matches Flow::Ask(Asked::SigningInput { server_key_id, signed_at })
            ==> found.signing_input->0 == (self.canonical)(server_key_id, signed_at))
        &&& found.signer_info is Some ==> (of.on(
            Findings { signer_info: None, ..found },
        ) matches Flow::Ask(q) ==> q is SignerInfo ==> found.signer_info->0 == (self.served)(q))
        &&& found.es256 is Some ==> (of.on(
            Findings { es256: None, ..found },
        ) matches Flow::Ask(Asked::Es256 { key, message, signature }) ==> found.es256->0 == (
        self.es256)(key, message, signature))
        &&& found.pq_signer_info is Some ==> (of.on(
            Findings { pq_signer_info: None, ..found },
        ) matches Flow::Ask(q) ==> q is PqSignerInfo ==> found.pq_signer_info->0 == (
        self.served)(q))
        &&& found.mldsa87 is Some ==> (of.on(
            Findings { mldsa87: None, ..found },
        ) matches Flow::Ask(Asked::MlDsa87 { key, message, signature }) ==> found.mldsa87->0 == (
        self.mldsa87)(key, message, signature))
        &&& found.inline_receipts is Some ==> (of.on(
            Findings { inline_receipts: None, ..found },
        ) matches Flow::Ask(Asked::InlineReceipts { server_key, pq_key })
            ==> found.inline_receipts->0 == (self.inline_receipts)(server_key, pq_key))
        &&& found.pair_commitment is Some ==> (of.on(
            Findings { pair_commitment: None, ..found },
        ) matches Flow::Ask(Asked::PairCommitment { kem, kem_pq }) ==> found.pair_commitment->0
            == (self.commitment)(kem, kem_pq))
        &&& self.answers_half(of, found, Half::Kem)
        &&& self.answers_half(of, found, Half::KemPq)
    }

    /// Whether `key` is the server key with the id `key_id`: it is published in the info held,
    /// or, where that lists no key of this id, in the one served in answer to `refetch`.
    pub open spec fn server_key(
        self,
        trust: JsonTree,
        refetch: Asked,
        key_id: Seq<char>,
        key: Seq<u8>,
    ) -> bool {
        ||| key_with_id(trust, key_id) == Ok::<Option<Seq<u8>>, ErrorView>(Some(key))
        ||| key_with_id(trust, key_id) == Ok::<Option<Seq<u8>>, ErrorView>(None) && ((self.served)(
            refetch,
        ) matches Ok(info) && key_with_id(info, key_id) == Ok::<Option<Seq<u8>>, ErrorView>(
            Some(key),
        ))
    }

    /// Whether the attestation record of the PRSN `handle` with the account `account_id` vouches
    /// for `keys`: the response that is served for the bundle's attestation is signed by the two
    /// server keys it names, both over the canonical bytes of the response's own key id and time,
    /// its receipts are verified, and its attestation is active, about this account and handle,
    /// commits to its pair of keys, and these are `keys`.
    pub open spec fn attests(
        self,
        of: Lookup,
        account_id: Seq<char>,
        handle: Seq<char>,
        keys: WrapKeys,
    ) -> bool {
        let trust = of.trust;
        let info = of.server_url + "/v1/server-info"@;
        &&& of.bundle.text_field("attestation_id"@) matches Some(id)
        &&& (self.served)(
            Asked::Verification {
                url: of.server_url + "/v1/attestations/"@ + id + "/verification"@,
            },
        ) matches Ok(response)
        &&& response.text_field("server_key_id"@) matches Some(key_id)
        &&& response.integer_field("signed_at"@) matches Some(signed_at)
        &&& response.field("attestation"@) matches Some(attestation)
        &&& response.text_field("server_signature"@) matches Some(es)
        &&& base64url_bytes(es) matches Some(es)
        &&& response.text_field("server_signature_mldsa87"@) matches Some(pq)
        &&& base64url_bytes(pq) matches Some(pq)
        &&& (self.canonical)(key_id, signed_at) matches Some(signed)
        &&& exists|server_key: Seq<u8>, pq_key: Seq<u8>|
            {
                &&& #[trigger] self.server_key(
                    trust,
                    Asked::SignerInfo { url: info },
                    key_id,
                    server_key,
                )
                &&& match response.text_field("server_pq_key_id"@) {
                    Some(pq_id) => self.server_key(
                        trust,
                        Asked::PqSignerInfo { url: info },
                        pq_id,
                        pq_key,
                    ),
                    None => active_pq(trust) == Ok::<Seq<u8>, ErrorView>(pq_key),
                }
                &&& (self.es256)(server_key, signed, es)
                &&& (self.mldsa87)(pq_key, signed, pq) is Ok
                &&& #[trigger] (self.inline_receipts)(server_key, pq_key) == Ok::<
                    Seq<char>,
                    ErrorView,
                >("verified"@)
            }
        &&& attestation.text_field("status"@) == Some("active"@)
        &&& attestation.text_field("subject_account_id"@) matches Some(subject)
        &&& same_but_case(subject, account_id)
        &&& attestation.text_field("subject_handle"@) == Some(handle)
        &&& attestation.text_field("subject_kem_pubkey"@) matches Some(kem)
        &&& base64url_bytes(kem) == Some(keys.rk_ec)
        &&& attestation.text_field("subject_kem_pq_pubkey"@) matches Some(kem_pq)
        &&& base64url_bytes(kem_pq) matches Some(kem_pq)
        &&& keys.rk_pq == Some(kem_pq)
        &&& attestation.text_field("rfp"@) is Some
        &&& attestation.text_field("rfp"@) == (self.commitment)(keys.rk_ec, kem_pq)
    }

    /// Whether the log vouches for one half of a human's keys: the receipt that is served for the
    /// bundle's fingerprint of that half, which stands in `field`, and for the half's purpose
    /// verifies for this fingerprint and the account `account_id`, under the server key it names
    /// and the active ML-DSA-87 key.
    pub open spec fn logs(
        self,
        of: Lookup,
        account_id: Seq<char>,
        half: Half,
        field: Seq<char>,
        purpose: Seq<char>,
    ) -> bool {
        &&& of.bundle.text_field(field) matches Some(fingerprint)
        &&& active_pq(of.trust) matches Ok(pq_key)
        &&& (self.served)(
            Asked::Receipt {
                half,
                url: of.server_url + "/v1/transparency/log/receipt?fingerprint="@ + fingerprint
                    + "&purpose="@ + purpose,
            },
        ) matches Ok(receipt)
        &&& receipt.text_field("server_key_id"@) matches Some(key_id)
        &&& exists|server_key: Seq<u8>| #[trigger]
            self.server_key(
                of.trust,
                Asked::ReceiptSignerInfo { half, url: of.server_url + "/v1/server-info"@ },
                key_id,
                server_key,
            ) && (self.receipt)(half, fingerprint, account_id, server_key, pq_key) is Ok
    }

    /// Whether the recipient's own identity record vouches for `keys`: the bundle answers for the
    /// handle that was asked for and says whose account it is; a handle that ends in `-ai`, which
    /// the server must then call a PRSN's, has its attestation record to vouch for the keys, any
    /// other the log receipts of both halves.
    pub open spec fn vouches(self, of: Lookup, keys: WrapKeys) -> bool {
        let bundle = of.bundle;
        &&& bundle.text_field("handle"@) matches Some(handle)
        &&& of.pinned is None || of.pinned == Some(handle)
        &&& self.bundle_keys == Ok::<WrapKeys, ErrorView>(keys)
        &&& bundle.text_field("account_type"@) matches Some(kind) ==> (kind == "prsn"@ <==>
            "-ai"@.is_suffix_of(handle))
        &&& account_of(bundle) matches Some(account_id)
        &&& if "-ai"@.is_suffix_of(handle) {
            self.attests(of, account_id, handle, keys)
        } else {
            &&& self.logs(of, account_id, Half::Kem, "kem_pubkey_fingerprint"@, "kem"@)
            &&& self.logs(of, account_id, Half::KemPq, "kem_pq_pubkey_fingerprint"@, "kem_pq"@)
        }
    }
}

/// The account that a bundle names: in `account_id`, or, where it has no such field, in
/// `recipient_account_id`.
pub open spec fn account_of(bundle: JsonTree) -> Option<Seq<char>> {
    if bundle.field("account_id"@) is Some {
        bundle.text_field("account_id"@)
    } else {
        bundle.text_field("recipient_account_id"@)
    }
}

proof fn attested_keys_are_vouched_for(w: World, of: Lookup, found: Findings)
    requires
        w.answers(of, found),
        of.on(found) is Go,
        is_prsn(of.bundle.text_field("handle"@)->0),
    ensures
        w.vouches(of, of.on(found)->Go_0),
{
    let keys = of.on(found)->Go_0;
    let id = of.bundle.text_field("attestation_id"@)->0;
    let response = found.verification->0->Ok_0;
    let head = signed_head(response)->Ok_0;
    let input = found.signing_input->0->0;
    let info = info_url(of.server_url);
    let signer = Asked::SignerInfo { url: info };
    let pq_signer = Asked::PqSignerInfo { url: info };
    let server_key = resolved_key(of.trust, signer, found.signer_info, head.server_key_id)->Go_0;
    let pq_key = response_pq_key(of.trust, of.server_url, response, found)->Go_0;
    assert(of.on(Findings { verification: None, ..found }) == Flow::<WrapKeys>::Ask(
        Asked::Verification { url: verification_url(of.server_url, id) },
    ));
    assert(of.on(Findings { signing_input: None, ..found }) == Flow::<WrapKeys>::Ask(
        Asked::SigningInput { server_key_id: head.server_key_id, signed_at: head.signed_at },
    ));
    assert(w.server_key(of.trust, signer, head.server_key_id, server_key)) by {
        if key_with_id(of.trust, head.server_key_id)->Ok_0 is None {
            assert(of.on(Findings { signer_info: None, ..found }) == Flow::<WrapKeys>::Ask(signer));
        }
    }
    assert(of.on(Findings { es256: None, ..found }) == Flow::<WrapKeys>::Ask(
        Asked::Es256 { key: server_key, message: input, signature: head.signature },
    ));
    let pq_id = response.text_field("server_pq_key_id"@);
    assert(pq_id is Some ==> w.server_key(of.trust, pq_signer, pq_id->0, pq_key)) by {
        if pq_id is Some && key_with_id(of.trust, pq_id->0)->Ok_0 is None {
            assert(of.on(Findings { pq_signer_info: None, ..found }) == Flow::<WrapKeys>::Ask(
                pq_signer,
            ));
        }
    }
    let pq = base64url_bytes(response.text_field("server_signature_mldsa87"@)->0)->0;
    assert(of.on(Findings { mldsa87: None, ..found }) == Flow::<WrapKeys>::Ask(
        Asked::MlDsa87 { key: pq_key, message: input, signature: pq },
    ));
    assert(of.on(Findings { inline_receipts: None, ..found }) == Flow::<WrapKeys>::Ask(
        Asked::InlineReceipts { server_key, pq_key },
    ));
    assert(of.on(Findings { pair_commitment: None, ..found }) == Flow::<WrapKeys>::Ask(
        Asked::PairCommitment { kem: keys.rk_ec, kem_pq: keys.rk_pq->0 },
    ));
}

proof fn logged_keys_are_vouched_for(w: World, of: Lookup, found: Findings, half: Half)
    requires
        w.answers(of, found),
        of.on(found) is Go,
        !is_prsn(of.bundle.text_field("handle"@)->0),
    ensures
        half is Kem ==> w.logs(
            of,
            account_of(of.bundle)->0,
            half,
            "kem_pubkey_fingerprint"@,
            "kem"@,
        ),
        half is KemPq ==> w.logs(
            of,
            account_of(of.bundle)->0,
            half,
            "kem_pq_pubkey_fingerprint"@,
            "kem_pq"@,
        ),
{
    let account_id = account_of(of.bundle)->0;
    let got = found.half(half);
    let fingerprint = if half is Kem {
        of.bundle.text_field("kem_pubkey_fingerprint"@)->0
    } else {
        of.bundle.text_field("kem_pq_pubkey_fingerprint"@)->0
    };
    let pq_key = active_pq(of.trust)->Ok_0;
    let receipt = got.receipt->0->Ok_0;
    let key_id = receipt.text_field("server_key_id"@)->0;
    let signer = Asked::ReceiptSignerInfo { half, url: info_url(of.server_url) };
    let server_key = resolved_key(of.trust, signer, got.signer_info, key_id)->Go_0;
    assert(of.on_half(found, half, ReceiptFindings { receipt: None, ..got }) == Flow::<
        WrapKeys,
    >::Ask(Asked::Receipt { half, url: receipt_url(of.server_url, fingerprint, half) }));
    assert(w.server_key(of.trust, signer, key_id, server_key)) by {
        if key_with_id(of.trust, key_id)->Ok_0 is None {
            assert(of.on_half(found, half, ReceiptFindings { signer_info: None, ..got })
                == Flow::<WrapKeys>::Ask(signer));
        }
    }
    assert(of.on_half(found, half, ReceiptFindings { checked: None, ..got }) == Flow::<
        WrapKeys,
    >::Ask(Asked::ReceiptCheck { half, fingerprint, account_id, server_key, pq_key }));
}

/// Keys are accepted only where the recipient's own identity record vouches for them, whatever
/// else may be served.
pub proof fn accepted_keys_are_vouched_for(w: World, of: Lookup, found: Findings)
    requires
        w.answers(of, found),
    ensures
        of.on(found) matches Flow::Go(keys) ==> w.vouches(of, keys),
{
    if of.on(found) is Go && is_prsn(of.bundle.text_field("handle"@)->0) {
        attested_keys_are_vouched_for(w, of, found);
    } else if of.on(found) is Go {
        logged_keys_are_vouched_for(w, of, found, Half::Kem);
        logged_keys_are_vouched_for(w, of, found, Half::KemPq);
    }
}

proof fn attested_keys_are_accepted(w: World, of: Lookup, found: Findings, keys: WrapKeys)
    requires
        w.answers(of, found),
        w.vouches(of, keys),
        is_prsn(of.bundle.text_field("handle"@)->0),
        !(of.on(found) is Ask),
    ensures
        of.on(found) == Flow::Go(keys),
{
    let handle = of.bundle.text_field("handle"@)->0;
    let id = of.bundle.text_field("attestation_id"@)->0;
    let info = info_url(of.server_url);
    let signer = Asked::SignerInfo { url: info };
    let pq_signer = Asked::PqSignerInfo { url: info };
    assert(found.bundle_keys == Some(Ok::<WrapKeys, ErrorView>(keys)));
    assert(classified(of.bundle, handle, of.who) is Ok);
    assert(found.verification is Some);
    assert(of.on(Findings { verification: None, ..found }) == Flow::<WrapKeys>::Ask(
        Asked::Verification { url: verification_url(of.server_url, id) },
    ));
    let response = found.verification->0->Ok_0;
    assert(signed_head(response) is Ok);
    let head = signed_head(response)->Ok_0;
    assert(found.signing_input is Some);
    assert(of.on(Findings { signing_input: None, ..found }) == Flow::<WrapKeys>::Ask(
        Asked::SigningInput { server_key_id: head.server_key_id, signed_at: head.signed_at },
    ));
    let input = (w.canonical)(head.server_key_id, head.signed_at)->0;
    assert(found.signing_input == Some(Some(input)));
    let pq_id = response.text_field("server_pq_key_id"@);
    let pq = base64url_bytes(response.text_field("server_signature_mldsa87"@)->0)->0;
    let (server_key, pq_key): (Seq<u8>, Seq<u8>) = choose|server_key: Seq<u8>, pq_key: Seq<u8>|
        {
            &&& #[trigger] w.server_key(of.trust, signer, head.server_key_id, server_key)
            &&& match pq_id {
                Some(pq_id) => w.server_key(of.trust, pq_signer, pq_id, pq_key),
                None => active_pq(of.trust) == Ok::<Seq<u8>, ErrorView>(pq_key),
            }
            &&& (w.es256)(server_key, input, head.signature)
            &&& (w.mldsa87)(pq_key, input, pq) is Ok
            &&& #[trigger] (w.inline_receipts)(server_key, pq_key) == Ok::<Seq<char>, ErrorView>(
                "verified"@,
            )
        };
    assert(w.server_key(of.trust, signer, head.server_key_id, server_key));
    if key_with_id(of.trust, head.server_key_id)->Ok_0 is None {
        assert(of.on(Findings { signer_info: None, ..found }) == Flow::<WrapKeys>::Ask(signer));
    }
    assert(resolved_key(of.trust, signer, found.signer_info, head.server_key_id) == Flow::Go(
        server_key,
    ));
    assert(found.es256 is Some);
    assert(of.on(Findings { es256: None, ..found }) == Flow::<WrapKeys>::Ask(
        Asked::Es256 { key: server_key, message: input, signature: head.signature },
    ));
    if pq_id is Some && key_with_id(of.trust, pq_id->0)->Ok_0 is None {
        assert(of.on(Findings { pq_signer_info: None, ..found }) == Flow::<WrapKeys>::Ask(
            pq_signer,
        ));
    }
    assert(response_pq_key(of.trust, of.server_url, response, found) == Flow::Go(pq_key));
    assert(found.mldsa87 is Some);
    assert(of.on(Findings { mldsa87: None, ..found }) == Flow::<WrapKeys>::Ask(
        Asked::MlDsa87 { key: pq_key, message: input, signature: pq },
    ));
    assert(found.inline_receipts is Some);
    assert(of.on(Findings { inline_receipts: None, ..found }) == Flow::<WrapKeys>::Ask(
        Asked::InlineReceipts { server_key, pq_key },
    ));
    assert(found.pair_commitment is Some);
    assert(of.on(Findings { pair_commitment: None, ..found }) == Flow::<WrapKeys>::Ask(
        Asked::PairCommitment { kem: keys.rk_ec, kem_pq: keys.rk_pq->0 },
    ));
}

proof fn a_logged_half_is_accepted(w: World, of: Lookup, found: Findings, keys: WrapKeys, half: Half)
    requires
        w.answers(of, found),
        w.vouches(of, keys),
        !is_prsn(of.bundle.text_field("handle"@)->0),
        !(of.on(found) is Ask),
        half is KemPq ==> receipt_checked(
            of.trust,
            of.server_url,
            Half::Kem,
            of.bundle.text_field("kem_pubkey_fingerprint"@)->0,
            account_of(of.bundle)->0,
            active_pq(of.trust)->Ok_0,
            found.kem,
            of.who,
        ) is Go,
    ensures
        receipt_checked(
            of.trust,
            of.server_url,
            half,
            match half {
                Half::Kem => of.bundle.text_field("kem_pubkey_fingerprint"@)->0,
                Half::KemPq => of.bundle.text_field("kem_pq_pubkey_fingerprint"@)->0,
            },
            account_of(of.bundle)->0,
            active_pq(of.trust)->Ok_0,
            found.half(half),
            of.who,
        ) is Go,
{
    let account_id = account_of(of.bundle)->0;
    let got = found.half(half);
    let (fingerprint, field, purpose) = match half {
        Half::Kem => (
            of.bundle.text_field("kem_pubkey_fingerprint"@)->0,
            "kem_pubkey_fingerprint"@,
            "kem"@,
        ),
        Half::KemPq => (
            of.bundle.text_field("kem_pq_pubkey_fingerprint"@)->0,
            "kem_pq_pubkey_fingerprint"@,
            "kem_pq"@,
        ),
    };
    assert(w.logs(of, account_id, half, field, purpose));
    let pq_key = active_pq(of.trust)->Ok_0;
    let signer = Asked::ReceiptSignerInfo { half, url: info_url(of.server_url) };
    assert(found.bundle_keys == Some(Ok::<WrapKeys, ErrorView>(keys)));
    assert(got.receipt is Some);
    assert(of.on_half(found, half, ReceiptFindings { receipt: None, ..got }) == Flow::<
        WrapKeys,
    >::Ask(Asked::Receipt { half, url: receipt_url(of.server_url, fingerprint, half) }));
    let receipt = got.receipt->0->Ok_0;
    let key_id = receipt.text_field("server_key_id"@)->0;
    let server_key = choose|server_key: Seq<u8>| #[trigger]
        w.server_key(of.trust, signer, key_id, server_key) && (w.receipt)(
            half,
            fingerprint,
            account_id,
            server_key,
            pq_key,
        ) is Ok;
    assert(w.server_key(of.trust, signer, key_id, server_key));
    if key_with_id(of.trust, key_id)->Ok_0 is None {
        assert(of.on_half(found, half, ReceiptFindings { signer_info: None, ..got }) == Flow::<
            WrapKeys,
        >::Ask(signer));
    }
    assert(resolved_key(of.trust, signer, got.signer_info, key_id) == Flow::Go(server_key));
    assert(got.checked is Some);
    assert(of.on_half(found, half, ReceiptFindings { checked: None, ..got }) == Flow::<
        WrapKeys,
    >::Ask(Asked::ReceiptCheck { half, fingerprint, account_id, server_key, pq_key }));
}

/// Keys that the recipient's own identity record vouches for are never refused: an answer that
/// is missing is asked for, and with none missing the keys are accepted.
pub proof fn vouched_keys_are_accepted(w: World, of: Lookup, found: Findings, keys: WrapKeys)
    requires
        w.answers(of, found),
        w.vouches(of, keys),
    ensures
        of.on(found) is Ask || of.on(found) == Flow::Go(keys),
{
    if !(of.on(found) is Ask) {
        if is_prsn(of.bundle.text_field("handle"@)->0) {
            attested_keys_are_accepted(w, of, found, keys);
        } else {
            a_logged_half_is_accepted(w, of, found, keys, Half::Kem);
            a_logged_half_is_accepted(w, of, found, keys, Half::KemPq);
        }
    }
}

/// A question is asked only as long as its answer is missing: the answers that are still to come
/// are those to questions not asked yet.
pub proof fn no_question_is_asked_twice(of: Lookup, found: Findings)
    ensures
        of.on(found) matches Flow::Ask(q) ==> match q {
            Asked::BundleKeys => found.bundle_keys is None,
            Asked::Verification { .. } => found.verification is None,
            Asked::SignerInfo { .. } => found.signer_info is None,
            Asked::PqSignerInfo { .. } => found.pq_signer_info is None,
            Asked::SigningInput { .. } => found.signing_input is None,
            Asked::Es256 { .. } => found.es256 is None,
            Asked::MlDsa87 { .. } => found.mldsa87 is None,
            Asked::InlineReceipts { .. } => found.inline_receipts is None,
            Asked::PairCommitment { .. } => found.pair_commitment is None,
            Asked::Receipt { half, .. } => found.half(half).receipt is None,
            Asked::ReceiptSignerInfo { half, .. } => found.half(half).signer_info is None,
            Asked::ReceiptCheck { half, .. } => found.half(half).checked is None,
        },
{
}

/// What is asked about a response is asked of that response's own fields: the bytes that were
/// signed, by the key id and the time that it names; its signatures over these bytes; and the
/// keys of its attestation.
pub proof fn questions_carry_the_responses_own_fields(of: Lookup, found: Findings)
    ensures
        of.on(found) matches Flow::Ask(q) ==> (found.verification matches Some(Ok(response))
            ==> match q {
            Asked::SigningInput { server_key_id, signed_at } => response.text_field(
                "server_key_id"@,
            ) == Some(server_key_id) && response.integer_field("signed_at"@) == Some(signed_at),
            Asked::Es256 { message, signature, .. } => found.signing_input == Some(Some(message))
                && response.text_field("server_signature"@) is Some && base64url_bytes(
                response.text_field("server_signature"@)->0,
            ) == Some(signature),
            Asked::MlDsa87 { message, signature, .. } => found.signing_input == Some(
                Some(message),
            ) && response.text_field("server_signature_mldsa87"@) is Some && base64url_bytes(
                response.text_field("server_signature_mldsa87"@)->0,
            ) == Some(signature),
            Asked::PairCommitment { kem, kem_pq } => {
                &&& response.field("attestation"@) matches Some(attestation)
                &&& attestation.text_field("subject_kem_pubkey"@) is Some
                &&& attestation.text_field("subject_kem_pq_pubkey"@) is Some
                &&& base64url_bytes(attestation.text_field("subject_kem_pubkey"@)->0) == Some(kem)
                &&& base64url_bytes(attestation.text_field("subject_kem_pq_pubkey"@)->0) == Some(
                    kem_pq,
                )
            },
            _ => true,
        }),
        of.on(found) matches Flow::Ask(q) ==> (!(found.verification matches Some(Ok(_)))
            ==> !(q is SigningInput || q is Es256 || q is MlDsa87 || q is PairCommitment)),
{
}

proof fn first_with_finds(
    keys: Seq<JsonTree>,
    name: Seq<char>,
    value: Seq<char>,
    from: int,
) -> (i: int)
    requires
        0 <= from <= keys.len(),
    ensures
        from <= i <= keys.len(),
        forall|j: int| from <= j < i ==> (#[trigger] keys[j]).text_field(name) != Some(value),
        match first_with(keys, name, value, from) {
            Some(k) => i < keys.len() && keys[i] == k && k.text_field(name) == Some(value),
            None => i == keys.len(),
        },
    decreases keys.len() - from,
{
    if from < keys.len() && keys[from].text_field(name) != Some(value) {
        first_with_finds(keys, name, value, from + 1)
    } else {
        from
    }
}

/// Whether entry `i` of the list `list` in `info` has `value` in its field `name`, with no entry
/// before it that has, and its published key is `key`.
pub open spec fn published_at(
    info: JsonTree,
    list: Seq<char>,
    name: Seq<char>,
    value: Seq<char>,
    i: int,
    key: Seq<u8>,
) -> bool {
    &&& info.array_field(list) matches Some(keys)
    &&& 0 <= i < keys.len()
    &&& keys[i].text_field(name) == Some(value)
    &&& forall|j: int| 0 <= j < i ==> (#[trigger] keys[j]).text_field(name) != Some(value)
    &&& keys[i].text_field("public_key"@) matches Some(t)
    &&& base64url_bytes(t) == Some(key)
}

/// Whether no entry of the list `list` in `info` has `value` in its field `name`.
pub open spec fn unlisted(info: JsonTree, list: Seq<char>, name: Seq<char>, value: Seq<char>) -> bool {
    info.array_field(list) matches Some(keys) ==> forall|j: int|
        0 <= j < keys.len() ==> (#[trigger] keys[j]).text_field(name) != Some(value)
}

/// A server key is found by its id among the current keys, and only where none of those has that
/// id among the retired ones; the first entry counts. None is found only where neither list has
/// an entry with that id.
pub proof fn a_server_key_is_found_where_it_is_published(info: JsonTree, key_id: Seq<char>)
    ensures
        match key_with_id(info, key_id) {
            Ok(Some(key)) => {
                ||| exists|i: int| #[trigger]
                    published_at(
                        info,
                        "current_signing_keys"@,
                        "key_id"@,
                        key_id,
                        i,
                        key,
                    )
                ||| unlisted(info, "current_signing_keys"@, "key_id"@, key_id) && exists|i: int|
                    #[trigger] published_at(
                        info,
                        "retired_signing_keys"@,
                        "key_id"@,
                        key_id,
                        i,
                        key,
                    )
            },
            Ok(None) => unlisted(info, "current_signing_keys"@, "key_id"@, key_id) && unlisted(
                info,
                "retired_signing_keys"@,
                "key_id"@,
                key_id,
            ),
            Err(e) => e.code == "invalid_data"@ && !(unlisted(
                info,
                "current_signing_keys"@,
                "key_id"@,
                key_id,
            ) && unlisted(info, "retired_signing_keys"@, "key_id"@, key_id)),
        },
{
    let current = info.array_field("current_signing_keys"@);
    let retired = info.array_field("retired_signing_keys"@);
    if current is Some {
        let i: int = first_with_finds(current->0, "key_id"@, key_id, 0);
        let r = key_with_id(info, key_id);
        if r is Ok && r->Ok_0 is Some && i < current->0.len() {
            let key = r->Ok_0->0;
            assert(published_at(info, "current_signing_keys"@, "key_id"@, key_id, i, key));
        }
    }
    if retired is Some {
        let i: int = first_with_finds(retired->0, "key_id"@, key_id, 0);
        let r = key_with_id(info, key_id);
        if r is Ok && r->Ok_0 is Some && unlisted(
            info,
            "current_signing_keys"@,
            "key_id"@,
            key_id,
        ) {
            let key = r->Ok_0->0;
            assert(published_at(info, "retired_signing_keys"@, "key_id"@, key_id, i, key));
        }
    }
}

/// The active ML-DSA-87 key is the first current key of its purpose; without one the server is
/// not trusted at all.
pub proof fn the_active_key_is_the_first_of_its_purpose(info: JsonTree)
    ensures
        match active_pq(info) {
            Ok(key) => exists|i: int| #[trigger]
                published_at(
                    info,
                    "current_signing_keys"@,
                    "purpose"@,
                    "attestation_verification_pq"@,
                    i,
                    key,
                ),
            Err(e) => e.code == "transparency_violation"@ || e.code == "invalid_data"@,
        },
        info.array_field("current_signing_keys"@) is Some && unlisted(
            info,
            "current_signing_keys"@,
            "purpose"@,
            "attestation_verification_pq"@,
        ) ==> (active_pq(info) matches Err(e) && e.code == "transparency_violation"@),
{
    let current = info.array_field("current_signing_keys"@);
    if current is Some {
        let i: int = first_with_finds(current->0, "purpose"@, "attestation_verification_pq"@, 0);
        if active_pq(info) is Ok {
            assert(published_at(
                info,
                "current_signing_keys"@,
                "purpose"@,
                "attestation_verification_pq"@,
                i,
                active_pq(info)->Ok_0,
            ));
        }
    }
}

/// A PRSN whose attestation is not active, or not about this account and handle, is refused for
/// that very reason: revoked and expired attestations have exit codes of their own, and another
/// subject is a substitution.
pub proof fn a_refused_attestation_says_why(
    attestation: JsonTree,
    account_id: Seq<char>,
    handle: Seq<char>,
    who: Seq<char>,
)
    ensures
        status_checked(attestation, handle, who) is Ok <==> attestation.text_field("status"@)
            == Some("active"@),
        attestation.text_field("status"@) == Some("revoked"@) ==> (status_checked(
            attestation,
            handle,
            who,
        ) matches Err(e) && e.exit_code == 15),
        attestation.text_field("status"@) == Some("expired"@) ==> (status_checked(
            attestation,
            handle,
            who,
        ) matches Err(e) && e.exit_code == 14),
        subject_checked(attestation, account_id, handle, who) is Ok <==> attestation.text_field(
            "subject_handle"@,
        ) == Some(handle) && (attestation.text_field("subject_account_id"@) matches Some(a)
            && same_but_case(a, account_id)),
        attestation.text_field("subject_account_id"@) is Some ==> (subject_checked(
            attestation,
            account_id,
            handle,
            who,
        ) matches Err(e) ==> e.exit_code == 60),
{
    reveal_strlit("active");
    reveal_strlit("revoked");
    reveal_strlit("expired");
    assert("active"@[0] != "revoked"@[0]);
    assert("active"@[0] != "expired"@[0]);
    assert("revoked"@[0] != "expired"@[0]);
}

/// A response that does not verify is refused as such: by its classical signature, or for want
/// of the post-quantum one, with the exit code of an invalid signature; by its receipts, unless
/// they are fully verified, with that of the transparency log.
pub proof fn a_response_that_does_not_verify_is_refused(
    trust: JsonTree,
    server_url: Seq<char>,
    response: JsonTree,
    found: Findings,
    who: Seq<char>,
)
    ensures
        ({
            let r = verified_response(trust, server_url, response, found, who);
            &&& r matches Flow::Go(a) ==> response.field("attestation"@) == Some(a)
            &&& r is Go ==> found.es256 == Some(true) && found.mldsa87 is Some && found.mldsa87->0
                is Ok && found.inline_receipts == Some(Ok::<Seq<char>, ErrorView>("verified"@))
            &&& found.es256 == Some(false) ==> !(r is Go)
            &&& response.text_field("server_signature_mldsa87"@) is None ==> !(r is Go)
            &&& found.es256 == Some(false) && signed_head(response) is Ok && (
            found.signing_input matches Some(Some(_))) && (key_with_id(
                trust,
                response.text_field("server_key_id"@)->0,
            ) matches Ok(Some(_))) ==> (r matches Flow::Fail(e) && e.exit_code == 13)
        }),
{
}

/// A human's keys without a receipt are refused as unlogged: with the exit code of the
/// transparency log, whatever kept the receipt from being fetched.
pub proof fn an_unlogged_key_is_refused(of: Lookup, found: Findings, half: Half)
    requires
        found.half(half).receipt matches Some(Err(_)),
        !is_prsn(of.bundle.text_field("handle"@)->0),
    ensures
        !(of.on(found) is Go),
        half is Kem ==> (of.on(found) matches Flow::Fail(e) ==> {
            ||| e.exit_code == 60
            ||| identified(of.bundle, of.pinned, of.who) == Err::<Seq<char>, ErrorView>(e)
            ||| found.bundle_keys == Some(Err::<WrapKeys, ErrorView>(e))
            ||| active_pq(of.trust) == Err::<Seq<u8>, ErrorView>(e)
            ||| of.bundle.text_field("kem_pubkey_fingerprint"@) is None || of.bundle.text_field(
                "kem_pq_pubkey_fingerprint"@,
            ) is None
        }),
{
}

/// What is refused on the recipient's own account is a violation of transparency: a bundle that
/// answers for nobody, or for another handle than was asked for, that is called what its handle
/// says it is not, or names no account; a PRSN without an attestation.
pub proof fn a_bundle_that_does_not_fit_is_a_violation(of: Lookup, found: Findings)
    ensures
        ({
            let handle = of.bundle.text_field("handle"@);
            let kind = of.bundle.text_field("account_type"@);
            let violation = of.on(found) matches Flow::Fail(e) && e.exit_code == 60;
            let keys_in_hand = handle is Some && (of.pinned is None || of.pinned == handle) && (
            found.bundle_keys matches Some(Ok(_)));
            &&& handle is None ==> violation
            &&& handle is Some && of.pinned is Some && of.pinned != handle ==> violation
            &&& keys_in_hand && kind is Some && (kind == Some("prsn"@)) != "-ai"@.is_suffix_of(
                handle->0,
            ) ==> violation
            &&& keys_in_hand && account_of(of.bundle) is None ==> violation
            &&& keys_in_hand && "-ai"@.is_suffix_of(handle->0) && of.bundle.text_field(
                "attestation_id"@,
            ) is None ==> violation
            &&& handle is Some && (of.pinned is None || of.pinned == handle) ==> (
            found.bundle_keys matches Some(Err(e)) ==> of.on(found) == Flow::<WrapKeys>::Fail(e))
        }),
{
}

/// An attested pair is accepted exactly where its commitment is the attestation's and the bundle
/// has these very keys; anything else is a violation of transparency, and keys that are not
/// canonical are malformed.
pub proof fn an_attested_pair_is_the_bundles(
    attestation: JsonTree,
    kem: Seq<u8>,
    kem_pq: Seq<u8>,
    bundle_keys: WrapKeys,
    found: Findings,
    who: Seq<char>,
)
    ensures
        ({
            let r = pair_checked(attestation, kem, kem_pq, bundle_keys, found, who);
            let rfp = attestation.text_field("rfp"@);
            &&& r is Go <==> rfp is Some && found.pair_commitment == Some(rfp)
                && bundle_keys.rk_ec == kem && bundle_keys.rk_pq == Some(kem_pq)
            &&& r matches Flow::Fail(e) ==> e.exit_code == if found.pair_commitment == Some(
                None::<Seq<char>>,
            ) {
                24
            } else {
                60int
            }
            &&& r is Ask <==> found.pair_commitment is None
        }),
{
}

/// A server key is the one in the info held where that lists it; else it is asked for, and then
/// it is the one in the fresh info. A key that neither lists is a violation of transparency.
pub proof fn a_server_key_is_looked_up_twice_at_most(
    held: JsonTree,
    refetch: Asked,
    fresh: Option<Result<JsonTree, ErrorView>>,
    key_id: Seq<char>,
)
    ensures
        ({
            let r = resolved_key(held, refetch, fresh, key_id);
            let in_held = key_with_id(held, key_id);
            &&& in_held matches Ok(Some(k)) ==> r == Flow::Go(k)
            &&& in_held matches Err(e) ==> r == Flow::<Seq<u8>>::Fail(e)
            &&& in_held == Ok::<Option<Seq<u8>>, ErrorView>(None) ==> match fresh {
                None => r == Flow::<Seq<u8>>::Ask(refetch),
                Some(Err(e)) => r == Flow::<Seq<u8>>::Fail(e),
                Some(Ok(info)) => match key_with_id(info, key_id) {
                    Ok(Some(k)) => r == Flow::Go(k),
                    Ok(None) => r matches Flow::Fail(e) && e.exit_code == 60,
                    Err(e) => r == Flow::<Seq<u8>>::Fail(e),
                },
            }
        }),
{
}

} // verus!
