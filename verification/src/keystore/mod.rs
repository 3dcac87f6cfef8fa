//! The keystore: a PRSN's private-key custody, abstracted over the `key_protection` tier.
//!
//! One trait, [`Keystore`], and the rules every backend shares: how a key label is written and
//! read, which tier a host detects, how a wire failure is re-raised with its exit code, and the
//! launch-binding check that refuses to act as the wrong identity.

pub mod broker;
pub mod client;
pub mod delegated;
pub mod listing;
pub mod se_shim;
pub mod secure_enclave;
pub mod software;

use vstd::prelude::*;
use vstd::utf8::encode_utf8;

use crate::codec::{hex_bytes, hex_decode};
use crate::error::{outcome, plain, seen, CliError, ErrorView};
use crate::text::{
    chars_of, decimal, found_at, holds, join2, join3, join4, join5, same, strip_suffix, to_decimal,
    trim, trimmed, trimming_takes_off_all_white_space, white_space, without_suffix,
};

verus! {

/// A key's purpose: one key of each purpose per PRSN, individually addressed.
#[derive(Debug, Clone, Copy, PartialEq, Eq, Structural)]
pub enum Purpose {
    Signing,
    Kem,
    SigningPq,
    KemPq,
}

impl Purpose {
    /// The purpose's name.
    pub open spec fn name(self) -> Seq<char> {
        match self {
            Purpose::Signing => "signing"@,
            Purpose::Kem => "kem"@,
            Purpose::SigningPq => "signing-pq"@,
            Purpose::KemPq => "kem-pq"@,
        }
    }

    /// How a label of this purpose ends.
    pub open spec fn ending(self) -> Seq<char> {
        match self {
            Purpose::Signing => "-signing"@,
            Purpose::Kem => "-kem"@,
            Purpose::SigningPq => "-signing-pq"@,
            Purpose::KemPq => "-kem-pq"@,
        }
    }

    /// The one algorithm of this purpose.
    pub open spec fn algorithm(self) -> Seq<char> {
        match self {
            Purpose::Signing => "ES256"@,
            Purpose::Kem => "ECDH-ES+A256KW"@,
            Purpose::SigningPq => "ML-DSA-87"@,
            Purpose::KemPq => "ML-KEM-1024"@,
        }
    }

    pub fn as_str(self) -> (r: &'static str)
        ensures
            r@ == self.name(),
    {
        match self {
            Purpose::Signing => "signing",
            Purpose::Kem => "kem",
            Purpose::SigningPq => "signing-pq",
            Purpose::KemPq => "kem-pq",
        }
    }

    /// The label suffix that encodes this purpose (`<handle>-<purpose>`).
    pub fn suffix(self) -> (r: &'static str)
        ensures
            r@ == self.ending(),
    {
        match self {
            Purpose::Signing => "-signing",
            Purpose::Kem => "-kem",
            Purpose::SigningPq => "-signing-pq",
            Purpose::KemPq => "-kem-pq",
        }
    }

    /// The algorithm for this purpose.
    pub fn default_alg(self) -> (r: &'static str)
        ensures
            r@ == self.algorithm(),
    {
        match self {
            Purpose::Signing => "ES256",
            Purpose::Kem => "ECDH-ES+A256KW",
            Purpose::SigningPq => "ML-DSA-87",
            Purpose::KemPq => "ML-KEM-1024",
        }
    }

    /// Whether this is one of the two post-quantum purposes.
    pub fn is_pq(self) -> (r: bool)
        ensures
            r == (self is SigningPq || self is KemPq),
    {
        match self {
            Purpose::SigningPq | Purpose::KemPq => true,
            _ => false,
        }
    }
}

/// The `key_protection` tier of a backend or a stored key.
#[derive(Debug, Clone, Copy, PartialEq, Eq, Structural)]
pub enum Tier {
    SecureEnclave,
    Software,
}

impl Tier {
    /// The hyphenated display name.
    pub open spec fn display(self) -> Seq<char> {
        match self {
            Tier::SecureEnclave => "secure-enclave"@,
            Tier::Software => "software"@,
        }
    }

    /// The underscored wire name.
    pub open spec fn wire(self) -> Seq<char> {
        match self {
            Tier::SecureEnclave => "secure_enclave"@,
            Tier::Software => "software"@,
        }
    }

    /// The hyphenated display string.
    pub fn as_str(self) -> (r: &'static str)
        ensures
            r@ == self.display(),
    {
        match self {
            Tier::SecureEnclave => "secure-enclave",
            Tier::Software => "software",
        }
    }

    /// The underscored wire string for the `key_protection` field.
    pub fn wire_str(self) -> (r: &'static str)
        ensures
            r@ == self.wire(),
    {
        match self {
            Tier::SecureEnclave => "secure_enclave",
            Tier::Software => "software",
        }
    }
}

/// The number of bytes a text takes in UTF-8.
pub open spec fn byte_length(s: Seq<char>) -> usize {
    encode_utf8(s).len() as usize
}

/// A lowercase ASCII letter or a digit.
pub open spec fn handle_alnum(c: char) -> bool {
    'a' as u32 <= c as u32 <= 'z' as u32 || '0' as u32 <= c as u32 <= '9' as u32
}

fn is_handle_alnum(c: char) -> (r: bool)
    ensures
        r == handle_alnum(c),
{
    let u: u32 = c as u32;
    (97 <= u && u <= 122) || (48 <= u && u <= 57)
}

/// Whether every character of `h` may stand in a handle.
pub open spec fn handle_charset(h: Seq<char>) -> bool {
    forall|i: int| 0 <= i < h.len() ==> handle_alnum(#[trigger] h[i]) || h[i] == '-'
}

/// Whether `h` is a PRSN handle: 2–64 bytes of lowercase letters, digits and hyphens, with no
/// hyphen at either end, ending in `-ai`. The error names the first rule that `h` breaks.
pub open spec fn handle_checked(h: Seq<char>) -> Result<(), ErrorView> {
    if !(2 <= byte_length(h) <= 64) {
        Err(ErrorView::invalid_args("handle '"@ + h + "' must be 2–64 characters"@))
    } else if !handle_alnum(h[0]) || !handle_alnum(h.last()) {
        Err(
            ErrorView::invalid_args(
                "handle '"@ + h + "' must start and end with a lowercase letter or digit"@,
            ),
        )
    } else if !handle_charset(h) {
        Err(
            ErrorView::invalid_args(
                "handle '"@ + h
                    + "' may contain only lowercase ASCII letters, digits, and hyphens"@,
            ),
        )
    } else if !"-ai"@.is_suffix_of(h) {
        Err(
            ErrorView::invalid_args(
                "handle '"@ + h + "' must end in '-ai' (PRSN handle convention)"@,
            ),
        )
    } else {
        Ok(())
    }
}

/// Validate a PRSN handle.
pub fn validate_handle(handle: &str) -> (r: Result<(), CliError>)
    ensures
        outcome(r) == handle_checked(handle@),
{
    let n: usize = handle.len();
    if n < 2 || n > 64 {
        return Err(
            CliError::invalid_args(&join3("handle '", handle, "' must be 2–64 characters")),
        );
    }
    let h = chars_of(handle);
    proof {
        if h@.len() == 0 {
            assert(encode_utf8(h@).len() == 0);
        }
    }
    if !is_handle_alnum(h[0]) || !is_handle_alnum(h[h.len() - 1]) {
        return Err(
            CliError::invalid_args(
                &join3(
                    "handle '",
                    handle,
                    "' must start and end with a lowercase letter or digit",
                ),
            ),
        );
    }
    let mut i: usize = 0;
    while i < h.len()
        invariant
            i <= h@.len(),
            h@ == handle@,
            forall|k: int| 0 <= k < i ==> handle_alnum(#[trigger] h@[k]) || h@[k] == '-',
            2 <= byte_length(handle@) <= 64,
            handle_alnum(h@[0]) && handle_alnum(h@.last()),
        decreases h@.len() - i,
    {
        if !is_handle_alnum(h[i]) && h[i] != '-' {
            assert(!handle_charset(handle@));
            return Err(
                CliError::invalid_args(
                    &join3(
                        "handle '",
                        handle,
                        "' may contain only lowercase ASCII letters, digits, and hyphens",
                    ),
                ),
            );
        }
        i = i + 1;
    }
    if strip_suffix(handle, "-ai").is_none() {
        return Err(
            CliError::invalid_args(
                &join3("handle '", handle, "' must end in '-ai' (PRSN handle convention)"),
            ),
        );
    }
    Ok(())
}

/// A validated key label: a PRSN handle and a purpose, written `<handle>-<purpose>`.
#[derive(Debug)]
pub struct KeyLabel {
    handle: String,
    purpose: Purpose,
}

/// What a [`KeyLabel`] names.
pub struct Labelled {
    pub handle: Seq<char>,
    pub purpose: Purpose,
}

impl Labelled {
    /// The label, written out.
    pub open spec fn full(self) -> Seq<char> {
        self.handle + self.purpose.ending()
    }
}

impl View for KeyLabel {
    type V = Labelled;

    closed spec fn view(&self) -> Labelled {
        Labelled { handle: self.handle@, purpose: self.purpose }
    }
}

/// The handle and purpose that a label is written from; none where it has no known ending.
pub open spec fn label_parts(label: Seq<char>) -> Option<Labelled> {
    if let Some(handle) = without_suffix(label, Purpose::SigningPq.ending()) {
        Some(Labelled { handle, purpose: Purpose::SigningPq })
    } else if let Some(handle) = without_suffix(label, Purpose::KemPq.ending()) {
        Some(Labelled { handle, purpose: Purpose::KemPq })
    } else if let Some(handle) = without_suffix(label, Purpose::Signing.ending()) {
        Some(Labelled { handle, purpose: Purpose::Signing })
    } else if let Some(handle) = without_suffix(label, Purpose::Kem.ending()) {
        Some(Labelled { handle, purpose: Purpose::Kem })
    } else {
        None
    }
}

/// What a label names, given the purpose the caller expects, if any.
pub open spec fn label_parsed(label: Seq<char>, expected: Option<Purpose>) -> Result<
    Labelled,
    ErrorView,
> {
    match label_parts(label) {
        None => Err(
            ErrorView::invalid_args(
                "label '"@ + label
                    + "' must end in '-signing', '-kem', '-signing-pq', or '-kem-pq' (format <prsn-handle>-<purpose>)"@,
            ),
        ),
        Some(l) => if expected is Some && expected->0 != l.purpose {
            Err(
                ErrorView::invalid_args(
                    "label '"@ + label + "' is a "@ + l.purpose.name() + " key, but --"@
                        + expected->0.name() + " was specified"@,
                ),
            )
        } else {
            match handle_checked(l.handle) {
                Ok(()) => Ok(l),
                Err(e) => Err(e),
            }
        },
    }
}

impl KeyLabel {
    #[verifier::type_invariant]
    spec fn valid(self) -> bool {
        handle_checked(self.handle@) is Ok
    }

    /// Parse a full label `<handle>-<purpose>`, whose purpose must be the expected one, if any.
    pub fn parse(label: &str, expected: Option<Purpose>) -> (r: Result<KeyLabel, CliError>)
        ensures
            outcome(r) == label_parsed(label@, expected),
    {
        let (handle, purpose) = if let Some(h) = strip_suffix(label, Purpose::SigningPq.suffix()) {
            (h, Purpose::SigningPq)
        } else if let Some(h) = strip_suffix(label, Purpose::KemPq.suffix()) {
            (h, Purpose::KemPq)
        } else if let Some(h) = strip_suffix(label, Purpose::Signing.suffix()) {
            (h, Purpose::Signing)
        } else if let Some(h) = strip_suffix(label, Purpose::Kem.suffix()) {
            (h, Purpose::Kem)
        } else {
            return Err(
                CliError::invalid_args(
                    &join3(
                        "label '",
                        label,
                        "' must end in '-signing', '-kem', '-signing-pq', or '-kem-pq' (format <prsn-handle>-<purpose>)",
                    ),
                ),
            );
        };
        if let Some(exp) = expected {
            if exp != purpose {
                let mut m = join5("label '", label, "' is a ", purpose.as_str(), " key, but --");
                m.append(exp.as_str());
                m.append(" was specified");
                return Err(CliError::invalid_args(&m));
            }
        }
        KeyLabel::from_handle(handle, purpose)
    }

    /// Build from a bare handle and a purpose.
    pub fn from_handle(handle: &str, purpose: Purpose) -> (r: Result<KeyLabel, CliError>)
        ensures
            outcome(r) == match handle_checked(handle@) {
                Ok(()) => Ok::<Labelled, ErrorView>(Labelled { handle: handle@, purpose }),
                Err(e) => Err(e),
            },
    {
        match validate_handle(handle) {
            Ok(()) => Ok(KeyLabel { handle: handle.to_owned(), purpose }),
            Err(e) => Err(e),
        }
    }

    pub fn purpose(&self) -> (r: Purpose)
        ensures
            r == self@.purpose,
    {
        self.purpose
    }

    /// The PRSN handle component of the label.
    pub fn handle(&self) -> (r: &str)
        ensures
            r@ == self@.handle,
            handle_checked(r@) is Ok,
    {
        proof {
            use_type_invariant(self);
        }
        self.handle.as_str()
    }

    /// The full label string `<handle>-<purpose>`.
    pub fn full(&self) -> (r: String)
        ensures
            r@ == self@.full(),
    {
        join2(&self.handle, self.purpose.suffix())
    }

    /// The same label again.
    pub fn copy(&self) -> (r: KeyLabel)
        ensures
            r@ == self@,
    {
        proof {
            use_type_invariant(self);
        }
        KeyLabel { handle: self.handle.clone(), purpose: self.purpose }
    }
}

/// A label written out reads back as the same handle and purpose, whatever is expected of it
/// beyond that.
pub proof fn labels_read_back(l: Labelled, expected: Option<Purpose>)
    requires
        handle_checked(l.handle) is Ok,
        expected is None || expected == Some(l.purpose),
    ensures
        label_parsed(l.full(), expected) == Ok::<Labelled, ErrorView>(l),
{
    reveal_strlit("-signing");
    reveal_strlit("-kem");
    reveal_strlit("-signing-pq");
    reveal_strlit("-kem-pq");
    let s = l.full();
    let e = l.purpose.ending();
    assert(s.take(s.len() - e.len()) =~= l.handle);
    assert(s.skip(s.len() - e.len()) =~= e);
    let n = s.len() as int;
    assert(s.last() == e.last());
    let spq = Purpose::SigningPq.ending();
    let kpq = Purpose::KemPq.ending();
    let sig = Purpose::Signing.ending();
    let kem = Purpose::Kem.ending();
    assert(spq.is_suffix_of(s) ==> s[n - 4] == spq[7] && s[n - 1] == spq[10]);
    assert(kpq.is_suffix_of(s) ==> s[n - 4] == kpq[3] && s[n - 1] == kpq[6]);
    assert(sig.is_suffix_of(s) ==> s[n - 1] == sig[7]);
    assert(kem.is_suffix_of(s) ==> s[n - 1] == kem[3]);
    assert(e.is_suffix_of(s));
}

/// The failure of a key that the keystore does not hold.
pub open spec fn key_missing(label: Seq<char>) -> ErrorView {
    ErrorView::key_not_found(
        "no key '"@ + label + "'. 'signet keys list' shows what this keystore holds"@,
    )
}

/// Raise that the keystore does not hold a key.
pub fn no_such_key(label: &KeyLabel) -> (e: CliError)
    ensures
        e@ == key_missing(label@.full()),
{
    CliError::key_not_found(
        &join3(
            "no key '",
            &label.full(),
            "'. 'signet keys list' shows what this keystore holds",
        ),
    )
}

/// The operations that need a key of one purpose.
#[derive(Debug, Clone, Copy, PartialEq, Eq, Structural)]
pub enum KeyUse {
    Sign,
    Ecdh,
    MlKemDecapsulate,
    MlDsaSign,
}

impl KeyUse {
    /// The purpose whose keys the operation works with.
    pub open spec fn purpose(self) -> Purpose {
        match self {
            KeyUse::Sign => Purpose::Signing,
            KeyUse::Ecdh => Purpose::Kem,
            KeyUse::MlKemDecapsulate => Purpose::KemPq,
            KeyUse::MlDsaSign => Purpose::SigningPq,
        }
    }

    /// What is said to a key of another purpose.
    pub open spec fn requirement(self) -> Seq<char> {
        match self {
            KeyUse::Sign => "sign requires a signing (ES256) key"@,
            KeyUse::Ecdh => "ecdh requires a KEM (ECDH) key"@,
            KeyUse::MlKemDecapsulate => "ml-kem decapsulation requires a kem-pq (ML-KEM-1024) key"@,
            KeyUse::MlDsaSign => "ml-dsa signing requires a signing-pq (ML-DSA-87) key"@,
        }
    }

    /// Whether a key of `purpose` may be used so.
    pub open spec fn checked(self, purpose: Purpose) -> Result<(), ErrorView> {
        if purpose == self.purpose() {
            Ok(())
        } else {
            Err(ErrorView::unsupported_algorithm(self.requirement()))
        }
    }
}

/// Refuse an operation on a key whose purpose it is not.
pub fn check_use(label: &KeyLabel, key_use: KeyUse) -> (r: Result<(), CliError>)
    ensures
        outcome(r) == key_use.checked(label@.purpose),
{
    let (purpose, requirement) = match key_use {
        KeyUse::Sign => (Purpose::Signing, "sign requires a signing (ES256) key"),
        KeyUse::Ecdh => (Purpose::Kem, "ecdh requires a KEM (ECDH) key"),
        KeyUse::MlKemDecapsulate => (
            Purpose::KemPq,
            "ml-kem decapsulation requires a kem-pq (ML-KEM-1024) key",
        ),
        KeyUse::MlDsaSign => (
            Purpose::SigningPq,
            "ml-dsa signing requires a signing-pq (ML-DSA-87) key",
        ),
    };
    if label.purpose() == purpose {
        Ok(())
    } else {
        Err(CliError::unsupported_algorithm(requirement))
    }
}

/// Metadata for a stored key.
#[derive(Debug)]
pub struct KeyMeta {
    pub label: String,
    pub purpose: String,
    pub algorithm: String,
    pub storage: String,
    pub fingerprint: String,
    pub public_key: Vec<u8>,
}

/// [`KeyMeta`], viewed.
pub struct KeyFacts {
    pub label: Seq<char>,
    pub purpose: Seq<char>,
    pub algorithm: Seq<char>,
    pub storage: Seq<char>,
    pub fingerprint: Seq<char>,
    pub public_key: Seq<u8>,
}

impl View for KeyMeta {
    type V = KeyFacts;

    open spec fn view(&self) -> KeyFacts {
        KeyFacts {
            label: self.label@,
            purpose: self.purpose@,
            algorithm: self.algorithm@,
            storage: self.storage@,
            fingerprint: self.fingerprint@,
            public_key: self.public_key@,
        }
    }
}

/// A private-key custody backend. Private-key bytes never cross this boundary. Nothing is
/// assumed here of how a backend answers.
pub trait Keystore {
    fn tier(&self) -> Tier;

    /// Generate a keypair for `label` under `algorithm`.
    fn generate(&self, label: &KeyLabel, algorithm: &str) -> Result<KeyMeta, CliError>;

    /// Metadata for an existing key.
    fn meta(&self, label: &KeyLabel) -> Result<KeyMeta, CliError>;

    /// `ES256` signature (raw `r‖s`) over `msg`. Signing keys only.
    fn sign(&self, label: &KeyLabel, msg: &[u8]) -> Result<[u8; 64], CliError>;

    /// ECDH P-256 agreement with `peer_pub_x963`. KEM keys only.
    fn ecdh(&self, label: &KeyLabel, peer_pub_x963: &[u8]) -> Result<[u8; 32], CliError>;

    /// ML-KEM-1024 decapsulation of the ciphertext `ek`. `kem-pq` keys only.
    fn ml_kem_decapsulate(&self, label: &KeyLabel, ek: &[u8]) -> Result<[u8; 32], CliError>;

    /// ML-DSA-87 signature over `msg` with the context `ctx`. `signing-pq` keys only.
    fn ml_dsa_sign(&self, label: &KeyLabel, msg: &[u8], ctx: &[u8]) -> Result<Vec<u8>, CliError>;

    /// All keys held by this keystore.
    fn list(&self) -> Result<Vec<KeyMeta>, CliError>;

    fn delete(&self, label: &KeyLabel) -> Result<(), CliError>;

    /// Whether this keystore holds the key.
    fn has_key(&self, label: &KeyLabel) -> Result<bool, CliError>;
}

/// What the operations of a keystore may come to: for each, a relation between the arguments of
/// the call and its outcome. A signature, say, is related to the key and the message that it
/// verifies under; an agreement to the one secret that the key and the peer's point have.
pub struct Behaviour {
    pub generates: spec_fn(Labelled, Seq<char>, Result<KeyFacts, ErrorView>) -> bool,
    pub describes: spec_fn(Labelled, Result<KeyFacts, ErrorView>) -> bool,
    pub signs: spec_fn(Labelled, Seq<u8>, Result<Seq<u8>, ErrorView>) -> bool,
    pub agrees: spec_fn(Labelled, Seq<u8>, Result<Seq<u8>, ErrorView>) -> bool,
    pub decapsulates: spec_fn(Labelled, Seq<u8>, Result<Seq<u8>, ErrorView>) -> bool,
    pub signs_pq: spec_fn(Labelled, Seq<u8>, Seq<u8>, Result<Seq<u8>, ErrorView>) -> bool,
    pub lists: spec_fn(Result<Seq<KeyMeta>, ErrorView>) -> bool,
    pub deletes: spec_fn(Labelled, Result<(), ErrorView>) -> bool,
    pub holds: spec_fn(Labelled, Result<bool, ErrorView>) -> bool,
}

impl Behaviour {
    /// Whether `ks` keeps to this: whatever a call comes to is related to that call's own
    /// arguments.
    pub open spec fn is_of<K: Keystore + ?Sized>(self, ks: &K) -> bool {
        &&& forall|l: &KeyLabel, a: &str, out: Result<KeyMeta, CliError>| #[trigger]
            call_ensures(K::generate, (ks, l, a), out) ==> (self.generates)(
                l@,
                a@,
                outcome(out),
            )
        &&& forall|l: &KeyLabel, out: Result<KeyMeta, CliError>| #[trigger]
            call_ensures(K::meta, (ks, l), out) ==> (self.describes)(l@, outcome(out))
        &&& forall|l: &KeyLabel, m: &[u8], out: Result<[u8; 64], CliError>| #[trigger]
            call_ensures(K::sign, (ks, l, m), out) ==> (self.signs)(l@, m@, outcome(out))
        &&& forall|l: &KeyLabel, p: &[u8], out: Result<[u8; 32], CliError>| #[trigger]
            call_ensures(K::ecdh, (ks, l, p), out) ==> (self.agrees)(l@, p@, outcome(out))
        &&& forall|l: &KeyLabel, c: &[u8], out: Result<[u8; 32], CliError>| #[trigger]
            call_ensures(K::ml_kem_decapsulate, (ks, l, c), out) ==> (self.decapsulates)(
                l@,
                c@,
                outcome(out),
            )
        &&& forall|l: &KeyLabel, m: &[u8], c: &[u8], out: Result<Vec<u8>, CliError>| #[trigger]
            call_ensures(K::ml_dsa_sign, (ks, l, m, c), out) ==> (self.signs_pq)(
                l@,
                m@,
                c@,
                outcome(out),
            )
        &&& forall|out: Result<Vec<KeyMeta>, CliError>| #[trigger]
            call_ensures(K::list, (ks,), out) ==> (self.lists)(outcome(out))
        &&& forall|l: &KeyLabel, out: Result<(), CliError>| #[trigger]
            call_ensures(K::delete, (ks, l), out) ==> (self.deletes)(l@, outcome(out))
        &&& forall|l: &KeyLabel, out: Result<bool, CliError>| #[trigger]
            call_ensures(K::has_key, (ks, l), out) ==> (self.holds)(l@, plain(out))
    }
}

/// The ML-DSA-87 signature length.
pub const ML_DSA_87_SIG_LEN: usize = 4627;

/// The ML-DSA context ceiling.
pub open spec fn mldsa_ctx_checked(n: nat) -> Result<(), ErrorView> {
    if n > 255 {
        Err(
            ErrorView::invalid_args(
                "ML-DSA context must be at most 255 bytes (FIPS 204), got "@ + decimal(n),
            ),
        )
    } else {
        Ok(())
    }
}

/// Validate an ML-DSA context string: at most 255 bytes.
pub fn validate_mldsa_ctx(ctx: &[u8]) -> (r: Result<(), CliError>)
    ensures
        outcome(r) == mldsa_ctx_checked(ctx@.len()),
{
    if ctx.len() > 255 {
        return Err(
            CliError::invalid_args(
                &join2(
                    "ML-DSA context must be at most 255 bytes (FIPS 204), got ",
                    &to_decimal(ctx.len() as u64),
                ),
            ),
        );
    }
    Ok(())
}

/// How a wire failure is re-raised: a known code keeps its exit code, `access_paused` joins
/// the access-refusal family, anything else is generic.
pub open spec fn wire_error(code: Seq<char>, message: Seq<char>) -> ErrorView {
    if code == "key_already_exists"@ {
        ErrorView::key_exists(message)
    } else if code == "key_not_found"@ {
        ErrorView::key_not_found(message)
    } else if code == "unsupported_algorithm"@ {
        ErrorView::unsupported_algorithm(message)
    } else if code == "invalid_arguments"@ {
        ErrorView::invalid_args(message)
    } else if code == "invalid_data"@ {
        ErrorView::invalid_data(message)
    } else if code == "unsupported_platform"@ {
        ErrorView::unsupported_platform(message)
    } else if code == "authorization_denied"@ {
        ErrorView::authorization_denied(message)
    } else if code == "filesystem_error"@ {
        ErrorView::filesystem(message)
    } else if code == "encryption_failed"@ {
        ErrorView::encryption_failed(message)
    } else if code == "decrypt_failed"@ {
        ErrorView::decrypt_failed(message)
    } else if code == "se_locked"@ {
        ErrorView::se_locked(message)
    } else if code == "output_error"@ {
        ErrorView::output_write(message)
    } else if code == "access_paused"@ {
        ErrorView { exit_code: 77, code: "access_paused"@, message }
    } else {
        ErrorView::generic(message)
    }
}

/// Reconstruct a failure from its wire form, exit code preserved.
pub fn cli_error_from_wire(code: &str, message: &str) -> (e: CliError)
    ensures
        e@ == wire_error(code@, message@),
{
    if same(code, "key_already_exists") {
        CliError::key_exists(message)
    } else if same(code, "key_not_found") {
        CliError::key_not_found(message)
    } else if same(code, "unsupported_algorithm") {
        CliError::unsupported_algorithm(message)
    } else if same(code, "invalid_arguments") {
        CliError::invalid_args(message)
    } else if same(code, "invalid_data") {
        CliError::invalid_data(message)
    } else if same(code, "unsupported_platform") {
        CliError::unsupported_platform(message)
    } else if same(code, "authorization_denied") {
        CliError::authorization_denied(message)
    } else if same(code, "filesystem_error") {
        CliError::filesystem(message)
    } else if same(code, "encryption_failed") {
        CliError::encryption_failed(message)
    } else if same(code, "decrypt_failed") {
        CliError::decrypt_failed(message)
    } else if same(code, "se_locked") {
        CliError::se_locked(message)
    } else if same(code, "output_error") {
        CliError::output_write(message)
    } else if same(code, "access_paused") {
        CliError::new(77, "access_paused", message)
    } else {
        CliError::generic(message)
    }
}

/// A failure of a kind that the wire knows goes over it and comes back the same, exit code
/// included: those that a keystore raises, the broker's refusal of a grant, and a generic one.
pub proof fn wire_errors_keep_their_exit_code(message: Seq<char>)
    ensures
        wire_error(ErrorView::key_exists(message).code, message) == ErrorView::key_exists(message),
        wire_error(ErrorView::key_not_found(message).code, message) == ErrorView::key_not_found(
            message,
        ),
        wire_error(ErrorView::unsupported_algorithm(message).code, message)
            == ErrorView::unsupported_algorithm(message),
        wire_error(ErrorView::invalid_args(message).code, message) == ErrorView::invalid_args(
            message,
        ),
        wire_error(ErrorView::invalid_data(message).code, message) == ErrorView::invalid_data(
            message,
        ),
        wire_error(ErrorView::unsupported_platform(message).code, message)
            == ErrorView::unsupported_platform(message),
        wire_error(ErrorView::authorization_denied(message).code, message)
            == ErrorView::authorization_denied(message),
        wire_error(ErrorView::filesystem(message).code, message) == ErrorView::filesystem(message),
        wire_error(ErrorView::encryption_failed(message).code, message)
            == ErrorView::encryption_failed(message),
        wire_error(ErrorView::decrypt_failed(message).code, message) == ErrorView::decrypt_failed(
            message,
        ),
        wire_error(ErrorView::se_locked(message).code, message) == ErrorView::se_locked(message),
        wire_error(ErrorView::output_write(message).code, message) == ErrorView::output_write(
            message,
        ),
        wire_error("access_paused"@, message) == (ErrorView {
            exit_code: 77,
            code: "access_paused"@,
            message,
        }),
        wire_error(ErrorView::generic(message).code, message) == ErrorView::generic(message),
{
    reveal_strlit("se_locked");
    reveal_strlit("output_error");
    reveal_strlit("access_paused");
    reveal_strlit("error");
    reveal_strlit("key_already_exists");
    reveal_strlit("key_not_found");
    reveal_strlit("unsupported_algorithm");
    reveal_strlit("invalid_arguments");
    reveal_strlit("invalid_data");
    reveal_strlit("unsupported_platform");
    reveal_strlit("authorization_denied");
    reveal_strlit("filesystem_error");
    reveal_strlit("encryption_failed");
    reveal_strlit("decrypt_failed");
    assert("key_already_exists"@.len() == 18);
    assert("key_not_found"@.len() == 13 && "key_not_found"@[0] == 'k');
    assert("access_paused"@.len() == 13 && "access_paused"@[0] == 'a');
    assert("error"@.len() == 5);
    assert("se_locked"@.len() == 9);
    assert("output_error"@.len() == 12 && "output_error"@[0] == 'o');
    assert("unsupported_algorithm"@.len() == 21);
    assert("invalid_arguments"@.len() == 17 && "invalid_arguments"@[0] == 'i');
    assert("invalid_data"@.len() == 12 && "invalid_data"@[0] == 'i');
    assert("unsupported_platform"@.len() == 20 && "unsupported_platform"@[0] == 'u');
    assert("authorization_denied"@.len() == 20 && "authorization_denied"@[0] == 'a');
    assert("filesystem_error"@.len() == 16);
    assert("encryption_failed"@.len() == 17 && "encryption_failed"@[0] == 'e');
    assert("decrypt_failed"@.len() == 14);
}

/// The tier a host detects: a forced one where it is known, the host's own Secure Enclave
/// behind a delegation channel, else by platform.
pub open spec fn tier_detected(
    forced: Option<Seq<char>>,
    channel_configured: bool,
    apple_silicon: bool,
) -> Tier {
    if forced == Some("software"@) {
        Tier::Software
    } else if forced == Some("secure_enclave"@) || forced == Some("secure-enclave"@) {
        Tier::SecureEnclave
    } else if channel_configured || apple_silicon {
        Tier::SecureEnclave
    } else {
        Tier::Software
    }
}

/// Detect the strongest available tier. `forced` is the override, `channel_configured` whether
/// a host-delegation channel is, `apple_silicon` whether this is an Apple Silicon Mac.
pub fn detect_tier(forced: Option<&str>, channel_configured: bool, apple_silicon: bool) -> (r: Tier)
    ensures
        r == tier_detected(crate::json::opt_str(forced), channel_configured, apple_silicon),
{
    proof {
        reveal_strlit("software");
        reveal_strlit("secure_enclave");
        reveal_strlit("secure-enclave");
        assert("software"@.len() != "secure_enclave"@.len());
        assert("software"@.len() != "secure-enclave"@.len());
    }
    match forced {
        Some(f) => {
            if same(f, "software") {
                return Tier::Software;
            }
            if same(f, "secure_enclave") || same(f, "secure-enclave") {
                return Tier::SecureEnclave;
            }
        },
        None => {},
    }
    if channel_configured || apple_silicon {
        Tier::SecureEnclave
    } else {
        Tier::Software
    }
}

/// The launch-binding decision: refuse only where a pinned and an asserted handle differ.
pub open spec fn identity_checked(
    pinned: Option<Seq<char>>,
    asserted: Option<Seq<char>>,
) -> Result<(), ErrorView> {
    match (pinned, asserted) {
        (Some(p), Some(a)) => if p == a {
            Ok(())
        } else {
            Err(
                ErrorView::identity_mismatch(
                    "launch-binding mismatch: this container is wired to PRSN '"@ + p
                        + "' (the host-signer's channel pin), but SIGNET_HANDLE asserts '"@ + a
                        + "'. Refusing to act as the wrong identity (the container's channel mount must point at '"@
                        + a + "'s channel)."@,
                ),
            )
        },
        _ => Ok(()),
    }
}

/// Compare the pinned handle with the asserted one, where both are there.
pub fn check_identity_match(pinned: Option<&str>, asserted: Option<&str>) -> (r: Result<
    (),
    CliError,
>)
    ensures
        outcome(r) == identity_checked(
            crate::json::opt_str(pinned),
            crate::json::opt_str(asserted),
        ),
{
    match (pinned, asserted) {
        (Some(p), Some(a)) => {
            if same(p, a) {
                return Ok(());
            }
            let mut m = join4(
                "launch-binding mismatch: this container is wired to PRSN '",
                p,
                "' (the host-signer's channel pin), but SIGNET_HANDLE asserts '",
                a,
            );
            m.append(
                "'. Refusing to act as the wrong identity (the container's channel mount must point at '",
            );
            m.append(a);
            m.append("'s channel).");
            Err(CliError::identity_mismatch(&m))
        },
        _ => Ok(()),
    }
}

/// The value of an environment variable as the library takes it: trimmed, and none where
/// nothing is left.
pub open spec fn env_value(raw: Option<Seq<char>>) -> Option<Seq<char>> {
    match raw {
        Some(s) => if trimmed(s).len() == 0 {
            None
        } else {
            Some(trimmed(s))
        },
        None => None,
    }
}

/// Trim an environment value; nothing left counts as unset.
pub fn non_empty(raw: Option<&str>) -> (r: Option<String>)
    ensures
        seen(r) == env_value(crate::json::opt_str(raw)),
{
    match raw {
        Some(s) => {
            let t = trim(s);
            if t.is_empty() {
                None
            } else {
                Some(t.to_owned())
            }
        },
        None => None,
    }
}

/// A host address as resolved: how it is written and whether it is IPv6.
#[derive(Debug)]
pub struct ResolvedAddr {
    pub text: String,
    pub ipv6: bool,
}

/// The index of the address to dial: the first IPv4 one, else the first.
pub open spec fn preferred(addrs: Seq<ResolvedAddr>) -> Option<int> {
    if addrs.len() == 0 {
        None
    } else {
        let v4 = first_v4(addrs, 0);
        if v4 < addrs.len() {
            Some(v4)
        } else {
            Some(0)
        }
    }
}

/// The index of the first IPv4 address from `from` on; the number of addresses where there is
/// none.
pub open spec fn first_v4(addrs: Seq<ResolvedAddr>, from: int) -> int
    decreases addrs.len() - from,
{
    if from >= addrs.len() || from < 0 {
        addrs.len() as int
    } else if !addrs[from].ipv6 {
        from
    } else {
        first_v4(addrs, from + 1)
    }
}

/// The failure of an address that does not resolve.
pub open spec fn unresolvable(addr: Seq<char>, reason: Seq<char>) -> ErrorView {
    ErrorView::config(
        "SIGNET_BROKER_ADDR='"@ + addr + "' is not a resolvable socket address (host:port): "@
            + reason,
    )
}

/// The failure of an address that resolves to nothing.
pub open spec fn resolved_to_none(addr: Seq<char>) -> ErrorView {
    ErrorView::config("SIGNET_BROKER_ADDR='"@ + addr + "' resolved to no socket addresses"@)
}

/// Pick the broker address among those that `addr` resolved to, IPv4 preferred. The reason of
/// a failed resolution arrives as the error's text.
pub fn resolve_broker_addr(addr: &str, resolved: Result<Vec<ResolvedAddr>, String>) -> (r: Result<
    ResolvedAddr,
    CliError,
>)
    ensures
        match resolved {
            Err(reason) => r is Err && r->Err_0@ == unresolvable(addr@, reason@),
            Ok(addrs) => match preferred(addrs@) {
                Some(i) => r is Ok && r->Ok_0 == addrs@[i],
                None => r is Err && r->Err_0@ == resolved_to_none(addr@),
            },
        },
{
    let mut addrs = match resolved {
        Err(reason) => return Err(
            CliError::config(
                &join4(
                    "SIGNET_BROKER_ADDR='",
                    addr,
                    "' is not a resolvable socket address (host:port): ",
                    &reason,
                ),
            ),
        ),
        Ok(a) => a,
    };
    if addrs.len() == 0 {
        return Err(
            CliError::config(
                &join3("SIGNET_BROKER_ADDR='", addr, "' resolved to no socket addresses"),
            ),
        );
    }
    let mut i: usize = 0;
    while i < addrs.len() && addrs[i].ipv6
        invariant
            i <= addrs@.len(),
            first_v4(addrs@, 0) == first_v4(addrs@, i as int),
        decreases addrs@.len() - i,
    {
        i = i + 1;
    }
    if i == addrs.len() {
        i = 0;
    }
    Ok(addrs.swap_remove(i))
}

/// The credential file of a handle, under the configuration directory.
pub open spec fn credential_file(config_dir: Seq<char>, handle: Seq<char>) -> Seq<char> {
    config_dir + "/garnet/"@ + handle + ".json"@
}

/// The broker credential to use: the configured one, else the per-handle default; refused
/// where neither a credential nor a handle is configured.
pub open spec fn broker_credential(
    config_dir: Seq<char>,
    credential: Option<Seq<char>>,
    handle: Option<Seq<char>>,
) -> Result<Seq<char>, ErrorView> {
    match (env_value(credential), env_value(handle)) {
        (Some(c), _) => Ok(c),
        (None, Some(h)) => Ok(credential_file(config_dir, h)),
        (None, None) => Err(
            ErrorView::config(
                "SIGNET_BROKER_ADDR is set but the broker credential is unresolved. Set SIGNET_BROKER_CREDENTIAL or SIGNET_HANDLE"@,
            ),
        ),
    }
}

/// Resolve the credential path for the broker path from the two environment values.
pub fn broker_credential_path(
    config_dir: &str,
    credential: Option<&str>,
    handle: Option<&str>,
) -> (r: Result<String, CliError>)
    ensures
        outcome(r) == broker_credential(
            config_dir@,
            crate::json::opt_str(credential),
            crate::json::opt_str(handle),
        ),
{
    if let Some(c) = non_empty(credential) {
        return Ok(c);
    }
    match non_empty(handle) {
        Some(h) => Ok(join4(config_dir, "/garnet/", &h, ".json")),
        None => Err(
            CliError::config(
                "SIGNET_BROKER_ADDR is set but the broker credential is unresolved. Set SIGNET_BROKER_CREDENTIAL or SIGNET_HANDLE",
            ),
        ),
    }
}

/// Where key operations go when a broker is configured, and the credential they go with.
#[derive(Debug)]
pub struct BrokerDelegation {
    pub broker_addr: ResolvedAddr,
    pub credential_path: String,
}

/// The broker settings: none where no address is configured; else the address, then the
/// credential, either of which may be refused. `resolved` is what the address, trimmed, resolved
/// to, and is not looked at where none is configured.
pub fn broker_delegation(
    addr: Option<&str>,
    resolved: Result<Vec<ResolvedAddr>, String>,
    config_dir: &str,
    credential: Option<&str>,
    handle: Option<&str>,
) -> (r: Result<Option<BrokerDelegation>, CliError>)
    ensures
        match env_value(crate::json::opt_str(addr)) {
            None => r is Ok && r->Ok_0 is None,
            Some(a) => match resolved {
                Err(reason) => r is Err && r->Err_0@ == unresolvable(a, reason@),
                Ok(addrs) => match preferred(addrs@) {
                    None => r is Err && r->Err_0@ == resolved_to_none(a),
                    Some(i) => match broker_credential(
                        config_dir@,
                        crate::json::opt_str(credential),
                        crate::json::opt_str(handle),
                    ) {
                        Err(e) => r is Err && r->Err_0@ == e,
                        Ok(path) => r is Ok && r->Ok_0 is Some && r->Ok_0->0.broker_addr
                            == addrs@[i] && r->Ok_0->0.credential_path@ == path,
                    },
                },
            },
        },
{
    let addr = match non_empty(addr) {
        Some(a) => a,
        None => return Ok(None),
    };
    let broker_addr = match resolve_broker_addr(&addr, resolved) {
        Ok(a) => a,
        Err(e) => return Err(e),
    };
    match broker_credential_path(config_dir, credential, handle) {
        Ok(credential_path) => Ok(Some(BrokerDelegation { broker_addr, credential_path })),
        Err(e) => Err(e),
    }
}

/// A container's host-delegation settings, as configured.
pub struct HostDelegation {
    pub channel_dir: String,
    pub channel_id: String,
    pub secret_file: String,
}

/// [`HostDelegation`], viewed.
pub struct DelegationSettings {
    pub channel_dir: Seq<char>,
    pub channel_id: Seq<char>,
    pub secret_file: Seq<char>,
}

impl View for HostDelegation {
    type V = DelegationSettings;

    open spec fn view(&self) -> DelegationSettings {
        DelegationSettings {
            channel_dir: self.channel_dir@,
            channel_id: self.channel_id@,
            secret_file: self.secret_file@,
        }
    }
}

/// The host-delegation settings that the environment gives: none without a channel directory,
/// refused where the id or the secret file is missing beside it.
pub open spec fn delegation_configured(
    channel_dir: Option<Seq<char>>,
    channel_id: Option<Seq<char>>,
    secret_file: Option<Seq<char>>,
) -> Result<Option<DelegationSettings>, ErrorView> {
    match (channel_dir, channel_id, secret_file) {
        (None, _, _) => Ok(None),
        (Some(_), None, _) => Err(
            ErrorView::config(
                "SIGNET_HOST_CHANNEL_DIR is set but SIGNET_HOST_CHANNEL_ID is not"@,
            ),
        ),
        (Some(_), Some(_), None) => Err(
            ErrorView::config(
                "SIGNET_HOST_CHANNEL_DIR is set but SIGNET_HOST_CHANNEL_SECRET_FILE is not"@,
            ),
        ),
        (Some(channel_dir), Some(channel_id), Some(secret_file)) => Ok(
            Some(DelegationSettings { channel_dir, channel_id, secret_file }),
        ),
    }
}

/// Read the host-delegation settings from the three environment values.
pub fn host_delegation(
    channel_dir: Option<&str>,
    channel_id: Option<&str>,
    secret_file: Option<&str>,
) -> (r: Result<Option<HostDelegation>, CliError>)
    ensures
        match r {
            Ok(o) => delegation_configured(
                crate::json::opt_str(channel_dir),
                crate::json::opt_str(channel_id),
                crate::json::opt_str(secret_file),
            ) == Ok::<Option<DelegationSettings>, ErrorView>(seen(o)),
            Err(e) => delegation_configured(
                crate::json::opt_str(channel_dir),
                crate::json::opt_str(channel_id),
                crate::json::opt_str(secret_file),
            ) == Err::<Option<DelegationSettings>, ErrorView>(e@),
        },
{
    let dir = match channel_dir {
        None => return Ok(None),
        Some(d) => d,
    };
    let id = match channel_id {
        None => return Err(
            CliError::config("SIGNET_HOST_CHANNEL_DIR is set but SIGNET_HOST_CHANNEL_ID is not"),
        ),
        Some(i) => i,
    };
    match secret_file {
        None => Err(
            CliError::config(
                "SIGNET_HOST_CHANNEL_DIR is set but SIGNET_HOST_CHANNEL_SECRET_FILE is not",
            ),
        ),
        Some(f) => Ok(
            Some(
                HostDelegation {
                    channel_dir: dir.to_owned(),
                    channel_id: id.to_owned(),
                    secret_file: f.to_owned(),
                },
            ),
        ),
    }
}

/// The array of a byte string of that very length: std's `TryFrom<Vec<u8>>` for `[u8; N]`.
#[verifier::external_body]
pub(crate) fn array_of<const N: usize>(v: Vec<u8>) -> (r: Option<[u8; N]>)
    ensures
        r is Some <==> v@.len() == N,
        r is Some ==> r->0@ == v@,
{
    v.try_into().ok()
}

/// The channel secret that a secret file's text gives: 32 bytes in hexadecimal, white space
/// around them ignored.
pub open spec fn channel_secret(text: Seq<char>) -> Result<Seq<u8>, ErrorView> {
    match hex_bytes(trimmed(text)) {
        None => Err(
            ErrorView::config("the host-delegation secret file must be hex-encoded"@),
        ),
        Some(b) => if b.len() == 32 {
            Ok(b)
        } else {
            Err(
                ErrorView::config("the host-delegation secret must be 32 bytes (64 hex chars)"@),
            )
        },
    }
}

/// Read a per-PRSN channel secret from the text of its file.
pub fn read_channel_secret(text: &str) -> (r: Result<[u8; 32], CliError>)
    ensures
        match r {
            Ok(a) => channel_secret(text@) == Ok::<Seq<u8>, ErrorView>(a@),
            Err(e) => channel_secret(text@) == Err::<Seq<u8>, ErrorView>(e@),
        },
{
    match hex_decode(trim(text)) {
        None => Err(CliError::config("the host-delegation secret file must be hex-encoded")),
        Some(b) => match array_of::<32>(b) {
            Some(a) => Ok(a),
            None => Err(
                CliError::config("the host-delegation secret must be 32 bytes (64 hex chars)"),
            ),
        },
    }
}

/// Where a keystore is opened.
#[derive(Debug, Clone, Copy, PartialEq, Eq, Structural)]
pub enum Backend {
    /// The local broker, whose credential exists.
    Broker,
    /// The local broker, whose credential is to be picked up first.
    BrokerAfterPickup,
    /// The host-delegation channel.
    Delegated,
    /// The native tier's own keystore.
    Native(Tier),
}

/// The backend that a host's configuration selects: the broker before the channel, the channel
/// before the native tier.
pub open spec fn backend_selected(
    broker_configured: bool,
    credential_exists: bool,
    channel_configured: bool,
    tier: Tier,
) -> Backend {
    if broker_configured {
        if credential_exists {
            Backend::Broker
        } else {
            Backend::BrokerAfterPickup
        }
    } else if channel_configured {
        Backend::Delegated
    } else {
        Backend::Native(tier)
    }
}

/// Select the keystore backend. The enrollment phase, which runs before any broker credential
/// exists, asks with no broker configured.
pub fn select_backend(
    broker_configured: bool,
    credential_exists: bool,
    channel_configured: bool,
    tier: Tier,
) -> (r: Backend)
    ensures
        r == backend_selected(broker_configured, credential_exists, channel_configured, tier),
{
    if broker_configured {
        if credential_exists {
            Backend::Broker
        } else {
            Backend::BrokerAfterPickup
        }
    } else if channel_configured {
        Backend::Delegated
    } else {
        Backend::Native(tier)
    }
}

/// A handle is accepted exactly where it takes 2 to 64 bytes, has only small ASCII letters,
/// digits and hyphens, has no hyphen at either end, and ends in `-ai`.
pub proof fn a_handle_keeps_to_every_rule(h: Seq<char>)
    ensures
        handle_checked(h) is Ok <==> {
            &&& 2 <= byte_length(h) <= 64
            &&& handle_alnum(h[0]) && handle_alnum(h.last())
            &&& forall|i: int|
                0 <= i < h.len() ==> {
                    let c = (#[trigger] h[i]) as u32;
                    97 <= c <= 122 || 48 <= c <= 57 || h[i] == '-'
                }
            &&& "-ai"@.is_suffix_of(h)
        },
        forall|c: char| #[trigger]
            handle_alnum(c) <==> 97 <= c as u32 <= 122 || 48 <= c as u32 <= 57,
        handle_checked(h) matches Err(e) ==> e.exit_code == 2,
{
    assert('a' as u32 == 97 && 'z' as u32 == 122 && '0' as u32 == 48 && '9' as u32 == 57);
    if handle_charset(h) {
        assert forall|i: int| 0 <= i < h.len() implies {
            let c = (#[trigger] h[i]) as u32;
            97 <= c <= 122 || 48 <= c <= 57 || h[i] == '-'
        } by {
            assert(handle_alnum(h[i]) || h[i] == '-');
        }
    }
    if forall|i: int|
        0 <= i < h.len() ==> {
            let c = (#[trigger] h[i]) as u32;
            97 <= c <= 122 || 48 <= c <= 57 || h[i] == '-'
        } {
        assert forall|i: int| 0 <= i < h.len() implies handle_alnum(#[trigger] h[i]) || h[i]
            == '-' by {
            let c = h[i] as u32;
            assert(97 <= c <= 122 || 48 <= c <= 57 || h[i] == '-');
        }
    }
}

/// A label that is read is the handle and the purpose's name with a hyphen between them, the
/// handle is a valid one, and the purpose is the one that was expected, if any.
pub proof fn a_label_reads_as_it_is_written(label: Seq<char>, expected: Option<Purpose>)
    ensures
        label_parsed(label, expected) matches Ok(l) ==> {
            &&& label == l.full()
            &&& label == l.handle + "-"@ + l.purpose.name()
            &&& handle_checked(l.handle) is Ok
            &&& expected is None || expected == Some(l.purpose)
        },
        label_parsed(label, expected) matches Err(e) ==> e.exit_code == 2,
{
    reveal_strlit("-");
    reveal_strlit("signing");
    reveal_strlit("kem");
    reveal_strlit("signing-pq");
    reveal_strlit("kem-pq");
    reveal_strlit("-signing");
    reveal_strlit("-kem");
    reveal_strlit("-signing-pq");
    reveal_strlit("-kem-pq");
    if label_parsed(label, expected) is Ok {
        let l = label_parsed(label, expected)->Ok_0;
        let e = l.purpose.ending();
        assert(e.is_suffix_of(label));
        assert(label.take(label.len() - e.len()) + e =~= label);
        assert(e =~= "-"@ + l.purpose.name());
        assert(l.handle + e =~= l.handle + "-"@ + l.purpose.name());
    }
}

/// Each operation works with keys of one purpose and refuses those of the three others.
pub proof fn every_operation_has_its_own_keys(key_use: KeyUse, purpose: Purpose)
    ensures
        key_use.checked(purpose) is Ok <==> match key_use {
            KeyUse::Sign => purpose == Purpose::Signing,
            KeyUse::Ecdh => purpose == Purpose::Kem,
            KeyUse::MlKemDecapsulate => purpose == Purpose::KemPq,
            KeyUse::MlDsaSign => purpose == Purpose::SigningPq,
        },
        key_use.checked(purpose) matches Err(e) ==> e.exit_code == 41,
{
}

/// A tier that is forced by name is the one detected, whatever the host is; else the Secure
/// Enclave is detected behind a channel and on Apple Silicon, and only there.
pub proof fn a_forced_tier_is_detected(
    forced: Option<Seq<char>>,
    channel_configured: bool,
    apple_silicon: bool,
)
    ensures
        ({
            let r = tier_detected(forced, channel_configured, apple_silicon);
            let software = forced == Some("software"@);
            let enclave = forced == Some("secure_enclave"@) || forced == Some("secure-enclave"@);
            &&& software ==> r == Tier::Software
            &&& enclave ==> r == Tier::SecureEnclave
            &&& !software && !enclave ==> (r == Tier::SecureEnclave <==> channel_configured
                || apple_silicon)
        }),
{
    reveal_strlit("software");
    reveal_strlit("secure_enclave");
    reveal_strlit("secure-enclave");
    assert("software"@.len() != "secure_enclave"@.len());
    assert("software"@.len() != "secure-enclave"@.len());
}

/// Only a handle that is pinned and another that is asserted are in each other's way.
pub proof fn only_two_different_handles_mismatch(
    pinned: Option<Seq<char>>,
    asserted: Option<Seq<char>>,
)
    ensures
        identity_checked(pinned, asserted) is Err <==> pinned is Some && asserted is Some
            && pinned != asserted,
        identity_checked(pinned, asserted) matches Err(e) ==> e.exit_code == 61,
{
}

proof fn first_v4_is_first(addrs: Seq<ResolvedAddr>, from: int)
    requires
        0 <= from <= addrs.len(),
    ensures
        from <= first_v4(addrs, from) <= addrs.len(),
        first_v4(addrs, from) < addrs.len() ==> !addrs[first_v4(addrs, from)].ipv6,
        forall|i: int| from <= i < first_v4(addrs, from) ==> (#[trigger] addrs[i]).ipv6,
    decreases addrs.len() - from,
{
    if from < addrs.len() && addrs[from].ipv6 {
        first_v4_is_first(addrs, from + 1);
    }
}

/// The address to dial is the first IPv4 one; where there is none, the first of all; and there is
/// none to dial only where there is none at all.
pub proof fn the_first_v4_address_is_dialled(addrs: Seq<ResolvedAddr>)
    ensures
        match preferred(addrs) {
            None => addrs.len() == 0,
            Some(i) => {
                &&& 0 <= i < addrs.len()
                &&& !addrs[i].ipv6 ==> forall|j: int| 0 <= j < i ==> (#[trigger] addrs[j]).ipv6
                &&& addrs[i].ipv6 ==> i == 0 && forall|j: int|
                    0 <= j < addrs.len() ==> (#[trigger] addrs[j]).ipv6
            },
        },
{
    first_v4_is_first(addrs, 0);
}

/// The credential that is configured is used; only without one the handle's own, and only
/// without either is there none.
pub proof fn a_configured_credential_is_used(
    config_dir: Seq<char>,
    credential: Option<Seq<char>>,
    handle: Option<Seq<char>>,
)
    ensures
        ({
            let r = broker_credential(config_dir, credential, handle);
            &&& env_value(credential) matches Some(c) ==> r == Ok::<Seq<char>, ErrorView>(c)
            &&& env_value(credential) is None ==> (env_value(handle) matches Some(h) ==> r == Ok::<
                Seq<char>,
                ErrorView,
            >(config_dir + "/garnet/"@ + h + ".json"@))
            &&& r is Err <==> env_value(credential) is None && env_value(handle) is None
        }),
{
}

/// Host delegation is configured by its directory, and then needs its id and its secret file; the
/// settings are the three values as they are.
pub proof fn delegation_needs_all_three_settings(
    channel_dir: Option<Seq<char>>,
    channel_id: Option<Seq<char>>,
    secret_file: Option<Seq<char>>,
)
    ensures
        match delegation_configured(channel_dir, channel_id, secret_file) {
            Ok(None) => channel_dir is None,
            Ok(Some(d)) => channel_dir == Some(d.channel_dir) && channel_id == Some(d.channel_id)
                && secret_file == Some(d.secret_file),
            Err(e) => channel_dir is Some && (channel_id is None || secret_file is None)
                && e.exit_code == 50,
        },
{
}

/// A configured broker comes before a configured channel, and that before the host's own tier;
/// a pickup comes first where the broker's credential is not there yet.
pub proof fn the_broker_comes_before_the_channel(
    broker_configured: bool,
    credential_exists: bool,
    channel_configured: bool,
    tier: Tier,
)
    ensures
        ({
            let r = backend_selected(
                broker_configured,
                credential_exists,
                channel_configured,
                tier,
            );
            &&& r == Backend::Broker <==> broker_configured && credential_exists
            &&& r == Backend::BrokerAfterPickup <==> broker_configured && !credential_exists
            &&& r == Backend::Delegated <==> !broker_configured && channel_configured
            &&& r == Backend::Native(tier) <==> !broker_configured && !channel_configured
        }),
{
}

/// A failure whose kind the wire does not know comes back as a generic one, with its message.
pub proof fn an_unknown_wire_failure_is_generic(code: Seq<char>, message: Seq<char>)
    requires
        code != "key_already_exists"@,
        code != "key_not_found"@,
        code != "unsupported_algorithm"@,
        code != "invalid_arguments"@,
        code != "invalid_data"@,
        code != "unsupported_platform"@,
        code != "authorization_denied"@,
        code != "filesystem_error"@,
        code != "encryption_failed"@,
        code != "decrypt_failed"@,
        code != "se_locked"@,
        code != "output_error"@,
        code != "access_paused"@,
    ensures
        wire_error(code, message).exit_code == 1,
        wire_error(code, message).message == message,
{
}

/// A value of the environment counts as set where anything but white space is in it, and is taken
/// without the white space around it.
pub proof fn a_blank_value_counts_as_unset(raw: Seq<char>)
    ensures
        env_value(None) is None,
        env_value(Some(raw)) is None <==> forall|i: int|
            0 <= i < raw.len() ==> white_space(#[trigger] raw[i]),
        env_value(Some(raw)) matches Some(v) ==> v.len() > 0 && !white_space(v[0])
            && !white_space(v.last()) && holds(raw, v),
{
    let at: int = trimming_takes_off_all_white_space(raw);
    let v = trimmed(raw);
    if v.len() > 0 {
        assert(raw[at] == raw.subrange(at, at + v.len())[0]);
        assert(!white_space(raw[at]));
        assert(found_at(raw, v, at));
    } else {
        assert forall|i: int| 0 <= i < raw.len() implies white_space(#[trigger] raw[i]) by {}
    }
}

} // verus!
