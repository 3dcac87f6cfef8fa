//! The `software` keystore backend.
//!
//! Keys are records in files of the keystore directory. A record holds the public half, and the
//! secret half sealed under the keystore's own key: a twelve-byte nonce and the ciphertext, in
//! standard base64, bound to the label. The post-quantum keys are held as the seeds they expand
//! from.

use kem::Decapsulate;
use ml_kem::{EncodedSizeUser, KemCore};
use vstd::prelude::*;
use vstd::utf8::encode_utf8;

use super::client::meta_views;
use super::listing::{a_listing_is_ordered_and_complete, by_label, in_order, sort_by_label};
use super::{
    array_of, handle_checked, labels_read_back, mldsa_ctx_checked, validate_mldsa_ctx, KeyFacts,
    KeyLabel, KeyMeta, Labelled, Purpose, Tier,
};
use crate::codec::{
    base64_bytes, base64_decode, base64_encode, base64_text, base64url_bytes, base64url_decode,
    base64url_encode, base64url_text,
};
use crate::error::{outcome, seen, CliError, ErrorView};
use crate::random::{drawn, random_bytes};
use crate::text::{bytes_of, copy_bytes, ends_with, join2, join3};

verus! {

/// The file that holds a key's record.
pub fn key_file_name(label: &KeyLabel) -> (r: String)
    ensures
        r@ == label@.full() + ".json"@,
{
    join2(&label.full(), ".json")
}

/// Whether a file of the keystore directory is a record: its extension is `json`.
pub fn is_record(file_name: &str) -> (r: bool)
    ensures
        r == (".json"@.is_suffix_of(file_name@) && file_name@.len() > 5),
{
    ends_with(file_name, ".json") && file_name.unicode_len() > 5
}

/// What a sealed secret is bound to: the keystore's domain and the label.
pub open spec fn binding(label: Labelled) -> Seq<u8> {
    encode_utf8("signet-cli-keystore-v1\0"@) + encode_utf8(label.full())
}

/// The associated data that a key's secret is sealed with.
pub fn at_rest_aad(label: &KeyLabel) -> (r: Vec<u8>)
    ensures
        r@ == binding(label@),
{
    let mut aad = bytes_of("signet-cli-keystore-v1\0");
    let mut rest = bytes_of(&label.full());
    aad.append(&mut rest);
    aad
}

/// The secrets of two keys are bound to different data, so that neither can be opened in the
/// place of the other.
pub proof fn bindings_differ(a: Labelled, b: Labelled)
    requires
        handle_checked(a.handle) is Ok,
        handle_checked(b.handle) is Ok,
        a != b,
    ensures
        binding(a) != binding(b),
{
    broadcast use vstd::utf8::encode_utf8_decode_utf8;

    labels_read_back(a, None);
    labels_read_back(b, None);
    let d = encode_utf8("signet-cli-keystore-v1\0"@);
    if binding(a) == binding(b) {
        assert(encode_utf8(a.full()) =~= binding(a).skip(d.len() as int));
        assert(encode_utf8(b.full()) =~= binding(b).skip(d.len() as int));
        assert(vstd::utf8::decode_utf8(encode_utf8(a.full())) == a.full());
        assert(vstd::utf8::decode_utf8(encode_utf8(b.full())) == b.full());
    }
}

/// A sealed secret as it is stored: the nonce and the ciphertext, in standard base64.
pub open spec fn framed(nonce: Seq<u8>, ct: Seq<u8>) -> Seq<char> {
    base64_text(nonce + ct)
}

/// The nonce and the ciphertext of a stored secret.
pub open spec fn unframed(blob: Seq<char>) -> Result<(Seq<u8>, Seq<u8>), ErrorView> {
    match base64_bytes(blob) {
        None => Err(ErrorView::filesystem("malformed stored scalar blob"@)),
        Some(b) => if b.len() < 12 {
            Err(ErrorView::filesystem("stored scalar blob truncated"@))
        } else {
            Ok((b.take(12), b.skip(12)))
        },
    }
}

/// Put a sealed secret into the form it is stored in. It comes apart again into the nonce and
/// the ciphertext.
pub fn frame_blob(nonce: [u8; 12], ct: &[u8]) -> (r: String)
    ensures
        r@ == framed(nonce@, ct@),
        unframed(r@) == Ok::<(Seq<u8>, Seq<u8>), ErrorView>((nonce@, ct@)),
{
    let mut blob = copy_bytes(&nonce);
    let mut rest = copy_bytes(ct);
    blob.append(&mut rest);
    assert(blob@.take(12) =~= nonce@);
    assert(blob@.skip(12) =~= ct@);
    base64_encode(&blob)
}

/// Take a stored secret apart into its nonce and its ciphertext.
pub fn split_blob(blob: &str) -> (r: Result<([u8; 12], Vec<u8>), CliError>)
    ensures
        match r {
            Ok((nonce, ct)) => unframed(blob@) == Ok::<(Seq<u8>, Seq<u8>), ErrorView>(
                (nonce@, ct@),
            ),
            Err(e) => unframed(blob@) == Err::<(Seq<u8>, Seq<u8>), ErrorView>(e@),
        },
{
    let mut nonce = match base64_decode(blob) {
        None => return Err(CliError::filesystem("malformed stored scalar blob")),
        Some(b) => b,
    };
    if nonce.len() < 12 {
        return Err(CliError::filesystem("stored scalar blob truncated"));
    }
    let ghost whole = nonce@;
    let ct = nonce.split_off(12);
    assert(nonce@ =~= whole.take(12));
    assert(ct@ =~= whole.skip(12));
    match array_of::<12>(nonce) {
        Some(n) => Ok((n, ct)),
        None => Err(CliError::filesystem("stored scalar blob truncated")),
    }
}

/// A fresh nonce: what the operating system gives of twelve random bytes, or none where it has
/// none to give.
pub fn fresh_nonce() -> (r: Option<[u8; 12]>)
    ensures
        drawn(r),
{
    random_bytes::<12>()
}

/// A key's record.
pub struct StoredKey {
    pub label: String,
    pub purpose: String,
    pub algorithm: String,
    pub tier: String,
    pub fingerprint: String,
    /// The public key, in URL-safe base64.
    pub public_key_b64url: String,
    /// The sealed secret, in standard base64.
    pub scalar_blob_b64: String,
}

/// [`StoredKey`], viewed.
pub struct Record {
    pub label: Seq<char>,
    pub purpose: Seq<char>,
    pub algorithm: Seq<char>,
    pub tier: Seq<char>,
    pub fingerprint: Seq<char>,
    pub public_key: Seq<char>,
    pub blob: Seq<char>,
}

impl View for StoredKey {
    type V = Record;

    open spec fn view(&self) -> Record {
        Record {
            label: self.label@,
            purpose: self.purpose@,
            algorithm: self.algorithm@,
            tier: self.tier@,
            fingerprint: self.fingerprint@,
            public_key: self.public_key_b64url@,
            blob: self.scalar_blob_b64@,
        }
    }
}

/// What a record says of its key.
pub open spec fn record_facts(r: Record) -> Result<KeyFacts, ErrorView> {
    match base64url_bytes(r.public_key) {
        None => Err(ErrorView::filesystem("malformed stored public key"@)),
        Some(public_key) => Ok(
            KeyFacts {
                label: r.label,
                purpose: r.purpose,
                algorithm: r.algorithm,
                storage: r.tier,
                fingerprint: r.fingerprint,
                public_key,
            },
        ),
    }
}

/// Read a record's metadata.
pub fn to_meta(stored: StoredKey) -> (r: Result<KeyMeta, CliError>)
    ensures
        outcome(r) == record_facts(stored@),
{
    match base64url_decode(&stored.public_key_b64url) {
        None => Err(CliError::filesystem("malformed stored public key")),
        Some(public_key) => Ok(
            KeyMeta {
                label: stored.label,
                purpose: stored.purpose,
                algorithm: stored.algorithm,
                storage: stored.tier,
                fingerprint: stored.fingerprint,
                public_key,
            },
        ),
    }
}

/// A software key's metadata.
pub open spec fn software_facts(
    label: Labelled,
    algorithm: Seq<char>,
    fingerprint: Seq<char>,
    public_key: Seq<u8>,
) -> KeyFacts {
    KeyFacts {
        label: label.full(),
        purpose: label.purpose.name(),
        algorithm,
        storage: Tier::Software.display(),
        fingerprint,
        public_key,
    }
}

/// The record of a software key, its sealed secret being `blob`.
pub open spec fn recorded(
    label: Labelled,
    algorithm: Seq<char>,
    fingerprint: Seq<char>,
    public_key: Seq<u8>,
    blob: Seq<char>,
) -> Record {
    Record {
        label: label.full(),
        purpose: label.purpose.name(),
        algorithm,
        tier: Tier::Software.display(),
        fingerprint,
        public_key: base64url_text(public_key),
        blob,
    }
}

/// The record of a key that was just generated. It reads back as the key's metadata.
pub fn new_record(
    label: &KeyLabel,
    algorithm: &str,
    fingerprint: &str,
    public_key: &[u8],
    blob: String,
) -> (r: StoredKey)
    ensures
        r@ == recorded(label@, algorithm@, fingerprint@, public_key@, blob@),
        record_facts(r@) == Ok::<KeyFacts, ErrorView>(
            software_facts(label@, algorithm@, fingerprint@, public_key@),
        ),
{
    StoredKey {
        label: label.full(),
        purpose: label.purpose().as_str().to_owned(),
        algorithm: algorithm.to_owned(),
        tier: Tier::Software.as_str().to_owned(),
        fingerprint: fingerprint.to_owned(),
        public_key_b64url: base64url_encode(public_key),
        scalar_blob_b64: blob,
    }
}

/// The failure of generating a key that is there already.
pub open spec fn already_held(label: Labelled) -> ErrorView {
    ErrorView::key_exists("a key '"@ + label.full() + "' already exists; delete it first"@)
}

/// Refuse to generate a key that is there already.
pub fn check_absent(label: &KeyLabel, held: bool) -> (r: Result<(), CliError>)
    ensures
        outcome(r) == if held {
            Err::<(), ErrorView>(already_held(label@))
        } else {
            Ok(())
        },
{
    if held {
        Err(
            CliError::key_exists(
                &join3("a key '", &label.full(), "' already exists; delete it first"),
            ),
        )
    } else {
        Ok(())
    }
}

/// What the records of a directory say of their keys, in the order of their labels; the first
/// record with a malformed public key is the failure.
pub open spec fn records_listed(records: Seq<StoredKey>) -> Result<Seq<KeyFacts>, ErrorView> {
    match read_all(records) {
        Ok(facts) => Ok(by_label(facts)),
        Err(e) => Err(e),
    }
}

/// What records say of their keys, in the order they came in.
pub open spec fn read_all(records: Seq<StoredKey>) -> Result<Seq<KeyFacts>, ErrorView>
    decreases records.len(),
{
    if records.len() == 0 {
        Ok(Seq::empty())
    } else {
        match read_all(records.drop_last()) {
            Err(e) => Err(e),
            Ok(facts) => match record_facts(records.last()@) {
                Ok(f) => Ok(facts.push(f)),
                Err(e) => Err(e),
            },
        }
    }
}

proof fn a_failure_stays(records: Seq<StoredKey>, n: int)
    requires
        0 <= n <= records.len(),
        read_all(records.take(n)) is Err,
    ensures
        read_all(records) == read_all(records.take(n)),
    decreases records.len(),
{
    if n < records.len() {
        assert(records.drop_last().take(n) =~= records.take(n));
        a_failure_stays(records.drop_last(), n);
    } else {
        assert(records.take(n) =~= records);
    }
}

/// List the keys of a directory's records.
pub fn list_records(records: Vec<StoredKey>) -> (r: Result<Vec<KeyMeta>, CliError>)
    ensures
        match r {
            Ok(keys) => records_listed(records@) == Ok::<Seq<KeyFacts>, ErrorView>(
                meta_views(keys@),
            ),
            Err(e) => records_listed(records@) == Err::<Seq<KeyFacts>, ErrorView>(e@),
        },
{
    let mut rest = records;
    let mut out: Vec<KeyMeta> = Vec::new();
    let ghost all = records@;
    assert(all.take(0) =~= Seq::empty());
    assert(meta_views(out@) =~= Seq::empty());
    assert(rest@ =~= all.skip(0));
    while rest.len() > 0
        invariant
            all == records@,
            rest@.len() <= all.len(),
            rest@ == all.skip(all.len() - rest@.len()),
            read_all(all.take(all.len() - rest@.len())) == Ok::<Seq<KeyFacts>, ErrorView>(
                meta_views(out@),
            ),
        decreases rest@.len(),
    {
        let ghost done: int = all.len() - rest@.len();
        let stored = rest.remove(0);
        proof {
            assert(stored == all[done]);
            assert(rest@ =~= all.skip(done + 1));
            assert(all.take(done + 1).drop_last() =~= all.take(done));
            assert(all.take(done + 1).last() == stored);
        }
        match to_meta(stored) {
            Ok(m) => {
                assert(meta_views(out@.push(m)) =~= meta_views(out@).push(m@));
                out.push(m);
            },
            Err(e) => {
                proof {
                    a_failure_stays(all, done + 1);
                }
                return Err(e);
            },
        }
    }
    assert(all.take(all.len() as int) =~= all);
    Ok(sort_by_label(out))
}

/// The keystore's own key, from the bytes of its file.
pub fn read_kek(bytes: Vec<u8>) -> (r: Result<[u8; 32], CliError>)
    ensures
        match r {
            Ok(k) => bytes@.len() == 32 && k@ == bytes@,
            Err(e) => bytes@.len() != 32 && e@ == ErrorView::config(
                "keystore KEK is not 32 bytes"@,
            ),
        },
{
    match array_of::<32>(bytes) {
        Some(k) => Ok(k),
        None => Err(CliError::config("keystore KEK is not 32 bytes")),
    }
}

/// A fresh key for a keystore: what the operating system gives of 32 random bytes, or none where
/// it has none to give.
pub fn fresh_kek() -> (r: Option<[u8; 32]>)
    ensures
        drawn(r),
{
    random_bytes::<32>()
}

/// The scalar of a classical key, from the bytes that were unsealed.
pub fn read_scalar(bytes: Vec<u8>) -> (r: Result<[u8; 32], CliError>)
    ensures
        match r {
            Ok(k) => bytes@.len() == 32 && k@ == bytes@,
            Err(e) => bytes@.len() != 32 && e@ == ErrorView::decrypt_failed(
                "decrypted scalar wrong length"@,
            ),
        },
{
    match array_of::<32>(bytes) {
        Some(k) => Ok(k),
        None => Err(CliError::decrypt_failed("decrypted scalar wrong length")),
    }
}

/// The ML-DSA-87 verification key that a seed expands to.
pub uninterp spec fn mldsa_public(seed: Seq<u8>) -> Seq<u8>;

/// Whether an ML-DSA-87 signature over a message and a context verifies under a key.
pub uninterp spec fn mldsa_verifies(
    public_key: Seq<u8>,
    msg: Seq<u8>,
    ctx: Seq<u8>,
    signature: Seq<u8>,
) -> bool;

/// The ML-KEM-1024 encapsulation key that the seeds `d` and `z` expand to.
pub uninterp spec fn mlkem_public(d: Seq<u8>, z: Seq<u8>) -> Seq<u8>;

/// The shared secret that the ML-KEM-1024 key of the seeds `d` and `z` finds in a ciphertext.
pub uninterp spec fn mlkem_shared(d: Seq<u8>, z: Seq<u8>, ct: Seq<u8>) -> Seq<u8>;

/// `ml_dsa`'s `ExpandedSigningKey::from_seed`, then `verifying_key` and its encoding, of 2592
/// bytes.
#[verifier::external_body]
fn mldsa_public_key(seed: &[u8; 32]) -> (r: Vec<u8>)
    ensures
        r@ == mldsa_public(seed@),
        r@.len() == 2592,
{
    let key = ml_dsa::ExpandedSigningKey::<ml_dsa::MlDsa87>::from_seed(&ml_dsa::Seed::from(*seed));
    key.verifying_key().encode().to_vec()
}

/// `ml_dsa`'s `ExpandedSigningKey::sign_randomized` with the operating system's randomness: a
/// signature of 4627 bytes that verifies under the seed's key, over the message and the context.
/// There is none where the randomness or the rejection sampling fails. Which of the valid
/// signatures comes back is left to chance.
#[verifier::external_body]
fn mldsa_sign(seed: &[u8; 32], msg: &[u8], ctx: &[u8]) -> (r: Option<Vec<u8>>)
    requires
        ctx@.len() <= 255,
    ensures
        r is Some ==> r->0@.len() == 4627 && mldsa_verifies(
            mldsa_public(seed@),
            msg@,
            ctx@,
            r->0@,
        ),
{
    let key = ml_dsa::ExpandedSigningKey::<ml_dsa::MlDsa87>::from_seed(&ml_dsa::Seed::from(*seed));
    let mut rng = ml_dsa::common::getrandom::SysRng;
    key.sign_randomized(msg, ctx, &mut rng).ok().map(|s| s.encode().to_vec())
}

/// `ml_dsa`'s `VerifyingKey::decode` and `Signature::decode`, then `verify_with_context`; a
/// signature that does not decode verifies nothing.
#[verifier::external_body]
fn mldsa_verify(public_key: &[u8], msg: &[u8], ctx: &[u8], signature: &[u8]) -> (r: bool)
    requires
        public_key@.len() == 2592,
        signature@.len() == 4627,
    ensures
        r == mldsa_verifies(public_key@, msg@, ctx@, signature@),
{
    let key = ml_dsa::EncodedVerifyingKey::<ml_dsa::MlDsa87>::try_from(public_key);
    let signature = ml_dsa::Signature::<ml_dsa::MlDsa87>::try_from(signature);
    match (key, signature) {
        (Ok(k), Ok(s)) => {
            ml_dsa::VerifyingKey::<ml_dsa::MlDsa87>::decode(&k).verify_with_context(msg, ctx, &s)
        },
        _ => false,
    }
}

/// `ml_kem`'s `MlKem1024::generate_deterministic`: the encapsulation key's encoding, of 1568
/// bytes.
#[verifier::external_body]
fn mlkem_public_key(d: &[u8; 32], z: &[u8; 32]) -> (r: Vec<u8>)
    ensures
        r@ == mlkem_public(d@, z@),
        r@.len() == 1568,
{
    let (_, ek) = ml_kem::MlKem1024::generate_deterministic(&(*d).into(), &(*z).into());
    ek.as_bytes().to_vec()
}

/// `ml_kem`'s `MlKem1024::generate_deterministic`, then `decapsulate` on its decapsulation key.
/// It fails on no ciphertext of 1568 bytes: one that was tampered with yields another secret.
#[verifier::external_body]
fn mlkem_decapsulate(d: &[u8; 32], z: &[u8; 32], ct: &[u8]) -> (r: Option<[u8; 32]>)
    requires
        ct@.len() == 1568,
    ensures
        r is Some,
        r->0@ == mlkem_shared(d@, z@, ct@),
{
    let (dk, _) = ml_kem::MlKem1024::generate_deterministic(&(*d).into(), &(*z).into());
    let ct = ml_kem::Ciphertext::<ml_kem::MlKem1024>::try_from(ct).ok()?;
    dk.decapsulate(&ct).ok().map(|s| s.into())
}

/// A key pair: the secret that is sealed, and the public key. The secret of a post-quantum key is
/// the seeds that it expands from.
pub struct KeyPair {
    pub secret: Vec<u8>,
    pub public_key: Vec<u8>,
}

/// The public key that the sealed seeds of a post-quantum purpose expand to.
pub open spec fn pq_public(purpose: Purpose, secret: Seq<u8>) -> Seq<u8> {
    if purpose == Purpose::SigningPq {
        mldsa_public(secret)
    } else {
        mlkem_public(secret.take(32), secret.skip(32))
    }
}

/// Whether a key pair is the one that drawn seeds make; there is none where nothing was drawn.
pub open spec fn pq_paired(
    purpose: Purpose,
    seeds: Option<Seq<u8>>,
    pair: Option<KeyPair>,
) -> bool {
    match (seeds, pair) {
        (Some(s), Some(k)) => k.secret@ == s && k.public_key@ == pq_public(purpose, s),
        (None, None) => true,
        _ => false,
    }
}

/// The ML-DSA-87 key pair of a drawn seed.
pub fn signing_pair(seed: Option<[u8; 32]>) -> (r: Option<KeyPair>)
    ensures
        pq_paired(Purpose::SigningPq, seen(seed), r),
        r matches Some(k) ==> k.public_key@.len() == 2592,
{
    match seed {
        None => None,
        Some(s) => Some(KeyPair { secret: copy_bytes(&s), public_key: mldsa_public_key(&s) }),
    }
}

/// The ML-KEM-1024 key pair of drawn seeds, `d` and then `z`.
pub fn kem_pair(seeds: Option<[u8; 64]>) -> (r: Option<KeyPair>)
    ensures
        pq_paired(Purpose::KemPq, seen(seeds), r),
        r matches Some(k) ==> k.public_key@.len() == 1568,
{
    match seeds {
        None => None,
        Some(s) => {
            let mut first = copy_bytes(&s);
            let second = first.split_off(32);
            assert(first@ =~= s@.take(32));
            assert(second@ =~= s@.skip(32));
            match (array_of::<32>(first), array_of::<32>(second)) {
                (Some(d), Some(z)) => Some(
                    KeyPair { secret: copy_bytes(&s), public_key: mlkem_public_key(&d, &z) },
                ),
                _ => None,
            }
        },
    }
}

/// Generate a post-quantum key pair: 32 random bytes for a signing key, 64 for a KEM key; none
/// where the operating system has no randomness to give.
pub fn generate_pq(purpose: Purpose) -> (r: Option<KeyPair>)
    requires
        purpose == Purpose::SigningPq || purpose == Purpose::KemPq,
    ensures
        purpose == Purpose::SigningPq ==> exists|b: Option<[u8; 32]>| #[trigger]
            drawn(b) && pq_paired(purpose, seen(b), r),
        purpose == Purpose::KemPq ==> exists|b: Option<[u8; 64]>| #[trigger]
            drawn(b) && pq_paired(purpose, seen(b), r),
        r matches Some(k) ==> (k.secret@.len(), k.public_key@.len()) == (if purpose
            == Purpose::SigningPq {
            (32nat, 2592nat)
        } else {
            (64nat, 1568nat)
        }),
{
    if purpose == Purpose::SigningPq {
        signing_pair(random_bytes::<32>())
    } else {
        kem_pair(random_bytes::<64>())
    }
}

/// What a secret is sealed with: the nonce, and the data that it is bound to.
pub struct SealInput {
    pub nonce: [u8; 12],
    pub secret: Vec<u8>,
    pub aad: Vec<u8>,
}

/// A key that was just generated: the record that is kept of it, and its metadata.
pub struct Generated {
    pub record: StoredKey,
    pub meta: KeyMeta,
}

/// [`Generated`], viewed.
pub struct Kept {
    pub record: Record,
    pub meta: KeyFacts,
}

impl View for Generated {
    type V = Kept;

    open spec fn view(&self) -> Kept {
        Kept { record: self.record@, meta: self.meta@ }
    }
}

/// The failure of an operating system that has no randomness to give.
pub open spec fn no_randomness() -> ErrorView {
    ErrorView::generic("the operating system gave no randomness"@)
}

/// Whether `pair` may come of generating a key pair for a purpose: `classical` makes those of the
/// classical purposes, and the seeds of the post-quantum ones are drawn.
pub open spec fn pair_generated<C: FnOnce(Purpose) -> KeyPair>(
    purpose: Purpose,
    classical: C,
    pair: Option<KeyPair>,
) -> bool {
    match purpose {
        Purpose::SigningPq => exists|b: Option<[u8; 32]>| #[trigger]
            drawn(b) && pq_paired(purpose, seen(b), pair),
        Purpose::KemPq => exists|b: Option<[u8; 64]>| #[trigger]
            drawn(b) && pq_paired(purpose, seen(b), pair),
        _ => pair is Some && call_ensures(classical, (purpose,), pair->0),
    }
}

/// Whether `r` is what generating a key comes to: it is refused where the key is there already;
/// else the pair is generated, `fingerprint` makes the fingerprint of its public key, and `seal`
/// seals its secret under a fresh nonce, bound to this label.
pub open spec fn generation<
    C: FnOnce(Purpose) -> KeyPair,
    P: FnOnce(Purpose, &Vec<u8>) -> Result<String, CliError>,
    S: FnOnce(&SealInput) -> Result<Vec<u8>, CliError>,
>(
    label: Labelled,
    algorithm: Seq<char>,
    held: bool,
    classical: C,
    fingerprint: P,
    seal: S,
    r: Result<Kept, ErrorView>,
) -> bool {
    if held {
        r == Err::<Kept, ErrorView>(already_held(label))
    } else {
        exists|pair: Option<KeyPair>| #[trigger]
            pair_generated(label.purpose, classical, pair) && match pair {
                None => r == Err::<Kept, ErrorView>(no_randomness()),
                Some(k) => exists|p: &Vec<u8>, f: Result<String, CliError>| #[trigger]
                    call_ensures(fingerprint, (label.purpose, p), f) && p@ == k.public_key@
                        && match f {
                        Err(e) => r == Err::<Kept, ErrorView>(e@),
                        Ok(shown) => sealed(label, algorithm, k, shown@, seal, r),
                    },
            }
    }
}

/// [`generation`], once the pair and its fingerprint are there.
pub open spec fn sealed<S: FnOnce(&SealInput) -> Result<Vec<u8>, CliError>>(
    label: Labelled,
    algorithm: Seq<char>,
    pair: KeyPair,
    fingerprint: Seq<char>,
    seal: S,
    r: Result<Kept, ErrorView>,
) -> bool {
    exists|n: Option<[u8; 12]>| #[trigger]
        drawn(n) && match n {
            None => r == Err::<Kept, ErrorView>(no_randomness()),
            Some(nonce) => exists|i: &SealInput, c: Result<Vec<u8>, CliError>| #[trigger]
                call_ensures(seal, (i,), c) && i.nonce == nonce && i.secret@ == pair.secret@
                    && i.aad@ == binding(label) && match c {
                    Err(e) => r == Err::<Kept, ErrorView>(e@),
                    Ok(ct) => r == Ok::<Kept, ErrorView>(
                        Kept {
                            record: recorded(
                                label,
                                algorithm,
                                fingerprint,
                                pair.public_key@,
                                framed(nonce@, ct@),
                            ),
                            meta: software_facts(
                                label,
                                algorithm,
                                fingerprint,
                                pair.public_key@,
                            ),
                        },
                    ),
                },
        }
}

/// Generate a key. `held` tells whether there is a record of it already, `classical` makes a
/// classical key pair, `fingerprint` the fingerprint of a public key, and `seal` seals a secret.
/// The record reads back as the metadata.
pub fn generate<
    C: FnOnce(Purpose) -> KeyPair,
    P: FnOnce(Purpose, &Vec<u8>) -> Result<String, CliError>,
    S: FnOnce(&SealInput) -> Result<Vec<u8>, CliError>,
>(
    label: &KeyLabel,
    algorithm: &str,
    held: bool,
    classical: C,
    fingerprint: P,
    seal: S,
) -> (r: Result<Generated, CliError>)
    requires
        forall|purpose: Purpose| #[trigger] call_requires(classical, (purpose,)),
        forall|purpose: Purpose, public_key: &Vec<u8>| #[trigger]
            call_requires(fingerprint, (purpose, public_key)),
        forall|i: &SealInput| #[trigger] call_requires(seal, (i,)),
    ensures
        generation(label@, algorithm@, held, classical, fingerprint, seal, outcome(r)),
        r matches Ok(g) ==> record_facts(g.record@) == Ok::<KeyFacts, ErrorView>(g.meta@),
{
    match check_absent(label, held) {
        Ok(()) => {},
        Err(e) => return Err(e),
    }
    let purpose = label.purpose();
    let pair = if purpose.is_pq() {
        generate_pq(purpose)
    } else {
        Some(classical(purpose))
    };
    assert(pair_generated(purpose, classical, pair));
    let k = match pair {
        Some(k) => k,
        None => return Err(CliError::generic("the operating system gave no randomness")),
    };
    let shown = fingerprint(purpose, &k.public_key);
    assert(call_ensures(fingerprint, (purpose, &k.public_key), shown));
    let shown = match shown {
        Ok(f) => f,
        Err(e) => return Err(e),
    };
    let nonce = fresh_nonce();
    assert(drawn(nonce));
    let nonce = match nonce {
        Some(n) => n,
        None => {
            assert(sealed(label@, algorithm@, k, shown@, seal, Err(no_randomness())));
            return Err(CliError::generic("the operating system gave no randomness"));
        },
    };
    let input = SealInput { nonce, secret: copy_bytes(&k.secret), aad: at_rest_aad(label) };
    let ct = seal(&input);
    assert(call_ensures(seal, (&input,), ct));
    let ct = match ct {
        Ok(ct) => ct,
        Err(e) => {
            assert(sealed(label@, algorithm@, k, shown@, seal, Err(e@)));
            return Err(e);
        },
    };
    let blob = frame_blob(nonce, &ct);
    let record = new_record(label, algorithm, &shown, &k.public_key, blob);
    let meta = KeyMeta {
        label: label.full(),
        purpose: purpose.as_str().to_owned(),
        algorithm: algorithm.to_owned(),
        storage: Tier::Software.as_str().to_owned(),
        fingerprint: shown,
        public_key: k.public_key,
    };
    let g = Generated { record, meta };
    assert(sealed(label@, algorithm@, k, g.meta.fingerprint@, seal, Ok(g@)));
    Ok(g)
}

/// What decapsulating a ciphertext with the unsealed seeds of a key comes to.
pub open spec fn decapsulated(secret: Seq<u8>, ct: Seq<u8>) -> Result<Seq<u8>, ErrorView> {
    if secret.len() != 64 {
        Err(ErrorView::decrypt_failed("stored ML-KEM seed wrong length"@))
    } else if ct.len() != 1568 {
        Err(ErrorView::invalid_data("ml-kem ciphertext must be 1568 bytes"@))
    } else {
        Ok(mlkem_shared(secret.take(32), secret.skip(32), ct))
    }
}

/// Decapsulate a ciphertext with the unsealed seeds of a key.
pub fn decapsulate(secret: Vec<u8>, ct: &[u8]) -> (r: Result<[u8; 32], CliError>)
    ensures
        match r {
            Ok(s) => decapsulated(secret@, ct@) == Ok::<Seq<u8>, ErrorView>(s@),
            Err(e) => decapsulated(secret@, ct@) == Err::<Seq<u8>, ErrorView>(e@),
        },
{
    let ghost whole = secret@;
    let mut first = secret;
    if first.len() != 64 {
        return Err(CliError::decrypt_failed("stored ML-KEM seed wrong length"));
    }
    if ct.len() != 1568 {
        return Err(CliError::invalid_data("ml-kem ciphertext must be 1568 bytes"));
    }
    let second = first.split_off(32);
    assert(first@ =~= whole.take(32));
    assert(second@ =~= whole.skip(32));
    match (array_of::<32>(first), array_of::<32>(second)) {
        (Some(d), Some(z)) => match mlkem_decapsulate(&d, &z, ct) {
            Some(s) => Ok(s),
            None => Err(CliError::decrypt_failed("ml-kem decapsulation failed")),
        },
        _ => Err(CliError::decrypt_failed("stored ML-KEM seed wrong length")),
    }
}

/// What stands in the way of a signature with the unsealed seed of a key: a context that is too
/// long, or a seed of the wrong length.
pub open spec fn signing_refused(secret: Seq<u8>, ctx: Seq<u8>) -> Option<ErrorView> {
    match mldsa_ctx_checked(ctx.len()) {
        Err(e) => Some(e),
        Ok(_) => if secret.len() != 32 {
            Some(ErrorView::decrypt_failed("stored ML-DSA seed wrong length"@))
        } else {
            None
        },
    }
}

/// Whether `signature` may come of signing a message under a context with a seed's key: the
/// signature that was made, or none where the randomness or the sampling failed. Two requests may
/// come to different signatures.
pub closed spec fn signature_made(
    seed: Seq<u8>,
    msg: Seq<u8>,
    ctx: Seq<u8>,
    signature: Option<Seq<u8>>,
) -> bool {
    exists|s: &[u8; 32], m: &[u8], c: &[u8], out: Option<Vec<u8>>| #[trigger]
        call_ensures(mldsa_sign, (s, m, c), out) && s@ == seed && m@ == msg && c@ == ctx && seen(
            out,
        ) == signature
}

/// Sign a message under a context with the unsealed seed of a key. A signature verifies under
/// the seed's key; where nothing stands in its way it fails only if the randomness or the
/// sampling does.
pub fn sign_pq(secret: Vec<u8>, msg: &[u8], ctx: &[u8]) -> (r: Result<Vec<u8>, CliError>)
    ensures
        match signing_refused(secret@, ctx@) {
            Some(e) => outcome(r) == Err::<Seq<u8>, ErrorView>(e),
            None => exists|s: Option<Seq<u8>>| #[trigger]
                signature_made(secret@, msg@, ctx@, s) && outcome(r) == match s {
                    Some(signature) => Ok::<Seq<u8>, ErrorView>(signature),
                    None => Err(ErrorView::generic("ml-dsa signing failed"@)),
                },
        },
        r matches Ok(s) ==> s@.len() == 4627 && mldsa_verifies(
            mldsa_public(secret@),
            msg@,
            ctx@,
            s@,
        ),
{
    match validate_mldsa_ctx(ctx) {
        Ok(()) => {},
        Err(e) => return Err(e),
    }
    let seed = match array_of::<32>(secret) {
        Some(s) => s,
        None => return Err(CliError::decrypt_failed("stored ML-DSA seed wrong length")),
    };
    let made = mldsa_sign(&seed, msg, ctx);
    assert(call_ensures(mldsa_sign, (&seed, msg, ctx), made));
    assert(signature_made(secret@, msg@, ctx@, seen(made)));
    match made {
        Some(s) => Ok(s),
        None => Err(CliError::generic("ml-dsa signing failed")),
    }
}

/// Whether a signature over a message and a context verifies under an ML-DSA-87 key; one of the
/// wrong length, or under a key of the wrong length, does not.
pub fn verify_pq(public_key: &[u8], msg: &[u8], ctx: &[u8], signature: &[u8]) -> (r: bool)
    ensures
        r == (public_key@.len() == 2592 && signature@.len() == 4627 && mldsa_verifies(
            public_key@,
            msg@,
            ctx@,
            signature@,
        )),
{
    public_key.len() == 2592 && signature.len() == 4627 && mldsa_verify(
        public_key,
        msg,
        ctx,
        signature,
    )
}

/// Whether a secret and a public key are a pair of this purpose: as `classical` relates them for
/// the classical purposes, and as the seeds expand for the post-quantum ones.
pub open spec fn paired(
    purpose: Purpose,
    classical: spec_fn(Purpose, Seq<u8>, Seq<u8>) -> bool,
    secret: Seq<u8>,
    public_key: Seq<u8>,
) -> bool {
    match purpose {
        Purpose::Signing => classical(purpose, secret, public_key),
        Purpose::Kem => classical(purpose, secret, public_key),
        Purpose::SigningPq => secret.len() == 32 && public_key == mldsa_public(secret),
        Purpose::KemPq => secret.len() == 64 && public_key == mlkem_public(
            secret.subrange(0, 32),
            secret.subrange(32, 64),
        ),
    }
}

/// A generated key is kept as it was made: its record and its metadata show the public key whose
/// secret was sealed, under a drawn nonce and bound to this very label, with the fingerprint of
/// that public key, under this label and algorithm. The stored blob is the nonce and what sealing
/// gave.
pub proof fn a_generated_key_is_kept_as_it_was_made<
    C: FnOnce(Purpose) -> KeyPair,
    P: FnOnce(Purpose, &Vec<u8>) -> Result<String, CliError>,
    S: FnOnce(&SealInput) -> Result<Vec<u8>, CliError>,
>(
    label: Labelled,
    algorithm: Seq<char>,
    held: bool,
    classical: C,
    fingerprint: P,
    seal: S,
    r: Result<Kept, ErrorView>,
    pairs: spec_fn(Purpose, Seq<u8>, Seq<u8>) -> bool,
    prints: spec_fn(Purpose, Seq<u8>, Result<Seq<char>, ErrorView>) -> bool,
    seals: spec_fn(Seq<u8>, Seq<u8>, Seq<u8>, Result<Seq<u8>, ErrorView>) -> bool,
)
    requires
        forall|purpose: Purpose, k: KeyPair| #[trigger]
            call_ensures(classical, (purpose,), k) ==> pairs(purpose, k.secret@, k.public_key@),
        forall|purpose: Purpose, p: &Vec<u8>, out: Result<String, CliError>| #[trigger]
            call_ensures(fingerprint, (purpose, p), out) ==> prints(purpose, p@, outcome(out)),
        forall|i: &SealInput, out: Result<Vec<u8>, CliError>| #[trigger]
            call_ensures(seal, (i,), out) ==> seals(i.nonce@, i.secret@, i.aad@, outcome(out)),
        generation(label, algorithm, held, classical, fingerprint, seal, r),
    ensures
        held ==> (r matches Err(e) && e.exit_code == 11 && e.code == "key_already_exists"@),
        r matches Ok(kept) ==> {
            let public_key = kept.meta.public_key;
            let bound_to = encode_utf8("signet-cli-keystore-v1\0"@) + encode_utf8(label.full());
            &&& !held
            &&& kept.meta.label == label.full() && kept.record.label == label.full()
            &&& kept.meta.purpose == label.purpose.name() && kept.record.purpose
                == label.purpose.name()
            &&& kept.meta.algorithm == algorithm && kept.record.algorithm == algorithm
            &&& kept.meta.storage == "software"@ && kept.record.tier == "software"@
            &&& kept.record.public_key == base64url_text(public_key)
            &&& kept.record.fingerprint == kept.meta.fingerprint
            &&& prints(label.purpose, public_key, Ok(kept.meta.fingerprint))
            &&& exists|nonce: [u8; 12], secret: Seq<u8>, ct: Seq<u8>| #[trigger]
                seals(nonce@, secret, bound_to, Ok(ct)) && drawn(Some(nonce)) && paired(
                    label.purpose,
                    pairs,
                    secret,
                    public_key,
                ) && kept.record.blob == base64_text(nonce@ + ct)
        },
        r matches Err(e) ==> {
            ||| held
            ||| e == no_randomness()
            ||| exists|p: Seq<u8>| #[trigger] prints(label.purpose, p, Err(e))
            ||| exists|nonce: Seq<u8>, secret: Seq<u8>, aad: Seq<u8>| #[trigger]
                seals(nonce, secret, aad, Err(e))
        },
{
    assert forall|pair: Option<KeyPair>| #[trigger]
        pair_generated(label.purpose, classical, pair) implies (pair matches Some(k) ==> paired(
        label.purpose,
        pairs,
        k.secret@,
        k.public_key@,
    )) by {
        if pair is Some && label.purpose == Purpose::KemPq {
            let secret = pair->0.secret@;
            assert(secret.take(32) =~= secret.subrange(0, 32));
            assert(secret.skip(32) =~= secret.subrange(32, 64));
        }
    }
}

/// A secret that was put into its stored form comes apart again into its nonce and its
/// ciphertext.
pub proof fn a_stored_secret_comes_apart_again(
    nonce: [u8; 12],
    ct: &[u8],
    stored: String,
    text: &str,
    r: Result<([u8; 12], Vec<u8>), CliError>,
)
    requires
        call_ensures(frame_blob, (nonce, ct), stored),
        text@ == stored@,
        call_ensures(split_blob, (text,), r),
    ensures
        r matches Ok(parts) && parts.0@ == nonce@ && parts.1@ == ct@,
{
}

/// A signature made with a seed verifies under the key that the seed expands to, over the same
/// message and context.
pub proof fn signatures_verify(
    secret: Vec<u8>,
    msg: &[u8],
    ctx: &[u8],
    made: Result<Vec<u8>, CliError>,
    public_key: &[u8],
    signature: &[u8],
    verified: bool,
)
    requires
        call_ensures(sign_pq, (secret, msg, ctx), made),
        made is Ok,
        public_key@ == mldsa_public(secret@),
        public_key@.len() == 2592,
        signature@ == made->Ok_0@,
        call_ensures(verify_pq, (public_key, msg, ctx, signature), verified),
    ensures
        verified,
        secret@.len() == 32,
        ctx@.len() <= 255,
{
}

/// A ciphertext is decapsulated if, and only if, it and the seeds have their lengths; the secret
/// is the one that the key of these seeds finds in it.
pub proof fn decapsulation_finds_the_shared_secret(
    secret: Vec<u8>,
    ct: &[u8],
    r: Result<[u8; 32], CliError>,
)
    requires
        call_ensures(decapsulate, (secret, ct), r),
    ensures
        r is Ok <==> secret@.len() == 64 && ct@.len() == 1568,
        r matches Ok(z) ==> z@ == mlkem_shared(
            secret@.subrange(0, 32),
            secret@.subrange(32, 64),
            ct@,
        ),
{
    if secret@.len() == 64 {
        assert(secret@.take(32) =~= secret@.subrange(0, 32));
        assert(secret@.skip(32) =~= secret@.subrange(32, 64));
    }
}

proof fn every_record_is_read(records: Seq<StoredKey>)
    ensures
        match read_all(records) {
            Ok(facts) => facts.len() == records.len() && forall|i: int|
                0 <= i < records.len() ==> record_facts((#[trigger] records[i])@) == Ok::<
                    KeyFacts,
                    ErrorView,
                >(facts[i]),
            Err(e) => exists|i: int|
                0 <= i < records.len() && record_facts((#[trigger] records[i])@) == Err::<
                    KeyFacts,
                    ErrorView,
                >(e),
        },
    decreases records.len(),
{
    if records.len() > 0 {
        let before = records.drop_last();
        every_record_is_read(before);
        assert forall|i: int| 0 <= i < before.len() implies #[trigger] records[i]
            == before[i] by {}
        if read_all(before) is Err {
            let e = read_all(before)->Err_0;
            let i: int = choose|i: int|
                0 <= i < before.len() && record_facts((#[trigger] before[i])@) == Err::<
                    KeyFacts,
                    ErrorView,
                >(e);
            assert(records[i] == before[i]);
        } else {
            assert(records[records.len() - 1] == records.last());
        }
    }
}

/// A listing of the records shows each of them once, with its own label, purpose, algorithm,
/// fingerprint and public key, in the order of the labels. It fails only where some record's
/// public key cannot be read.
pub proof fn a_listing_shows_every_record(records: Seq<StoredKey>)
    ensures
        match records_listed(records) {
            Ok(shown) => in_order(shown) && exists|facts: Seq<KeyFacts>|
                #![trigger facts.to_multiset()]
                facts.to_multiset() == shown.to_multiset() && facts.len() == records.len()
                    && forall|i: int|
                    0 <= i < records.len() ==> {
                        let r = (#[trigger] records[i])@;
                        &&& facts[i].label == r.label
                        &&& facts[i].purpose == r.purpose
                        &&& facts[i].algorithm == r.algorithm
                        &&& facts[i].storage == r.tier
                        &&& facts[i].fingerprint == r.fingerprint
                        &&& base64url_bytes(r.public_key) == Some(facts[i].public_key)
                    },
            Err(e) => e.code == "filesystem_error"@ && exists|i: int|
                0 <= i < records.len() && base64url_bytes(
                    (#[trigger] records[i])@.public_key,
                ) is None,
        },
{
    every_record_is_read(records);
    if read_all(records) is Ok {
        let facts = read_all(records)->Ok_0;
        a_listing_is_ordered_and_complete(facts);
        assert(facts.to_multiset() == by_label(facts).to_multiset());
    }
}

/// A seed of the wrong length, or a context that is too long, signs nothing; where both have
/// their lengths, a failure is one of the signing alone, and told apart from a wrong seed.
pub proof fn a_whole_seed_signs(
    secret: Vec<u8>,
    msg: &[u8],
    ctx: &[u8],
    made: Result<Vec<u8>, CliError>,
)
    requires
        call_ensures(sign_pq, (secret, msg, ctx), made),
    ensures
        secret@.len() != 32 || ctx@.len() > 255 ==> made is Err,
        ctx@.len() <= 255 && secret@.len() != 32 ==> outcome(made) == Err::<Seq<u8>, ErrorView>(
            ErrorView::decrypt_failed("stored ML-DSA seed wrong length"@),
        ),
        ctx@.len() <= 255 && secret@.len() == 32 && made is Err ==> outcome(made) == Err::<
            Seq<u8>,
            ErrorView,
        >(ErrorView::generic("ml-dsa signing failed"@)),
{
}

} // verus!
