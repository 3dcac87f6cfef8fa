//! The two halves of a hybrid key wrap: encapsulation to a recipient, and the keystore calls
//! that recover the shared secrets.

use ml_kem::{EncapsulateDeterministic, EncodedSizeUser, KemCore};
use vstd::prelude::*;

use crate::codec::{base64url_bytes, base64url_decode};
use crate::error::{outcome, CliError, ErrorView};
use crate::keystore::se_shim::MLKEM1024_EK_LEN;
use crate::keystore::{Behaviour, KeyFacts, KeyLabel, KeyMeta, Keystore, Labelled};
use crate::random::{drawn, random_bytes};
use crate::text::join3;

verus! {

/// The ciphertext and the shared secret that encapsulating the random value `m` to an
/// ML-KEM-1024 encapsulation key gives.
pub uninterp spec fn mlkem_encapsulated(ek: Seq<u8>, m: Seq<u8>) -> (Seq<u8>, Seq<u8>);

/// A ciphertext and a shared secret, viewed.
pub open spec fn encapsulation(r: Option<(Vec<u8>, [u8; 32])>) -> Option<(Seq<u8>, Seq<u8>)> {
    match r {
        Some((ct, z)) => Some((ct@, z@)),
        None => None,
    }
}

/// `ml_kem`'s `EncapsulationKey::from_bytes` for `MlKem1024`, then `encapsulate_deterministic`,
/// which fails on no key of 1568 bytes.
#[verifier::external_body]
fn encapsulate_to(ek: &[u8], m: &[u8; 32]) -> (r: Option<(Vec<u8>, [u8; 32])>)
    requires
        ek@.len() == 1568,
    ensures
        encapsulation(r) == Some(mlkem_encapsulated(ek@, m@)),
{
    let key = <ml_kem::MlKem1024 as KemCore>::EncapsulationKey::from_bytes(&ek.try_into().ok()?);
    let (ct, secret) = key.encapsulate_deterministic(&(*m).into()).ok()?;
    Some((ct.as_slice().to_vec(), secret.into()))
}

/// Encapsulate a random value to a recipient's ML-KEM-1024 key: the ciphertext and the shared
/// secret.
pub fn encapsulate_with(rk_pq: &[u8], m: &[u8; 32]) -> (r: Result<(Vec<u8>, [u8; 32]), CliError>)
    ensures
        match r {
            Ok((ct, z)) => rk_pq@.len() == 1568 && (ct@, z@) == mlkem_encapsulated(rk_pq@, m@),
            Err(e) => rk_pq@.len() != 1568 && e@ == ErrorView::invalid_data(
                "recipient ML-KEM key must be 1568 bytes"@,
            ),
        },
{
    if rk_pq.len() != MLKEM1024_EK_LEN {
        return Err(CliError::invalid_data("recipient ML-KEM key must be 1568 bytes"));
    }
    match encapsulate_to(rk_pq, m) {
        Some(p) => Ok(p),
        None => Err(CliError::encryption_failed("ml-kem encapsulation failed")),
    }
}

/// Encapsulate to a recipient's ML-KEM-1024 key with fresh randomness. A key of the right length
/// is refused only where the operating system has no randomness to give.
pub fn encapsulate(rk_pq: &[u8]) -> (r: Result<(Vec<u8>, [u8; 32]), CliError>)
    ensures
        rk_pq@.len() != 1568 ==> (r matches Err(e) && e@ == ErrorView::invalid_data(
            "recipient ML-KEM key must be 1568 bytes"@,
        )),
        rk_pq@.len() == 1568 ==> exists|b: Option<[u8; 32]>| #[trigger]
            drawn(b) && match b {
                Some(m) => r matches Ok(p) && (p.0@, p.1@) == mlkem_encapsulated(rk_pq@, m@),
                None => r matches Err(e) && e@ == ErrorView::encryption_failed(
                    "ml-kem encapsulation failed"@,
                ),
            },
{
    if rk_pq.len() != MLKEM1024_EK_LEN {
        return Err(CliError::invalid_data("recipient ML-KEM key must be 1568 bytes"));
    }
    match random_bytes::<32>() {
        None => Err(CliError::encryption_failed("ml-kem encapsulation failed")),
        Some(m) => encapsulate_with(rk_pq, &m),
    }
}

/// Decode a field of a wrap, naming it where it is malformed.
pub fn base64_decode_field(value: &str, field: &str) -> (r: Result<Vec<u8>, CliError>)
    ensures
        outcome(r) == match base64url_bytes(value@) {
            Some(b) => Ok::<Seq<u8>, ErrorView>(b),
            None => Err(
                ErrorView::invalid_data("hybrid wrap "@ + field@ + " is not base64url"@),
            ),
        },
{
    match base64url_decode(value) {
        Some(b) => Ok(b),
        None => Err(
            CliError::invalid_data(&join3("hybrid wrap ", field, " is not base64url")),
        ),
    }
}

/// What the recipient's keystore contributes to opening a wrap: the two shared secrets, and the
/// recipient's own public keys.
pub struct UnwrapParts {
    pub z_ecdh: [u8; 32],
    pub z_mlkem: [u8; 32],
    pub rk_ec: Vec<u8>,
    pub rk_pq: Vec<u8>,
}

/// Whether `r` is what the keystore contributes: the key agreement with the ephemeral key `epk`,
/// the decapsulation of `ek`, and the two public keys, asked for in this order; the first
/// failure is the result.
pub open spec fn contributed<K: Keystore + ?Sized>(
    ks: &K,
    kem: Labelled,
    kem_pq: Labelled,
    epk: Seq<u8>,
    ek: Seq<u8>,
    r: Result<UnwrapParts, CliError>,
) -> bool {
    exists|l: &KeyLabel, p: &[u8], z: Result<[u8; 32], CliError>|
        #![trigger call_ensures(K::ecdh, (ks, l, p), z)]
        l@ == kem && p@ == epk && call_ensures(K::ecdh, (ks, l, p), z) && match z {
            Err(e) => r == Err::<UnwrapParts, CliError>(e),
            Ok(z_ecdh) => decapsulated_then(ks, kem, kem_pq, ek, z_ecdh, r),
        }
}

/// [`contributed`], after the key agreement.
pub open spec fn decapsulated_then<K: Keystore + ?Sized>(
    ks: &K,
    kem: Labelled,
    kem_pq: Labelled,
    ek: Seq<u8>,
    z_ecdh: [u8; 32],
    r: Result<UnwrapParts, CliError>,
) -> bool {
    exists|l: &KeyLabel, c: &[u8], z: Result<[u8; 32], CliError>|
        #![trigger call_ensures(K::ml_kem_decapsulate, (ks, l, c), z)]
        l@ == kem_pq && c@ == ek && call_ensures(K::ml_kem_decapsulate, (ks, l, c), z)
            && match z {
            Err(e) => r == Err::<UnwrapParts, CliError>(e),
            Ok(z_mlkem) => own_keys_then(ks, kem, kem_pq, z_ecdh, z_mlkem, r),
        }
}

/// [`contributed`], after the decapsulation.
pub open spec fn own_keys_then<K: Keystore + ?Sized>(
    ks: &K,
    kem: Labelled,
    kem_pq: Labelled,
    z_ecdh: [u8; 32],
    z_mlkem: [u8; 32],
    r: Result<UnwrapParts, CliError>,
) -> bool {
    exists|l: &KeyLabel, m: Result<KeyMeta, CliError>|
        #![trigger call_ensures(K::meta, (ks, l), m)]
        l@ == kem && call_ensures(K::meta, (ks, l), m) && match m {
            Err(e) => r == Err::<UnwrapParts, CliError>(e),
            Ok(ec) => exists|l2: &KeyLabel, m2: Result<KeyMeta, CliError>|
                #![trigger call_ensures(K::meta, (ks, l2), m2)]
                l2@ == kem_pq && call_ensures(K::meta, (ks, l2), m2) && match m2 {
                    Err(e) => r == Err::<UnwrapParts, CliError>(e),
                    Ok(pq) => r == Ok::<UnwrapParts, CliError>(
                        UnwrapParts {
                            z_ecdh,
                            z_mlkem,
                            rk_ec: ec.public_key,
                            rk_pq: pq.public_key,
                        },
                    ),
                },
        }
}

/// Ask the keystore for what opening a wrap takes. The private keys stay where they are.
pub fn unwrap_parts<K: Keystore + ?Sized>(
    keystore: &K,
    kem_label: &KeyLabel,
    kem_pq_label: &KeyLabel,
    epk: &[u8],
    ek: &[u8],
) -> (r: Result<UnwrapParts, CliError>)
    ensures
        contributed(keystore, kem_label@, kem_pq_label@, epk@, ek@, r),
{
    let z = keystore.ecdh(kem_label, epk);
    assert(call_ensures(K::ecdh, (keystore, kem_label, epk), z));
    let z_ecdh = match z {
        Ok(s) => s,
        Err(e) => return Err(e),
    };
    let z2 = keystore.ml_kem_decapsulate(kem_pq_label, ek);
    assert(call_ensures(K::ml_kem_decapsulate, (keystore, kem_pq_label, ek), z2));
    let z_mlkem = match z2 {
        Ok(s) => s,
        Err(e) => return Err(e),
    };
    let m = keystore.meta(kem_label);
    assert(call_ensures(K::meta, (keystore, kem_label), m));
    let ec = match m {
        Ok(k) => k,
        Err(e) => return Err(e),
    };
    let m2 = keystore.meta(kem_pq_label);
    assert(call_ensures(K::meta, (keystore, kem_pq_label), m2));
    let pq = match m2 {
        Ok(k) => k,
        Err(e) => return Err(e),
    };
    Ok(UnwrapParts { z_ecdh, z_mlkem, rk_ec: ec.public_key, rk_pq: pq.public_key })
}

/// A wrap is opened with its own parts: the first secret is the agreement of the recipient's
/// key-agreement key with the ephemeral key that was passed in, the second what the recipient's
/// ML-KEM key decapsulates from the ciphertext that was passed in, and the public keys are those
/// of these two keys. Where it is not opened, one of these calls failed so, and every call before
/// it succeeded.
pub proof fn a_wrap_is_opened_with_its_own_parts<K: Keystore + ?Sized>(
    ks: &K,
    b: Behaviour,
    kem: Labelled,
    kem_pq: Labelled,
    epk: Seq<u8>,
    ek: Seq<u8>,
    r: Result<UnwrapParts, CliError>,
)
    requires
        b.is_of(ks),
        contributed(ks, kem, kem_pq, epk, ek, r),
    ensures
        r matches Ok(parts) ==> {
            &&& (b.agrees)(kem, epk, Ok(parts.z_ecdh@))
            &&& (b.decapsulates)(kem_pq, ek, Ok(parts.z_mlkem@))
            &&& exists|k: KeyFacts| #[trigger]
                (b.describes)(kem, Ok(k)) && parts.rk_ec@ == k.public_key
            &&& exists|k: KeyFacts| #[trigger]
                (b.describes)(kem_pq, Ok(k)) && parts.rk_pq@ == k.public_key
        },
        r matches Err(e) ==> {
            ||| (b.agrees)(kem, epk, Err(e@))
            ||| exists|z: Seq<u8>| #[trigger]
                (b.agrees)(kem, epk, Ok(z)) && (b.decapsulates)(kem_pq, ek, Err(e@))
            ||| exists|z: Seq<u8>| #[trigger]
                (b.decapsulates)(kem_pq, ek, Ok(z)) && ((b.describes)(kem, Err(e@)) || (
                b.describes)(kem_pq, Err(e@)))
        },
{
}

/// The reader obtains the writer's two secrets: where a key agreement and a decapsulation are
/// functions of the key and of what is handed to it, and the writer made `z_ecdh` under `epk` and
/// `z_mlkem` under `ek` for these two keys, opening the wrap succeeds and gives these very
/// secrets, with the recipient's own public keys.
pub proof fn the_reader_obtains_the_writers_secrets<K: Keystore + ?Sized>(
    ks: &K,
    kem: Labelled,
    kem_pq: Labelled,
    epk: Seq<u8>,
    ek: Seq<u8>,
    r: Result<UnwrapParts, CliError>,
    agreement: spec_fn(Labelled, Seq<u8>) -> Seq<u8>,
    decapsulation: spec_fn(Labelled, Seq<u8>) -> Seq<u8>,
    public_key: spec_fn(Labelled) -> Seq<u8>,
    z_ecdh: Seq<u8>,
    z_mlkem: Seq<u8>,
)
    requires
        contributed(ks, kem, kem_pq, epk, ek, r),
        forall|l: &KeyLabel, p: &[u8], out: Result<[u8; 32], CliError>| #[trigger]
            call_ensures(K::ecdh, (ks, l, p), out) ==> outcome(out) == Ok::<Seq<u8>, ErrorView>(
                agreement(l@, p@),
            ),
        forall|l: &KeyLabel, c: &[u8], out: Result<[u8; 32], CliError>| #[trigger]
            call_ensures(K::ml_kem_decapsulate, (ks, l, c), out) ==> outcome(out) == Ok::<
                Seq<u8>,
                ErrorView,
            >(decapsulation(l@, c@)),
        forall|l: &KeyLabel, out: Result<KeyMeta, CliError>| #[trigger]
            call_ensures(K::meta, (ks, l), out) ==> (out matches Ok(k) && k@.public_key
                == public_key(l@)),
        agreement(kem, epk) == z_ecdh,
        decapsulation(kem_pq, ek) == z_mlkem,
    ensures
        r matches Ok(parts) && parts.z_ecdh@ == z_ecdh && parts.z_mlkem@ == z_mlkem
            && parts.rk_ec@ == public_key(kem) && parts.rk_pq@ == public_key(kem_pq),
{
}

/// What is encapsulated is encapsulated to the recipient's own key, with the random value that
/// was passed in; only a key of the wrong length is refused.
pub proof fn encapsulation_is_to_the_recipients_key(
    rk_pq: &[u8],
    m: &[u8; 32],
    r: Result<(Vec<u8>, [u8; 32]), CliError>,
)
    requires
        call_ensures(encapsulate_with, (rk_pq, m), r),
    ensures
        r is Ok <==> rk_pq@.len() == 1568,
        r matches Ok(p) ==> p.0@ == mlkem_encapsulated(rk_pq@, m@).0 && p.1@
            == mlkem_encapsulated(rk_pq@, m@).1,
{
}

/// A field of a wrap is the bytes that it stands for, and refused exactly where it stands for
/// none.
pub proof fn a_wraps_field_is_its_bytes(value: &str, field: &str, r: Result<Vec<u8>, CliError>)
    requires
        call_ensures(base64_decode_field, (value, field), r),
    ensures
        match r {
            Ok(b) => base64url_bytes(value@) == Some(b@),
            Err(e) => base64url_bytes(value@) is None && e@.exit_code == 24,
        },
{
}

} // verus!
