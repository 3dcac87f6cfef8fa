//! What the answers of the Secure-Enclave post-quantum calls come to.
//!
//! Each call fills transit buffers and reports a status, the lengths it wrote and, on failure,
//! a message. Whatever crosses the boundary is public or sealed, but for the decapsulated
//! secret.

use vstd::prelude::*;

use super::{mldsa_ctx_checked, validate_mldsa_ctx, ML_DSA_87_SIG_LEN};
use crate::error::{outcome, CliError, ErrorView};
use crate::text::{
    decimal, from_utf8_lossy, join2, join3, join4, join5, lossy_text, signed_decimal,
    to_decimal, to_signed_decimal,
};

verus! {

/// The ML-KEM-1024 encapsulation-key length.
pub const MLKEM1024_EK_LEN: usize = 1568;

/// The ML-KEM-1024 ciphertext length.
pub const MLKEM1024_CT_LEN: usize = 1568;

/// The ML-DSA-87 verification-key length.
pub const MLDSA87_VK_LEN: usize = 2592;

/// The status of a call that succeeded.
pub const SE_OK: i32 = 0;

/// The status of a call that this system is too old for.
pub const SE_ERR_UNAVAILABLE: i32 = -1;

/// The status of a call whose sealed key was rejected.
pub const SE_ERR_BAD_BLOB: i32 = -3;

/// The two post-quantum keys.
#[derive(Debug, Clone, Copy, PartialEq, Eq, Structural)]
pub enum PqKind {
    MlKem,
    MlDsa,
}

impl PqKind {
    /// The name of the algorithm in messages.
    pub open spec fn name(self) -> Seq<char> {
        match self {
            PqKind::MlKem => "SE ML-KEM-1024"@,
            PqKind::MlDsa => "SE ML-DSA-87"@,
        }
    }

    /// What its public key is called.
    pub open spec fn public_name(self) -> Seq<char> {
        match self {
            PqKind::MlKem => "encapsulation key"@,
            PqKind::MlDsa => "verification key"@,
        }
    }

    /// The length of its public key.
    pub open spec fn public_len(self) -> int {
        match self {
            PqKind::MlKem => MLKEM1024_EK_LEN as int,
            PqKind::MlDsa => MLDSA87_VK_LEN as int,
        }
    }

    fn as_str(self) -> (r: &'static str)
        ensures
            r@ == self.name(),
    {
        match self {
            PqKind::MlKem => "SE ML-KEM-1024",
            PqKind::MlDsa => "SE ML-DSA-87",
        }
    }

    fn public_str(self) -> (r: &'static str)
        ensures
            r@ == self.public_name(),
    {
        match self {
            PqKind::MlKem => "encapsulation key",
            PqKind::MlDsa => "verification key",
        }
    }

    /// How long the buffer for its public key must be.
    pub fn public_capacity(self) -> (r: usize)
        ensures
            r == self.public_len(),
    {
        match self {
            PqKind::MlKem => MLKEM1024_EK_LEN,
            PqKind::MlDsa => MLDSA87_VK_LEN,
        }
    }
}

/// The status of a call and the message it left.
pub struct ShimStatus {
    pub status: i32,
    /// The message buffer.
    pub err: Vec<u8>,
    /// How much of the buffer the message takes.
    pub err_len: usize,
}

/// [`ShimStatus`], viewed.
pub struct Status {
    pub status: int,
    pub message: Seq<char>,
}

/// The first `n` bytes of a buffer, or all of it where it is shorter.
pub open spec fn filled(buffer: Seq<u8>, n: int) -> Seq<u8> {
    if n <= buffer.len() {
        buffer.take(n)
    } else {
        buffer
    }
}

impl View for ShimStatus {
    type V = Status;

    open spec fn view(&self) -> Status {
        Status {
            status: self.status as int,
            message: lossy_text(filled(self.err@, self.err_len as int)),
        }
    }
}

fn filled_part(buffer: Vec<u8>, n: usize) -> (r: Vec<u8>)
    ensures
        r@ == filled(buffer@, n as int),
{
    let mut b = buffer;
    b.truncate(n);
    b
}

/// The failure of a call.
pub open spec fn call_failed(op: Seq<char>, s: Status) -> ErrorView {
    if s.status == SE_ERR_UNAVAILABLE {
        ErrorView::unsupported_platform(
            op + ": Secure-Enclave PQC requires macOS 26 ("@ + s.message + ")"@,
        )
    } else if s.status == SE_ERR_BAD_BLOB {
        ErrorView::invalid_data(
            op + ": the stored Secure-Enclave key blob was rejected ("@ + s.message + ")"@,
        )
    } else {
        ErrorView::generic(
            op + " failed (shim status "@ + signed_decimal(s.status) + "): "@ + s.message,
        )
    }
}

/// Map a failed call to its error.
pub fn shim_err(op: &str, s: ShimStatus) -> (e: CliError)
    ensures
        e@ == call_failed(op@, s@),
{
    let status: i32 = s.status;
    let detail = from_utf8_lossy(&filled_part(s.err, s.err_len));
    if status == SE_ERR_UNAVAILABLE {
        CliError::unsupported_platform(
            &join4(op, ": Secure-Enclave PQC requires macOS 26 (", &detail, ")"),
        )
    } else if status == SE_ERR_BAD_BLOB {
        CliError::invalid_data(
            &join4(op, ": the stored Secure-Enclave key blob was rejected (", &detail, ")"),
        )
    } else {
        CliError::generic(
            &join5(op, " failed (shim status ", &to_signed_decimal(status), "): ", &detail),
        )
    }
}

/// A generated key: the sealed key, to be stored, and the public key.
pub struct PqKeygenOut {
    pub blob: Vec<u8>,
    pub public_key: Vec<u8>,
}

/// [`PqKeygenOut`], viewed.
pub struct Generated {
    pub blob: Seq<u8>,
    pub public_key: Seq<u8>,
}

impl View for PqKeygenOut {
    type V = Generated;

    open spec fn view(&self) -> Generated {
        Generated { blob: self.blob@, public_key: self.public_key@ }
    }
}

/// The failure of a call that wrote a public key of the wrong length.
pub open spec fn wrong_public(kind: PqKind, op: Seq<char>, len: int) -> ErrorView {
    ErrorView::generic(
        kind.name() + op + " returned a "@ + decimal(len as nat) + "-byte "@ + kind.public_name()
            + " (want "@ + decimal(kind.public_len() as nat) + ")"@,
    )
}

fn wrong_public_err(kind: PqKind, op: &str, len: usize) -> (e: CliError)
    ensures
        e@ == wrong_public(kind, op@, len as int),
{
    let mut m = join5(
        kind.as_str(),
        op,
        " returned a ",
        &to_decimal(len as u64),
        "-byte ",
    );
    m.append(kind.public_str());
    m.append(" (want ");
    m.append(&to_decimal(kind.public_capacity() as u64));
    m.append(")");
    CliError::generic(&m)
}

/// What a key generation comes to: the sealed key is as long as was reported, and the public
/// key must have its length.
pub fn keygen_reply(
    kind: PqKind,
    s: ShimStatus,
    blob: Vec<u8>,
    blob_len: usize,
    public_key: Vec<u8>,
    public_len: usize,
) -> (r: Result<PqKeygenOut, CliError>)
    ensures
        outcome(r) == if s@.status != SE_OK {
            Err::<Generated, ErrorView>(call_failed(kind.name() + " keygen"@, s@))
        } else if public_len != kind.public_len() {
            Err(wrong_public(kind, " keygen"@, public_len as int))
        } else {
            Ok(
                Generated { blob: filled(blob@, blob_len as int), public_key: public_key@ },
            )
        },
{
    if s.status != SE_OK {
        return Err(shim_err(&join2(kind.as_str(), " keygen"), s));
    }
    if public_len != kind.public_capacity() {
        return Err(wrong_public_err(kind, " keygen", public_len));
    }
    Ok(PqKeygenOut { blob: filled_part(blob, blob_len), public_key })
}

/// What restoring the public key from a sealed key comes to.
pub fn restore_reply(kind: PqKind, s: ShimStatus, public_key: Vec<u8>, public_len: usize) -> (r:
    Result<Vec<u8>, CliError>)
    ensures
        outcome(r) == if s@.status != SE_OK {
            Err::<Seq<u8>, ErrorView>(call_failed(kind.name() + " key restore"@, s@))
        } else if public_len != kind.public_len() {
            Err(wrong_public(kind, " restore"@, public_len as int))
        } else {
            Ok(public_key@)
        },
{
    if s.status != SE_OK {
        return Err(shim_err(&join2(kind.as_str(), " key restore"), s));
    }
    if public_len != kind.public_capacity() {
        return Err(wrong_public_err(kind, " restore", public_len));
    }
    Ok(public_key)
}

/// Refuse a ciphertext of the wrong length before it is decapsulated.
pub fn check_ciphertext(ct: &[u8]) -> (r: Result<(), CliError>)
    ensures
        outcome(r) == if ct@.len() == MLKEM1024_CT_LEN {
            Ok::<(), ErrorView>(())
        } else {
            Err(
                ErrorView::invalid_args(
                    "ml-kem ciphertext must be 1568 bytes, got "@ + decimal(ct@.len()),
                ),
            )
        },
{
    if ct.len() == MLKEM1024_CT_LEN {
        Ok(())
    } else {
        Err(
            CliError::invalid_args(
                &join2(
                    "ml-kem ciphertext must be 1568 bytes, got ",
                    &to_decimal(ct.len() as u64),
                ),
            ),
        )
    }
}

/// What a decapsulation comes to. A tampered ciphertext is no failure: it yields another
/// secret.
pub fn decap_reply(s: ShimStatus, secret: [u8; 32]) -> (r: Result<[u8; 32], CliError>)
    ensures
        match r {
            Ok(z) => s@.status == SE_OK && z == secret,
            Err(e) => s@.status != SE_OK && e@ == call_failed(
                "SE ML-KEM-1024 decapsulation"@,
                s@,
            ),
        },
{
    if s.status != SE_OK {
        return Err(shim_err("SE ML-KEM-1024 decapsulation", s));
    }
    Ok(secret)
}

/// What a signature under a context comes to: the context must fit, and the signature must have
/// its length.
pub open spec fn signature_checked(
    ctx_len: nat,
    s: Status,
    signature: Seq<u8>,
    sig_len: int,
) -> Result<Seq<u8>, ErrorView> {
    match mldsa_ctx_checked(ctx_len) {
        Err(e) => Err(e),
        Ok(_) => if s.status != SE_OK {
            Err(call_failed("SE ML-DSA-87 signing"@, s))
        } else if sig_len != ML_DSA_87_SIG_LEN {
            Err(
                ErrorView::generic(
                    "SE ML-DSA-87 signing returned a "@ + decimal(sig_len as nat)
                        + "-byte signature (want 4627)"@,
                ),
            )
        } else {
            Ok(signature)
        },
    }
}

/// Read the answer to a signature under a context.
pub fn sign_reply(ctx: &[u8], s: ShimStatus, signature: Vec<u8>, sig_len: usize) -> (r: Result<
    Vec<u8>,
    CliError,
>)
    ensures
        outcome(r) == signature_checked(ctx@.len(), s@, signature@, sig_len as int),
{
    match validate_mldsa_ctx(ctx) {
        Ok(()) => {},
        Err(e) => return Err(e),
    }
    if s.status != SE_OK {
        return Err(shim_err("SE ML-DSA-87 signing", s));
    }
    if sig_len != ML_DSA_87_SIG_LEN {
        return Err(
            CliError::generic(
                &join3(
                    "SE ML-DSA-87 signing returned a ",
                    &to_decimal(sig_len as u64),
                    "-byte signature (want 4627)",
                ),
            ),
        );
    }
    Ok(signature)
}

/// A generated post-quantum key is taken exactly where the call succeeded and reported a public
/// key of its kind's length: 1568 bytes for ML-KEM-1024 and 2592 for ML-DSA-87. The sealed key is
/// as much of the buffer as was reported, the public key is taken as it is.
pub proof fn a_sealed_key_is_as_long_as_reported(
    kind: PqKind,
    s: ShimStatus,
    blob: Vec<u8>,
    blob_len: usize,
    public_key: Vec<u8>,
    public_len: usize,
    made: Result<PqKeygenOut, CliError>,
    restored: Result<Vec<u8>, CliError>,
)
    requires
        call_ensures(keygen_reply, (kind, s, blob, blob_len, public_key, public_len), made),
        call_ensures(restore_reply, (kind, s, public_key, public_len), restored),
    ensures
        ({
            let fits = s.status == 0 && public_len == (if kind == PqKind::MlKem {
                1568usize
            } else {
                2592usize
            });
            &&& made is Ok <==> fits
            &&& made matches Ok(out) ==> out.public_key@ == public_key@ && out.blob@.len() == (
            if blob_len <= blob@.len() {
                blob_len as nat
            } else {
                blob@.len()
            }) && forall|i: int| 0 <= i < out.blob@.len() ==> #[trigger] out.blob@[i] == blob@[i]
            &&& restored is Ok <==> fits
            &&& restored matches Ok(p) ==> p@ == public_key@
        }),
{
}

/// A signature is taken exactly where the context fits, the call succeeded and it reported a
/// signature of 4627 bytes; it is taken as it is. A decapsulated secret is taken where the call
/// succeeded.
pub proof fn a_call_that_succeeded_is_taken_at_its_word(
    ctx: &[u8],
    s: ShimStatus,
    signature: Vec<u8>,
    sig_len: usize,
    signed: Result<Vec<u8>, CliError>,
    secret: [u8; 32],
    found: Result<[u8; 32], CliError>,
)
    requires
        call_ensures(sign_reply, (ctx, s, signature, sig_len), signed),
        call_ensures(decap_reply, (s, secret), found),
    ensures
        signed is Ok <==> ctx@.len() <= 255 && s.status == 0 && sig_len == 4627,
        signed matches Ok(t) ==> t@ == signature@,
        found is Ok <==> s.status == 0,
        found matches Ok(z) ==> z@ == secret@,
{
}

/// A failed call is told by its status: a system that is too old, a sealed key that was
/// rejected, or anything else.
pub proof fn a_failed_call_is_told_by_its_status(op: Seq<char>, s: Status)
    ensures
        call_failed(op, s).exit_code == if s.status == -1 {
            51
        } else if s.status == -3 {
            24
        } else {
            1int
        },
{
}

/// A ciphertext is handed to the enclave exactly where it has its length.
pub proof fn only_a_whole_ciphertext_is_decapsulated(ct: &[u8], r: Result<(), CliError>)
    requires
        call_ensures(check_ciphertext, (ct,), r),
    ensures
        r is Ok <==> ct@.len() == 1568,
        r matches Err(e) ==> e@.exit_code == 2,
{
}

} // verus!
