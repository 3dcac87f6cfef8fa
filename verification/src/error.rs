//! The error model and its exit codes.
//!
//! Every failure carries a numeric exit code, a stable machine code (for
//! `--json-errors`), and a one-line human message. The ranges:
//! 0 success · 1 generic · 2 invalid args · 8 info · 10–19 key/auth ·
//! 20–29 I/O · 30–39 network · 40–49 crypto · 50–59 config · 60–69 transparency;
//! the access-refusal family sits at 69 (endpoint unreachable) and 77 (refused).

use vstd::prelude::*;

verus! {

/// What a [`CliError`] says: exit code, machine code and message as mathematical values.
pub struct ErrorView {
    pub exit_code: int,
    pub code: Seq<char>,
    pub message: Seq<char>,
}

impl ErrorView {
    /// 1 — generic error (no specific category fits).
    pub open spec fn generic(message: Seq<char>) -> ErrorView {
        ErrorView { exit_code: 1, code: "error"@, message }
    }

    /// 2 — invalid arguments (bad flags, malformed label, mutually-exclusive misuse).
    pub open spec fn invalid_args(message: Seq<char>) -> ErrorView {
        ErrorView { exit_code: 2, code: "invalid_arguments"@, message }
    }

    /// 10 — the peer rejected the request's authentication.
    pub open spec fn authentication_failed(message: Seq<char>) -> ErrorView {
        ErrorView { exit_code: 10, code: "authentication_failed"@, message }
    }

    /// 11 — a key with this label + purpose already exists.
    pub open spec fn key_exists(message: Seq<char>) -> ErrorView {
        ErrorView { exit_code: 11, code: "key_already_exists"@, message }
    }

    /// 12 — key not found by label.
    pub open spec fn key_not_found(message: Seq<char>) -> ErrorView {
        ErrorView { exit_code: 12, code: "key_not_found"@, message }
    }

    /// 13 — a signature does not verify.
    pub open spec fn signature_invalid(message: Seq<char>) -> ErrorView {
        ErrorView { exit_code: 13, code: "signature_invalid"@, message }
    }

    /// 14 — the attestation is past its expiry.
    pub open spec fn attestation_expired(message: Seq<char>) -> ErrorView {
        ErrorView { exit_code: 14, code: "attestation_expired"@, message }
    }

    /// 15 — the attestation has been revoked.
    pub open spec fn attestation_revoked(message: Seq<char>) -> ErrorView {
        ErrorView { exit_code: 15, code: "attestation_revoked"@, message }
    }

    /// 17 — authenticated, but not permitted.
    pub open spec fn authorization_denied(message: Seq<char>) -> ErrorView {
        ErrorView { exit_code: 17, code: "authorization_denied"@, message }
    }

    /// 18 — the storage pool has no room for the request.
    pub open spec fn insufficient_storage(message: Seq<char>) -> ErrorView {
        ErrorView { exit_code: 18, code: "insufficient_storage"@, message }
    }

    /// 21 — filesystem error (keystore dir/perms).
    pub open spec fn filesystem(message: Seq<char>) -> ErrorView {
        ErrorView { exit_code: 21, code: "filesystem_error"@, message }
    }

    /// 22 — input read error.
    pub open spec fn input_read(message: Seq<char>) -> ErrorView {
        ErrorView { exit_code: 22, code: "input_error"@, message }
    }

    /// 23 — output write error.
    pub open spec fn output_write(message: Seq<char>) -> ErrorView {
        ErrorView { exit_code: 23, code: "output_error"@, message }
    }

    /// 24 — malformed data.
    pub open spec fn invalid_data(message: Seq<char>) -> ErrorView {
        ErrorView { exit_code: 24, code: "invalid_data"@, message }
    }

    /// 25 — a name exceeds its length limit.
    pub open spec fn name_too_long(message: Seq<char>) -> ErrorView {
        ErrorView { exit_code: 25, code: "name_too_long"@, message }
    }

    /// 26 — the named resource does not exist on the server.
    pub open spec fn not_found(message: Seq<char>) -> ErrorView {
        ErrorView { exit_code: 26, code: "not_found"@, message }
    }

    /// 27 — the request conflicts with current server state.
    pub open spec fn conflict(message: Seq<char>) -> ErrorView {
        ErrorView { exit_code: 27, code: "conflict"@, message }
    }

    /// 32 — a transfer exhausted its per-part attempt budget; re-running it resumes.
    pub open spec fn transfer_stalled(message: Seq<char>) -> ErrorView {
        ErrorView { exit_code: 32, code: "transfer_stalled"@, message }
    }

    /// 40 — encryption or key wrapping failed.
    pub open spec fn encryption_failed(message: Seq<char>) -> ErrorView {
        ErrorView { exit_code: 40, code: "encryption_failed"@, message }
    }

    /// 41 — the algorithm is not supported for this key.
    pub open spec fn unsupported_algorithm(message: Seq<char>) -> ErrorView {
        ErrorView { exit_code: 41, code: "unsupported_algorithm"@, message }
    }

    /// 42 — decryption or unsealing failed.
    pub open spec fn decrypt_failed(message: Seq<char>) -> ErrorView {
        ErrorView { exit_code: 42, code: "decrypt_failed"@, message }
    }

    /// 50 — configuration error.
    pub open spec fn config(message: Seq<char>) -> ErrorView {
        ErrorView { exit_code: 50, code: "config_error"@, message }
    }

    /// 51 — the operation is not available on this platform.
    pub open spec fn unsupported_platform(message: Seq<char>) -> ErrorView {
        ErrorView { exit_code: 51, code: "unsupported_platform"@, message }
    }

    /// 52 — the Secure Enclave is lock-gated; retry once the Mac is unlocked.
    pub open spec fn se_locked(message: Seq<char>) -> ErrorView {
        ErrorView { exit_code: 52, code: "se_locked"@, message }
    }

    /// 60 — an identity record and the transparency log disagree.
    pub open spec fn transparency_violation(message: Seq<char>) -> ErrorView {
        ErrorView { exit_code: 60, code: "transparency_violation"@, message }
    }

    /// 61 — the pinned handle is not the asserted one; refused locally.
    pub open spec fn identity_mismatch(message: Seq<char>) -> ErrorView {
        ErrorView { exit_code: 61, code: "identity_mismatch"@, message }
    }

    /// The one-line rendering `code: message`.
    pub open spec fn line(self) -> Seq<char> {
        self.code + ": "@ + self.message
    }
}

/// A failure: exit code + machine code + human message.
#[derive(Debug)]
pub struct CliError {
    pub exit_code: i32,
    pub code: &'static str,
    pub message: String,
}

impl View for CliError {
    type V = ErrorView;

    open spec fn view(&self) -> ErrorView {
        ErrorView {
            exit_code: self.exit_code as int,
            code: self.code@,
            message: self.message@,
        }
    }
}

/// The result of a fallible operation, seen through the views of its parts.
pub open spec fn outcome<T: View>(r: Result<T, CliError>) -> Result<T::V, ErrorView> {
    match r {
        Ok(v) => Ok(v@),
        Err(e) => Err(e@),
    }
}

/// Like [`outcome`], for a result that carries its value as it stands.
pub open spec fn plain<T>(r: Result<T, CliError>) -> Result<T, ErrorView> {
    match r {
        Ok(v) => Ok(v),
        Err(e) => Err(e@),
    }
}

/// An optional value, viewed.
pub open spec fn seen<T: View>(o: Option<T>) -> Option<T::V> {
    match o {
        Some(v) => Some(v@),
        None => None,
    }
}

/// An outcome that may not be in yet, viewed.
pub open spec fn reply<T: View>(o: Option<Result<T, CliError>>) -> Option<Result<T::V, ErrorView>> {
    match o {
        Some(r) => Some(outcome(r)),
        None => None,
    }
}

impl CliError {
    pub fn new(exit_code: i32, code: &'static str, message: &str) -> (e: CliError)
        ensures
            e@ == (ErrorView { exit_code: exit_code as int, code: code@, message: message@ }),
    {
        CliError { exit_code, code, message: message.to_owned() }
    }

    /// 1 — generic error (no specific category fits).
    pub fn generic(message: &str) -> (e: CliError)
        ensures
            e@ == ErrorView::generic(message@),
    {
        CliError::new(1, "error", message)
    }

    /// 2 — invalid arguments (bad flags, malformed label, mutually-exclusive misuse).
    pub fn invalid_args(message: &str) -> (e: CliError)
        ensures
            e@ == ErrorView::invalid_args(message@),
    {
        CliError::new(2, "invalid_arguments", message)
    }

    /// 10 — the peer rejected the request's authentication.
    pub fn authentication_failed(message: &str) -> (e: CliError)
        ensures
            e@ == ErrorView::authentication_failed(message@),
    {
        CliError::new(10, "authentication_failed", message)
    }

    /// 11 — a key with this label + purpose already exists.
    pub fn key_exists(message: &str) -> (e: CliError)
        ensures
            e@ == ErrorView::key_exists(message@),
    {
        CliError::new(11, "key_already_exists", message)
    }

    /// 12 — key not found by label.
    pub fn key_not_found(message: &str) -> (e: CliError)
        ensures
            e@ == ErrorView::key_not_found(message@),
    {
        CliError::new(12, "key_not_found", message)
    }

    /// 13 — a signature does not verify.
    pub fn signature_invalid(message: &str) -> (e: CliError)
        ensures
            e@ == ErrorView::signature_invalid(message@),
    {
        CliError::new(13, "signature_invalid", message)
    }

    /// 14 — the attestation is past its expiry.
    pub fn attestation_expired(message: &str) -> (e: CliError)
        ensures
            e@ == ErrorView::attestation_expired(message@),
    {
        CliError::new(14, "attestation_expired", message)
    }

    /// 15 — the attestation has been revoked.
    pub fn attestation_revoked(message: &str) -> (e: CliError)
        ensures
            e@ == ErrorView::attestation_revoked(message@),
    {
        CliError::new(15, "attestation_revoked", message)
    }

    /// 17 — authenticated, but not permitted.
    pub fn authorization_denied(message: &str) -> (e: CliError)
        ensures
            e@ == ErrorView::authorization_denied(message@),
    {
        CliError::new(17, "authorization_denied", message)
    }

    /// 18 — the storage pool has no room for the request.
    pub fn insufficient_storage(message: &str) -> (e: CliError)
        ensures
            e@ == ErrorView::insufficient_storage(message@),
    {
        CliError::new(18, "insufficient_storage", message)
    }

    /// 21 — filesystem error (keystore dir/perms).
    pub fn filesystem(message: &str) -> (e: CliError)
        ensures
            e@ == ErrorView::filesystem(message@),
    {
        CliError::new(21, "filesystem_error", message)
    }

    /// 22 — input read error.
    pub fn input_read(message: &str) -> (e: CliError)
        ensures
            e@ == ErrorView::input_read(message@),
    {
        CliError::new(22, "input_error", message)
    }

    /// 23 — output write error.
    pub fn output_write(message: &str) -> (e: CliError)
        ensures
            e@ == ErrorView::output_write(message@),
    {
        CliError::new(23, "output_error", message)
    }

    /// 24 — malformed data.
    pub fn invalid_data(message: &str) -> (e: CliError)
        ensures
            e@ == ErrorView::invalid_data(message@),
    {
        CliError::new(24, "invalid_data", message)
    }

    /// 25 — a name exceeds its length limit.
    pub fn name_too_long(message: &str) -> (e: CliError)
        ensures
            e@ == ErrorView::name_too_long(message@),
    {
        CliError::new(25, "name_too_long", message)
    }

    /// 26 — the named resource does not exist on the server.
    pub fn not_found(message: &str) -> (e: CliError)
        ensures
            e@ == ErrorView::not_found(message@),
    {
        CliError::new(26, "not_found", message)
    }

    /// 27 — the request conflicts with current server state.
    pub fn conflict(message: &str) -> (e: CliError)
        ensures
            e@ == ErrorView::conflict(message@),
    {
        CliError::new(27, "conflict", message)
    }

    /// 32 — a transfer exhausted its per-part attempt budget; re-running it resumes.
    pub fn transfer_stalled(message: &str) -> (e: CliError)
        ensures
            e@ == ErrorView::transfer_stalled(message@),
    {
        CliError::new(32, "transfer_stalled", message)
    }

    /// 40 — encryption or key wrapping failed.
    pub fn encryption_failed(message: &str) -> (e: CliError)
        ensures
            e@ == ErrorView::encryption_failed(message@),
    {
        CliError::new(40, "encryption_failed", message)
    }

    /// 41 — the algorithm is not supported for this key.
    pub fn unsupported_algorithm(message: &str) -> (e: CliError)
        ensures
            e@ == ErrorView::unsupported_algorithm(message@),
    {
        CliError::new(41, "unsupported_algorithm", message)
    }

    /// 42 — decryption or unsealing failed.
    pub fn decrypt_failed(message: &str) -> (e: CliError)
        ensures
            e@ == ErrorView::decrypt_failed(message@),
    {
        CliError::new(42, "decrypt_failed", message)
    }

    /// 50 — configuration error.
    pub fn config(message: &str) -> (e: CliError)
        ensures
            e@ == ErrorView::config(message@),
    {
        CliError::new(50, "config_error", message)
    }

    /// 51 — the operation is not available on this platform.
    pub fn unsupported_platform(message: &str) -> (e: CliError)
        ensures
            e@ == ErrorView::unsupported_platform(message@),
    {
        CliError::new(51, "unsupported_platform", message)
    }

    /// 52 — the Secure Enclave is lock-gated; retry once the Mac is unlocked.
    pub fn se_locked(message: &str) -> (e: CliError)
        ensures
            e@ == ErrorView::se_locked(message@),
    {
        CliError::new(52, "se_locked", message)
    }

    /// 60 — an identity record and the transparency log disagree.
    pub fn transparency_violation(message: &str) -> (e: CliError)
        ensures
            e@ == ErrorView::transparency_violation(message@),
    {
        CliError::new(60, "transparency_violation", message)
    }

    /// 61 — the pinned handle is not the asserted one; refused locally.
    pub fn identity_mismatch(message: &str) -> (e: CliError)
        ensures
            e@ == ErrorView::identity_mismatch(message@),
    {
        CliError::new(61, "identity_mismatch", message)
    }

    /// The same failure again.
    pub fn copy(&self) -> (e: CliError)
        ensures
            e@ == self@,
    {
        CliError { exit_code: self.exit_code, code: self.code, message: self.message.clone() }
    }

    /// The one-line rendering `code: message`.
    pub fn to_line(&self) -> (s: String)
        ensures
            s@ == self@.line(),
    {
        let mut s = self.code.to_owned();
        s.append(": ");
        s.append(&self.message);
        s
    }
}

/// The ways a cryptographic primitive fails, as the keystore backends meet them.
#[derive(Debug, Clone, Copy, PartialEq, Eq, Structural)]
pub enum CryptoFailure {
    Authentication,
    SignatureInvalid,
    UnknownAlgorithm,
    InvalidInput,
}

/// A cryptographic failure together with the primitive's own description of it.
#[derive(Debug)]
pub struct CryptoError {
    pub failure: CryptoFailure,
    pub detail: String,
}

/// How a cryptographic failure is reported: an unsealing failure is a decrypt failure, a
/// bad public key or point is invalid input, the other two keep their own codes.
pub open spec fn crypto_error(failure: CryptoFailure, detail: Seq<char>) -> ErrorView {
    match failure {
        CryptoFailure::Authentication => ErrorView::decrypt_failed(detail),
        CryptoFailure::SignatureInvalid => ErrorView::signature_invalid(detail),
        CryptoFailure::UnknownAlgorithm => ErrorView::unsupported_algorithm(detail),
        CryptoFailure::InvalidInput => ErrorView::invalid_args(detail),
    }
}

impl CliError {
    /// Report a cryptographic failure at the command-line boundary.
    pub fn from_crypto(e: CryptoError) -> (r: CliError)
        ensures
            r@ == crypto_error(e.failure, e.detail@),
    {
        match e.failure {
            CryptoFailure::Authentication => CliError::decrypt_failed(&e.detail),
            CryptoFailure::SignatureInvalid => CliError::signature_invalid(&e.detail),
            CryptoFailure::UnknownAlgorithm => CliError::unsupported_algorithm(&e.detail),
            CryptoFailure::InvalidInput => CliError::invalid_args(&e.detail),
        }
    }
}

/// Every category of failure has the exit code and the machine code that callers know it by, and
/// carries its message as it is.
pub proof fn every_category_has_its_codes(message: Seq<char>)
    ensures
        ErrorView::generic(message) == (ErrorView { exit_code: 1, code: "error"@, message }),
        ErrorView::invalid_args(message) == (ErrorView {
            exit_code: 2,
            code: "invalid_arguments"@,
            message,
        }),
        ErrorView::authentication_failed(message) == (ErrorView {
            exit_code: 10,
            code: "authentication_failed"@,
            message,
        }),
        ErrorView::key_exists(message) == (ErrorView {
            exit_code: 11,
            code: "key_already_exists"@,
            message,
        }),
        ErrorView::key_not_found(message) == (ErrorView {
            exit_code: 12,
            code: "key_not_found"@,
            message,
        }),
        ErrorView::signature_invalid(message) == (ErrorView {
            exit_code: 13,
            code: "signature_invalid"@,
            message,
        }),
        ErrorView::attestation_expired(message) == (ErrorView {
            exit_code: 14,
            code: "attestation_expired"@,
            message,
        }),
        ErrorView::attestation_revoked(message) == (ErrorView {
            exit_code: 15,
            code: "attestation_revoked"@,
            message,
        }),
        ErrorView::authorization_denied(message) == (ErrorView {
            exit_code: 17,
            code: "authorization_denied"@,
            message,
        }),
        ErrorView::insufficient_storage(message) == (ErrorView {
            exit_code: 18,
            code: "insufficient_storage"@,
            message,
        }),
        ErrorView::filesystem(message) == (ErrorView {
            exit_code: 21,
            code: "filesystem_error"@,
            message,
        }),
        ErrorView::input_read(message) == (ErrorView {
            exit_code: 22,
            code: "input_error"@,
            message,
        }),
        ErrorView::output_write(message) == (ErrorView {
            exit_code: 23,
            code: "output_error"@,
            message,
        }),
        ErrorView::invalid_data(message) == (ErrorView {
            exit_code: 24,
            code: "invalid_data"@,
            message,
        }),
        ErrorView::name_too_long(message) == (ErrorView {
            exit_code: 25,
            code: "name_too_long"@,
            message,
        }),
        ErrorView::not_found(message) == (ErrorView {
            exit_code: 26,
            code: "not_found"@,
            message,
        }),
        ErrorView::conflict(message) == (ErrorView { exit_code: 27, code: "conflict"@, message }),
        ErrorView::transfer_stalled(message) == (ErrorView {
            exit_code: 32,
            code: "transfer_stalled"@,
            message,
        }),
        ErrorView::encryption_failed(message) == (ErrorView {
            exit_code: 40,
            code: "encryption_failed"@,
            message,
        }),
        ErrorView::unsupported_algorithm(message) == (ErrorView {
            exit_code: 41,
            code: "unsupported_algorithm"@,
            message,
        }),
        ErrorView::decrypt_failed(message) == (ErrorView {
            exit_code: 42,
            code: "decrypt_failed"@,
            message,
        }),
        ErrorView::config(message) == (ErrorView {
            exit_code: 50,
            code: "config_error"@,
            message,
        }),
        ErrorView::unsupported_platform(message) == (ErrorView {
            exit_code: 51,
            code: "unsupported_platform"@,
            message,
        }),
        ErrorView::se_locked(message) == (ErrorView { exit_code: 52, code: "se_locked"@, message }),
        ErrorView::transparency_violation(message) == (ErrorView {
            exit_code: 60,
            code: "transparency_violation"@,
            message,
        }),
        ErrorView::identity_mismatch(message) == (ErrorView {
            exit_code: 61,
            code: "identity_mismatch"@,
            message,
        }),
{
}

/// A cryptographic failure is reported with the primitive's own words, under the exit code of
/// what went wrong.
pub proof fn a_cryptographic_failure_keeps_its_words(failure: CryptoFailure, detail: Seq<char>)
    ensures
        crypto_error(failure, detail).message == detail,
        crypto_error(failure, detail).exit_code == match failure {
            CryptoFailure::Authentication => 42int,
            CryptoFailure::SignatureInvalid => 13,
            CryptoFailure::UnknownAlgorithm => 41,
            CryptoFailure::InvalidInput => 2,
        },
{
}

} // verus!
