//! Randomness from the operating system.

use rand_core::RngCore;
use vstd::prelude::*;

use crate::codec::{hex_encode, hex_text};
use crate::error::seen;

verus! {

/// `RngCore::try_fill_bytes` of `rand_core`'s `OsRng`: bytes that nothing is promised of, or
/// none where the operating system has no randomness to give.
#[verifier::external_body]
fn os_random<const N: usize>() -> (r: Option<[u8; N]>) {
    let mut bytes = [0u8; N];
    rand_core::OsRng.try_fill_bytes(&mut bytes).ok().map(|_| bytes)
}

/// Whether `bytes` may come of asking the operating system for so many random bytes: the bytes
/// that it gave, or none where it had none to give. Two requests may come to different bytes.
pub closed spec fn drawn<const N: usize>(bytes: Option<[u8; N]>) -> bool {
    call_ensures(os_random::<N>, (), bytes)
}

/// Ask the operating system for random bytes.
pub(crate) fn random_bytes<const N: usize>() -> (r: Option<[u8; N]>)
    ensures
        drawn(r),
{
    os_random::<N>()
}

/// What was drawn, in hexadecimal.
pub open spec fn in_hex(bytes: Option<Seq<u8>>) -> Option<Seq<char>> {
    match bytes {
        Some(b) => Some(hex_text(b)),
        None => None,
    }
}

/// Write what was drawn in hexadecimal; there is nothing to write where nothing was drawn.
pub fn drawn_in_hex<const N: usize>(bytes: Option<[u8; N]>) -> (r: Option<String>)
    ensures
        seen(r) == in_hex(seen(bytes)),
{
    match bytes {
        Some(b) => Some(hex_encode(&b)),
        None => None,
    }
}

} // verus!
