//! The one cryptographic primitive the engine computes itself: BLAKE3.

use vstd::prelude::*;

verus! {

/// The 32-byte BLAKE3 digest of a byte string, as the `blake3` crate computes it.
pub uninterp spec fn blake3_digest(input: Seq<u8>) -> [u8; 32];

/// Calls `blake3::hash` and copies the 32 bytes out of the returned `Hash`
/// with `Hash::as_bytes`. Trusted: the digest depends on the input bytes
/// alone, so it is named by `blake3_digest` rather than spelled out.
#[verifier::external_body]
pub(crate) fn blake3_hash(input: &[u8]) -> (digest: [u8; 32])
    ensures
        digest == blake3_digest(input@),
{
    *blake3::hash(input).as_bytes()
}

} // verus!
