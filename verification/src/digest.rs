//! The SHA-256 digest that transaction results are hashed with.
use sha2::Digest;
use vstd::prelude::*;

verus! {

/// The SHA-256 digest of a byte sequence.
pub uninterp spec fn sha256_digest(data: Seq<u8>) -> Seq<u8>;

/// Computes the SHA-256 digest of `data` with `sha2::Sha256::digest`.
/// Claimed of it: the 32 bytes it returns are `sha256_digest` of the input,
/// the same bytes for the same input; what SHA-256 computes is not stated.
#[verifier::external_body]
pub(crate) fn sha256(data: &[u8]) -> (h: [u8; 32])
    ensures
        h@ == sha256_digest(data@),
{
    sha2::Sha256::digest(data).into()
}

} // verus!
