//! SHA-256 digests and their comparison in constant time.

use vstd::prelude::*;
use sha2::Digest;
use subtle::ConstantTimeEq;

verus! {

/// The SHA-256 digest of `data`.
pub uninterp spec fn sha256(data: Seq<u8>) -> Seq<u8>;

/// Computes the SHA-256 digest of `data`.
///
/// Trusted: the body is `sha2::Sha256::digest`, copied into a vector. The
/// digest is a function of the data alone and has 32 bytes, the output size
/// that the crate declares for this hasher.
#[verifier::external_body]
pub(crate) fn sha256_digest(data: &[u8]) -> (d: Vec<u8>)
    ensures
        d@ == sha256(data@),
        d@.len() == 32,
{
    sha2::Sha256::digest(data).to_vec()
}

/// Compares two byte strings without a branch on their contents.
///
/// Trusted: the body is `subtle::ConstantTimeEq::ct_eq` on slices, whose
/// choice is 1 where both have the same length and the same bytes and 0
/// otherwise, turned into a `bool`.
#[verifier::external_body]
pub(crate) fn constant_time_eq(a: &[u8], b: &[u8]) -> (r: bool)
    ensures
        r == (a@ == b@),
{
    a.ct_eq(b).into()
}

} // verus!
