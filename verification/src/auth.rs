//! Bearer-token verification for the internal endpoints.

use vstd::prelude::*;
use vstd::string::*;
use vstd::utf8::*;
use crate::control_plane::bearer;
use crate::digest::{constant_time_eq, sha256, sha256_digest};

verus! {

/// The header value that the holder of `secret` presents, as bytes.
pub open spec fn expected_header(secret: Seq<char>) -> Seq<u8> {
    encode_utf8("Bearer "@ + secret)
}

/// Whether the digests of the presented header value and of the expected one
/// are the same.
pub open spec fn token_accepted(provided: Seq<u8>, secret: Seq<char>) -> bool {
    sha256(provided) == sha256(expected_header(secret))
}

/// Verifies an `Authorization` header value against the shared secret. Both
/// sides are digested first, so that the comparison, which takes the same
/// time for any two digests, shows neither a length nor a common prefix.
pub fn verify_bearer_token(provided: &str, expected_secret: &str) -> (ok: bool)
    ensures
        ok == token_accepted(provided.spec_bytes(), expected_secret@),
        provided@ == "Bearer "@ + expected_secret@ ==> ok,
{
    let expected = bearer(expected_secret);
    let provided_digest = sha256_digest(provided.as_bytes());
    let expected_digest = sha256_digest(expected.as_str().as_bytes());
    constant_time_eq(provided_digest.as_slice(), expected_digest.as_slice())
}

} // verus!
