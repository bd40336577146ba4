//! The internal endpoint that evicts a slug's caches.

use vstd::prelude::*;
use vstd::string::*;
use vstd::utf8::*;
use crate::auth::{token_accepted, verify_bearer_token};
use crate::endpoint_cache::endpoint_key;
use crate::quota::slug_quota_key;
use crate::slug::{is_valid_slug, valid_slug_bytes};

verus! {

/// What becomes of a request to evict a slug's caches.
#[derive(Debug)]
pub enum Invalidation {
    /// 401: the token is wrong.
    Unauthorized,
    /// 400: the slug is malformed.
    InvalidSlug,
    /// 200: delete the cached endpoint under `endpoint_key`, and the cached
    /// quota under `quota_key` together with the owner's that it points to.
    Evict { endpoint_key: String, quota_key: String },
}

impl Invalidation {
    /// The status of the reply.
    pub fn status(&self) -> (code: u16)
        ensures
            code == match self {
                Invalidation::Unauthorized => 401u16,
                Invalidation::InvalidSlug => 400u16,
                Invalidation::Evict { .. } => 200u16,
            },
    {
        match self {
            Invalidation::Unauthorized => 401,
            Invalidation::InvalidSlug => 400,
            Invalidation::Evict { .. } => 200,
        }
    }
}

/// Decides what becomes of a request to evict the caches of `slug`. The token
/// is checked before the slug. `authorization` is the value of the request's
/// `Authorization` header, empty where it has none.
pub fn cache_invalidate(authorization: &str, secret: &str, slug: &str) -> (r: Invalidation)
    ensures
        !token_accepted(encode_utf8(authorization@), secret@) ==> r is Unauthorized,
        token_accepted(encode_utf8(authorization@), secret@) && !valid_slug_bytes(
            encode_utf8(slug@),
        ) ==> r is InvalidSlug,
        token_accepted(encode_utf8(authorization@), secret@) && valid_slug_bytes(
            encode_utf8(slug@),
        ) ==> (r matches Invalidation::Evict { endpoint_key, quota_key } && endpoint_key@ == "ep:"@
            + slug@ && quota_key@ == "quota:"@ + slug@),
{
    if !verify_bearer_token(authorization, secret) {
        return Invalidation::Unauthorized;
    }
    if !is_valid_slug(slug) {
        return Invalidation::InvalidSlug;
    }
    Invalidation::Evict { endpoint_key: endpoint_key(slug), quota_key: slug_quota_key(slug) }
}

} // verus!
