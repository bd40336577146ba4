//! The dedup index: the fingerprint of a request, its key, and the
//! set-if-absent with a time to live as a model on one key.

use vstd::prelude::*;
use vstd::string::*;
use vstd::utf8::*;
use crate::digest::{sha256, sha256_digest};
use crate::text::{hex_text, push_hex};

verus! {

/// Seconds for which a fingerprint stays in the index.
pub const DEDUP_TTL_SECS: u64 = 2;

/// The bytes of the body that enter the fingerprint.
pub const FINGERPRINT_BODY_BYTES: usize = 512;

/// The first 512 bytes of a body, or all of it where it has no more.
pub open spec fn body_prefix(body: Seq<u8>) -> Seq<u8> {
    body.take(vstd::math::min(512, body.len() as int))
}

/// What is digested for a request: slug, method, path, the body's prefix and
/// the client's address, with a `|` between each two.
pub open spec fn fingerprint_input(
    slug: Seq<u8>,
    method: Seq<u8>,
    path: Seq<u8>,
    body: Seq<u8>,
    client_ip: Seq<u8>,
) -> Seq<u8> {
    slug + seq![0x7cu8] + method + seq![0x7cu8] + path + seq![0x7cu8] + body_prefix(body)
        + seq![0x7cu8] + client_ip
}

/// The key of a request in the dedup index.
pub open spec fn dedup_key_text(
    slug: Seq<char>,
    method: Seq<char>,
    path: Seq<char>,
    body: Seq<u8>,
    client_ip: Seq<char>,
) -> Seq<char> {
    "dedup:"@ + slug + ":"@ + hex_text(
        sha256(
            fingerprint_input(
                encode_utf8(slug),
                encode_utf8(method),
                encode_utf8(path),
                body,
                encode_utf8(client_ip),
            ),
        ),
    )
}

/// Builds what is digested for a request.
pub fn fingerprint_bytes(slug: &str, method: &str, path: &str, body: &[u8], client_ip: &str) -> (v:
    Vec<u8>)
    ensures
        v@ == fingerprint_input(
            slug.spec_bytes(),
            method.spec_bytes(),
            path.spec_bytes(),
            body@,
            client_ip.spec_bytes(),
        ),
{
    let mut v: Vec<u8> = Vec::new();
    v.extend_from_slice(slug.as_bytes());
    v.push(0x7c);
    v.extend_from_slice(method.as_bytes());
    v.push(0x7c);
    v.extend_from_slice(path.as_bytes());
    v.push(0x7c);
    let n: usize = if body.len() < FINGERPRINT_BODY_BYTES {
        body.len()
    } else {
        FINGERPRINT_BODY_BYTES
    };
    let mut i: usize = 0;
    let ghost head = v@;
    while i < n
        invariant
            i <= n <= body@.len(),
            v@ == head + body@.take(i as int),
        decreases n - i,
    {
        v.push(body[i]);
        assert(body@.take(i + 1) =~= body@.take(i as int).push(body@[i as int]));
        i += 1;
    }
    v.push(0x7c);
    v.extend_from_slice(client_ip.as_bytes());
    assert(v@ =~= fingerprint_input(
        slug.spec_bytes(),
        method.spec_bytes(),
        path.spec_bytes(),
        body@,
        client_ip.spec_bytes(),
    ));
    v
}

/// The key of a request in the dedup index: `dedup:`, the slug, `:` and the
/// fingerprint's SHA-256 digest in lower-case hexadecimal.
pub fn dedup_key(slug: &str, method: &str, path: &str, body: &[u8], client_ip: &str) -> (key:
    String)
    ensures
        key@ == dedup_key_text(slug@, method@, path@, body@, client_ip@),
        key@.len() == 6 + slug@.len() + 1 + 64,
{
    let input = fingerprint_bytes(slug, method, path, body, client_ip);
    let digest = sha256_digest(input.as_slice());
    let mut key = String::from_str("dedup:");
    key.append(slug);
    key.append(":");
    push_hex(&mut key, digest.as_slice());
    proof {
        reveal_strlit("dedup:");
        reveal_strlit(":");
        lemma_hex_len(digest@);
    }
    key
}

/// Hexadecimal text has two characters for each byte.
pub proof fn lemma_hex_len(bytes: Seq<u8>)
    ensures
        hex_text(bytes).len() == 2 * bytes.len(),
    decreases bytes.len(),
{
    if bytes.len() > 0 {
        lemma_hex_len(bytes.drop_last());
    }
}

/// How the store's answer to the set-if-absent reads: `true` for a request
/// seen for the first time. A store that failed to answer lets the request
/// through.
pub fn first_seen(reply: Option<bool>) -> (r: bool)
    ensures
        r == match reply {
            Some(was_set) => was_set,
            None => true,
        },
{
    match reply {
        Some(was_set) => was_set,
        None => true,
    }
}

/// Whether the fingerprint stored under a key is still there at `now`: the
/// cell holds the millisecond at which it expires.
pub open spec fn present_at(cell: Option<i64>, now: int) -> bool {
    match cell {
        Some(expiry) => now < expiry,
        None => false,
    }
}

/// The set-if-absent on the cell of one key at `now`: the cell afterwards and
/// whether the key was set.
pub open spec fn mark_effect(cell: Option<i64>, now: i64) -> (Option<i64>, bool) {
    if present_at(cell, now as int) {
        (cell, false)
    } else {
        (Some((now + 2000) as i64), true)
    }
}

/// Runs the set-if-absent on the cell of one key at `now`, in epoch
/// milliseconds: a key that is absent or has expired is set, to expire
/// `DEDUP_TTL_SECS` later.
pub fn mark_seen(cell: &mut Option<i64>, now: i64) -> (was_set: bool)
    requires
        now + 2000 <= i64::MAX,
    ensures
        (*final(cell), was_set) == mark_effect(*old(cell), now),
{
    let present = match *cell {
        Some(expiry) => now < expiry,
        None => false,
    };
    if present {
        false
    } else {
        *cell = Some(now + 2000);
        true
    }
}

/// Of two checks of one fingerprint less than two seconds apart, at most one
/// finds it new: where the first did, the second does not.
pub proof fn lemma_dedup_window(cell: Option<i64>, first: i64, second: i64)
    requires
        first <= second < first + 2000,
        first + 2000 <= i64::MAX,
    ensures
        !(mark_effect(cell, first).1 && mark_effect(mark_effect(cell, first).0, second).1),
        mark_effect(cell, first).1 ==> mark_effect(mark_effect(cell, first).0, second).0
            == mark_effect(cell, first).0,
{
}

} // verus!
