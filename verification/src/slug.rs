//! Slugs: the identifiers that capture addresses are made of.

use vstd::prelude::*;
use vstd::string::*;

verus! {

/// Longest slug accepted, in bytes.
pub const MAX_SLUG_LEN: usize = 50;

/// A byte that may occur in a slug: an ASCII letter, an ASCII digit, `-` or `_`.
pub open spec fn is_slug_byte(b: u8) -> bool {
    ||| 0x30 <= b <= 0x39
    ||| 0x41 <= b <= 0x5a
    ||| 0x61 <= b <= 0x7a
    ||| b == 0x2d
    ||| b == 0x5f
}

/// A slug is one to fifty slug bytes.
pub open spec fn valid_slug_bytes(bytes: Seq<u8>) -> bool {
    &&& 1 <= bytes.len() <= 50
    &&& forall|i: int| 0 <= i < bytes.len() ==> is_slug_byte(#[trigger] bytes[i])
}

fn slug_byte(b: u8) -> (r: bool)
    ensures
        r == is_slug_byte(b),
{
    (0x30 <= b && b <= 0x39) || (0x41 <= b && b <= 0x5a) || (0x61 <= b && b <= 0x7a) || b == 0x2d
        || b == 0x5f
}

/// Whether `slug` is a well-formed slug.
pub fn is_valid_slug(slug: &str) -> (r: bool)
    ensures
        r == valid_slug_bytes(slug.spec_bytes()),
{
    let bytes = slug.as_bytes();
    let n: usize = bytes.len();
    if n == 0 || n > MAX_SLUG_LEN {
        return false;
    }
    let mut i: usize = 0;
    while i < n
        invariant
            n == bytes@.len(),
            bytes@ == slug.spec_bytes(),
            1 <= n <= 50,
            i <= n,
            forall|j: int| 0 <= j < i ==> is_slug_byte(#[trigger] bytes@[j]),
        decreases n - i,
    {
        if !slug_byte(bytes[i]) {
            return false;
        }
        i += 1;
    }
    true
}

} // verus!
