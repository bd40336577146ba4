//! The endpoint cache: its key.

use vstd::prelude::*;
use vstd::string::*;

verus! {

/// The key of a slug's cached endpoint.
pub fn endpoint_key(slug: &str) -> (key: String)
    ensures
        key@ == "ep:"@ + slug@,
{
    let mut key = String::from_str("ep:");
    key.append(slug);
    key
}

} // verus!
