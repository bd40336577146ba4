//! JSON objects of strings, written and read by `serde_json`.

use vstd::prelude::*;
use crate::string_map::{pairs_text, Entries};

verus! {

/// The JSON object that holds `entries` in their order, each key and value a
/// JSON string, in the compact form.
pub uninterp spec fn json_object_text(entries: Entries) -> Seq<char>;

/// The entries of a JSON object whose values are all strings, in the order of
/// their keys, where of two entries with one key the later one stays; `None`
/// for a text that is no such object.
pub uninterp spec fn json_object_entries(text: Seq<char>) -> Option<Entries>;

/// Writes pairs of strings as a JSON object.
///
/// Trusted: the body hands the pairs, in their order, to
/// `serde::Serializer::collect_map` on a `serde_json::Serializer` that writes
/// into a vector, and makes a string of what was written. What is written is
/// a function of the pairs alone. The serializer fails only where its writer
/// fails or a key is no string; a vector takes every write and the keys are
/// strings, and what it writes is UTF-8, so that a text is always handed back.
#[verifier::external_body]
pub(crate) fn write_json_object(pairs: &Vec<(String, String)>) -> (s: String)
    ensures
        s@ == json_object_text(pairs_text(pairs@)),
{
    let mut out: Vec<u8> = Vec::new();
    let mut serializer = serde_json::Serializer::new(&mut out);
    let _ = serde::Serializer::collect_map(&mut serializer, pairs.iter().map(|p| (&p.0, &p.1)));
    String::from_utf8(out).unwrap_or_default()
}

/// Reads a JSON object whose values are all strings.
///
/// Trusted: the body is `serde_json::from_str` into a `BTreeMap` of strings,
/// whose entries are handed back in the map's order. Whether the text parses,
/// and into what, is a function of the text alone.
#[verifier::external_body]
pub(crate) fn read_json_object(text: &str) -> (r: Option<Vec<(String, String)>>)
    ensures
        match r {
            Some(pairs) => json_object_entries(text@) == Some(pairs_text(pairs@)),
            None => json_object_entries(text@) is None,
        },
{
    let parsed: Result<std::collections::BTreeMap<String, String>, serde_json::Error> =
        serde_json::from_str(text);
    parsed.ok().map(|m| m.into_iter().collect())
}

} // verus!
