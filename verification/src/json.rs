//! Reading members of a JSON document and writing a flat JSON object, both
//! done by `serde_json`. Nothing here is proved: each function states what the
//! call hands back, under a name where the result takes a parser to describe.

use vstd::prelude::*;
use crate::pairs::{number_pairs_view, text_pairs_view};

verus! {

/// The string held by member `key` of the JSON object that `document` spells:
/// `None` where `document` is not JSON, is not an object, has no such member, or
/// holds there anything but a string.
pub uninterp spec fn json_text_member(document: Seq<char>, key: Seq<char>) -> Option<Seq<char>>;

/// The unsigned integer held by member `key` of the JSON object that `document`
/// spells: `None` where `document` is not JSON, is not an object, has no such
/// member, or holds there anything but a whole number from 0 to `u64::MAX`.
pub uninterp spec fn json_u64_member(document: Seq<char>, key: Seq<char>) -> Option<u64>;

/// The pretty-printed JSON object whose members are `texts`, each a string, and
/// `numbers`, each a whole number; `None` where `serde_json` fails to write it.
pub uninterp spec fn json_object_text(
    texts: Seq<(Seq<char>, Seq<char>)>,
    numbers: Seq<(Seq<char>, u64)>,
) -> Option<Seq<char>>;

/// Calls `serde_json::from_str` for a `serde_json::Value`, indexes it by `key` and
/// asks `Value::as_str`. The contract only names the outcome: it is the same for
/// the same document and key.
#[verifier::external_body]
pub(crate) fn text_member(document: &str, key: &str) -> (r: Option<String>)
    ensures
        match r {
            Some(s) => json_text_member(document@, key@) == Some(s@),
            None => json_text_member(document@, key@) is None,
        },
{
    let value: serde_json::Value = serde_json::from_str(document).ok()?;
    value[key].as_str().map(String::from)
}

/// Calls `serde_json::from_str` for a `serde_json::Value`, indexes it by `key` and
/// asks `Value::as_u64`. The contract only names the outcome: it is the same for
/// the same document and key.
#[verifier::external_body]
pub(crate) fn u64_member(document: &str, key: &str) -> (r: Option<u64>)
    ensures
        r == json_u64_member(document@, key@),
{
    let value: serde_json::Value = serde_json::from_str(document).ok()?;
    value[key].as_u64()
}

/// Fills a `serde_json::Map` with the members given and calls
/// `serde_json::to_string_pretty` on it. The contract only names the outcome: it
/// is the same for the same members.
#[verifier::external_body]
pub(crate) fn object_text(texts: &Vec<(String, String)>, numbers: &Vec<(String, u64)>) -> (r:
    Option<String>)
    ensures
        match r {
            Some(s) => json_object_text(text_pairs_view(texts@), number_pairs_view(numbers@))
                == Some(s@),
            None => json_object_text(text_pairs_view(texts@), number_pairs_view(numbers@)) is None,
        },
{
    let mut object = serde_json::Map::new();
    object.extend(texts.iter().map(|p| (p.0.clone(), serde_json::Value::from(p.1.as_str()))));
    object.extend(numbers.iter().map(|p| (p.0.clone(), serde_json::Value::from(p.1))));
    serde_json::to_string_pretty(&object).ok()
}

} // verus!
