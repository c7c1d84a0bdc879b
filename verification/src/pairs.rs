//! Named values, as they stand in a query string, a form body or a flat JSON object.

use vstd::prelude::*;

verus! {

/// A name with the text that belongs to it, as plain values.
pub open spec fn text_pair_view(p: (String, String)) -> (Seq<char>, Seq<char>) {
    (p.0@, p.1@)
}

/// A list of named texts, as plain values.
pub open spec fn text_pairs_view(v: Seq<(String, String)>) -> Seq<(Seq<char>, Seq<char>)> {
    v.map_values(|p: (String, String)| text_pair_view(p))
}

/// A name with the number that belongs to it, as plain values.
pub open spec fn number_pair_view(p: (String, u64)) -> (Seq<char>, u64) {
    (p.0@, p.1)
}

/// A list of named numbers, as plain values.
pub open spec fn number_pairs_view(v: Seq<(String, u64)>) -> Seq<(Seq<char>, u64)> {
    v.map_values(|p: (String, u64)| number_pair_view(p))
}

/// An optional text as a plain value.
pub open spec fn text_view(t: Option<String>) -> Option<Seq<char>> {
    match t {
        Some(s) => Some(s@),
        None => None,
    }
}

/// Pairs a name with a text.
pub fn text_pair(name: &str, value: &str) -> (r: (String, String))
    ensures
        text_pair_view(r) == (name@, value@),
{
    (name.to_owned(), value.to_owned())
}

/// Pairs a name with a number.
pub fn number_pair(name: &str, value: u64) -> (r: (String, u64))
    ensures
        number_pair_view(r) == (name@, value),
{
    (name.to_owned(), value)
}

} // verus!
