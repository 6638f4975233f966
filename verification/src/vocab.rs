//! The tag vocabulary as it crosses a page boundary: a JSON array of
//! strings. The tagging page fetches the vocabulary, encodes it, and bakes
//! the text into the detail panel's props; the panel parses it back. Both
//! directions go through serde_json behind the trusted items below.

use vstd::prelude::*;

verus! {

/// What parsing a piece of text as a JSON array of strings yields: the tag
/// list it encodes, or nothing where the text is not such an array. The
/// result is a function of the text alone.
pub uninterp spec fn parsed_tags(s: Seq<char>) -> Option<Seq<Seq<char>>>;

/// Relies on serde_json::from_str::<Vec<String>>: it parses a JSON array of
/// strings and rejects everything else, deterministically in the input text.
#[verifier::external_body]
pub fn tags_from_json(s: &str) -> (r: Option<Vec<String>>)
    ensures
        r is Some <==> parsed_tags(s@) is Some,
        r matches Some(tags) ==> Some(tags.deep_view()) == parsed_tags(s@),
{
    serde_json::from_str::<Vec<String>>(s).ok()
}

/// Relies on serde_json::to_string::<Vec<String>>: encoding a vector of
/// strings cannot fail, and serde_json::from_str parses the encoding back to
/// an equal vector — the round trip is exact.
#[verifier::external_body]
pub fn tags_to_json(tags: &Vec<String>) -> (r: String)
    ensures
        parsed_tags(r@) == Some(tags.deep_view()),
{
    serde_json::to_string(tags).unwrap()
}

} // verus!
