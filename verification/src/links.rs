//! Validation of target links.
//!
//! A stored target must be a well-formed absolute URL. Parsing and
//! normalisation are delegated to the `url` crate; the registry stores the
//! serialization of the parsed URL, so every stored link is in canonical
//! form and parses back to itself.

use vstd::prelude::*;

verus! {

/// What `url::Url::parse` followed by serialization yields for a given
/// input: `None` when the input is not a well-formed absolute URL,
/// otherwise the canonical serialization.
pub uninterp spec fn url_parse_of(s: Seq<char>) -> Option<Seq<char>>;

/// A string is canonical when it is a well-formed absolute URL that is
/// its own serialization.
pub open spec fn is_canonical(s: Seq<char>) -> bool {
    url_parse_of(s) == Some(s)
}

/// Relies on `url::Url::parse` and `url::Url::as_str`: `as_str` returns the
/// serialization of the parsed URL, and the crate's own invariant check
/// (`Url::check_invariants`) asserts that parsing that serialization
/// succeeds and serializes to the same string again.
#[verifier::external_body]
pub fn parse_link(s: &str) -> (r: Option<String>)
    ensures
        match r {
            Some(t) => url_parse_of(s@) == Some(t@) && is_canonical(t@),
            None => url_parse_of(s@) is None,
        },
{
    match url::Url::parse(s) {
        Ok(u) => Some(u.as_str().to_string()),
        Err(_) => None,
    }
}

} // verus!
