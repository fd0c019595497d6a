//! Session tokens: 128-bit identifiers and their canonical text, the
//! exact value carried by the session cookie.

use vstd::prelude::*;

verus! {

/// What parsing a token text yields: the 128-bit identifier it denotes,
/// or nothing when the text is not a well-formed identifier.
pub uninterp spec fn spec_parse_token(s: Seq<char>) -> Option<u128>;

/// The canonical (hyphenated, lower-case) text of a 128-bit identifier.
pub uninterp spec fn spec_token_text(id: u128) -> Seq<char>;

/// Relies on `uuid::Uuid::new_v4` (with `as_u128`): a freshly drawn random
/// identifier. Nothing is assumed of the value; uniqueness across sessions
/// is probabilistic by construction, never checked.
#[verifier::external_body]
pub(crate) fn fresh_token() -> u128 {
    uuid::Uuid::new_v4().as_u128()
}

/// Relies on `uuid::Uuid::parse_str` (with `as_u128`): the outcome depends
/// on the text alone, and text that the parser rejects yields nothing.
#[verifier::external_body]
pub(crate) fn parse_token(s: &str) -> (r: Option<u128>)
    ensures
        r == spec_parse_token(s@),
{
    match uuid::Uuid::parse_str(s) {
        Ok(u) => Some(u.as_u128()),
        Err(_) => None,
    }
}

/// Relies on `uuid::Uuid::from_u128` and `to_string`: the canonical text
/// is 36 characters, depends on the identifier alone, and `parse_str`
/// accepts exactly this text back to the same identifier.
#[verifier::external_body]
pub(crate) fn format_token(id: u128) -> (r: String)
    ensures
        r@ == spec_token_text(id),
        r@.len() == 36,
        spec_parse_token(r@) == Some(id),
{
    uuid::Uuid::from_u128(id).to_string()
}

} // verus!
