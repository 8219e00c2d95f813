//! The two calls into the `uuid` crate: reading a UUID from text and writing one out.
//!
//! A UUID is held as its 128-bit value, most significant byte first.

use vstd::prelude::*;

verus! {

/// The value `uuid::Uuid::parse_str` reads from a text, or `None` where it rejects the text.
pub uninterp spec fn uuid_parse(text: Seq<char>) -> Option<u128>;

/// The text `uuid` displays for a value: hyphenated, lower case.
pub uninterp spec fn uuid_text(value: u128) -> Seq<char>;

/// Calls `uuid::Uuid::parse_str` and, where it accepts the text, `Uuid::as_u128` on what it
/// gives. Nothing is proved of it: the result is taken to depend on the text alone.
#[verifier::external_body]
pub(crate) fn parse_uuid(text: &str) -> (r: Option<u128>)
    ensures
        r == uuid_parse(text@),
{
    match uuid::Uuid::parse_str(text) {
        Ok(parsed) => Some(parsed.as_u128()),
        Err(_) => None,
    }
}

/// Calls `uuid::Uuid::from_u128` and the `Display` of the result. Nothing is proved of it:
/// the text is taken to depend on the value alone, and to be one that `parse_str` reads back
/// to the same value, as the crate documents of every format it writes.
#[verifier::external_body]
pub(crate) fn format_uuid(value: u128) -> (r: String)
    ensures
        r@ == uuid_text(value),
        uuid_parse(r@) == Some(value),
{
    uuid::Uuid::from_u128(value).to_string()
}

} // verus!
