//! Identifiers: a UUID is held as its 128-bit value.
use vstd::prelude::*;

verus! {

/// The value denoted by a UUID text, or `None` where the text is no UUID.
pub uninterp spec fn uuid_value_of(s: Seq<char>) -> Option<u128>;

/// Relies on `uuid::Uuid::try_parse`: it accepts the text exactly when it is a
/// UUID in one of the crate's textual forms, and its result depends on the text
/// alone.
#[verifier::external_body]
pub fn parse_uuid(s: &str) -> (r: Option<u128>)
    ensures
        r == uuid_value_of(s@),
{
    uuid::Uuid::try_parse(s).ok().map(|u| u.as_u128())
}

/// Relies on `uuid::Uuid::from_u128` and its `Display`: the hyphenated lower-case
/// form, which `try_parse` reads back to the same value.
#[verifier::external_body]
pub fn uuid_to_text(v: u128) -> (r: String)
    ensures
        uuid_value_of(r@) == Some(v),
{
    uuid::Uuid::from_u128(v).to_string()
}

} // verus!
