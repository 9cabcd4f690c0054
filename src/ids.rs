//! Account identifiers: 128-bit random values, written in hyphenated form.

use vstd::prelude::*;

verus! {

/// What `Uuid::parse_str` yields for a text, as the 128-bit value.
pub uninterp spec fn uuid_parsed(s: Seq<char>) -> Option<u128>;

/// Relies on `Uuid::new_v4`: a fresh random identifier; nothing is known of its value.
#[verifier::external_body]
pub fn new_account_id() -> (r: u128)
{
    uuid::Uuid::new_v4().as_u128()
}

/// Relies on `Uuid`'s `Display`: the 36-character hyphenated form, which
/// `Uuid::parse_str` reads back to the same value.
#[verifier::external_body]
pub fn uuid_text(id: u128) -> (r: String)
    ensures
        r@.len() == 36,
        uuid_parsed(r@) == Some(id),
{
    uuid::Uuid::from_u128(id).to_string()
}

/// Relies on `Uuid::parse_str`.
#[verifier::external_body]
pub fn parse_uuid(s: &str) -> (r: Option<u128>)
    ensures
        r == uuid_parsed(s@),
{
    uuid::Uuid::parse_str(s).ok().map(|u| u.as_u128())
}

} // verus!
