//! Public identifiers, read and written by the `uuid` crate. An identifier
//! is held as the 128-bit number that it is.

use vstd::prelude::*;

verus! {

/// The identifier that `Uuid::parse_str` reads from `text`, if it reads one.
pub uninterp spec fn uuid_parsed(text: Seq<char>) -> Option<u128>;

/// The text that `Uuid`'s `to_string` writes for the identifier `id`: the
/// hyphenated form, in lower case.
pub uninterp spec fn uuid_text(id: u128) -> Seq<char>;

/// `Uuid::parse_str`: reads an identifier from any of the forms that the
/// crate writes. The result depends on the text alone.
#[verifier::external_body]
pub(crate) fn parse_uuid(text: &str) -> (r: Option<u128>)
    ensures
        r == uuid_parsed(text@),
{
    uuid::Uuid::parse_str(text).ok().map(|id| id.as_u128())
}

/// `Uuid`'s `to_string`: writes the identifier in its hyphenated form. The
/// crate documents that `parse_str` reads every form that the crate writes,
/// so the text reads back as the same identifier.
#[verifier::external_body]
pub(crate) fn print_uuid(id: u128) -> (r: String)
    ensures
        r@ == uuid_text(id),
        uuid_parsed(r@) == Some(id),
{
    uuid::Uuid::from_u128(id).to_string()
}

} // verus!
