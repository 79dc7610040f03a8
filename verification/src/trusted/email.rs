//! Email addresses, judged by the `validator` crate.

use vstd::prelude::*;
use validator::ValidateEmail;

verus! {

/// Whether `validator` takes `text` for an email address, by the rules of
/// the HTML5 specification.
pub uninterp spec fn valid_email(text: Seq<char>) -> bool;

/// `ValidateEmail::validate_email` on a string: tells whether the text is an
/// email address. The answer depends on the text alone.
#[verifier::external_body]
pub(crate) fn is_email(text: &str) -> (r: bool)
    ensures
        r == valid_email(text@),
{
    text.validate_email()
}

} // verus!
