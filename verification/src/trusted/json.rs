//! JSON text, written by the `serde_json` crate.

use vstd::prelude::*;

verus! {

/// The JSON string literal that `serde_json` writes for `text`: the text in
/// double quotes, with the characters escaped that JSON wants escaped.
pub uninterp spec fn json_string(text: Seq<char>) -> Seq<char>;

/// `serde_json::Value::String`, written by its `to_string`: the JSON string
/// literal for the text. The result depends on the text alone.
#[verifier::external_body]
pub(crate) fn quote_json(text: &str) -> (r: String)
    ensures
        r@ == json_string(text@),
{
    serde_json::Value::String(text.to_owned()).to_string()
}

} // verus!
