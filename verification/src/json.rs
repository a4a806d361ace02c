//! The JSON values that a reply carries, and their pretty-printed text.
//!
//! A [`serde_json::Value`] is carried through the relay unread. The one thing
//! asked of it is its indented text, which `serde_json` computes; the items
//! here are the assumptions made about that call.

use vstd::prelude::*;

verus! {

/// `serde_json::Value`, an arbitrary JSON value. Its contents are not visible
/// to the verifier.
#[verifier::external_type_specification]
#[verifier::external_body]
pub struct ExValue(serde_json::Value);

/// `serde_json::Error`, the failure of a `serde_json` call. Its contents are
/// not visible to the verifier.
#[verifier::external_type_specification]
#[verifier::external_body]
pub struct ExError(serde_json::Error);

/// The text that `serde_json::to_string_pretty` gives for `value`, or `None`
/// where that call fails. It depends on the value alone.
pub uninterp spec fn pretty_json(value: serde_json::Value) -> Option<Seq<char>>;

/// Calls `serde_json::to_string_pretty` on a JSON value.
///
/// Assumed, not proved: whether the call succeeds, and the text it returns,
/// are determined by the value, and [`pretty_json`] is the name of that
/// outcome. Nothing is assumed about what the text looks like, nor that the
/// call succeeds.
#[verifier::external_body]
pub(crate) fn to_pretty(value: &serde_json::Value) -> (r: Result<String, serde_json::Error>)
    ensures
        pretty_text(r) == pretty_json(*value),
{
    serde_json::to_string_pretty(value)
}

/// What a pretty-printing attempt yielded, as plain text: the text on
/// success, `None` on failure.
pub open spec fn pretty_text(r: Result<String, serde_json::Error>) -> Option<Seq<char>> {
    match r {
        Ok(text) => Some(text@),
        Err(_) => None,
    }
}

} // verus!
