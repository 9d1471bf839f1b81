//! Reading JSON text into a generic value.

use vstd::prelude::*;

verus! {

/// A generic JSON value. Nothing is known of its contents here: it is only
/// handed on to the engine.
#[verifier::external_type_specification]
#[verifier::external_body]
pub struct ExJsonValue(serde_json::Value);

/// What the JSON reader reports for a text that is not JSON.
#[verifier::external_type_specification]
#[verifier::external_body]
pub struct ExJsonError(serde_json::Error);

/// What `serde_json::from_str` gives for `text` when a generic value is
/// asked for.
pub uninterp spec fn parsed_json(text: Seq<char>) -> Result<serde_json::Value, serde_json::Error>;

/// `serde_json::from_str` into a `serde_json::Value`. The reader looks at
/// the text alone, so the outcome is the one named by `parsed_json`.
#[verifier::external_body]
pub(crate) fn parse_json(text: &str) -> (r: Result<serde_json::Value, serde_json::Error>)
    ensures
        r == parsed_json(text@),
{
    serde_json::from_str::<serde_json::Value>(text)
}

} // verus!
