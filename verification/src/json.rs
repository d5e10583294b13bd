//! The JSON codec that game states pass through, `serde_json`, as the store
//! sees it. Nothing here is proved: each contract records what the codec is
//! taken to do.

use vstd::prelude::*;

verus! {

/// A JSON value, `serde_json::Value`. The store carries game states as such
/// values and never looks inside one.
#[verifier::external_type_specification]
#[verifier::external_body]
pub struct ExValue(serde_json::Value);

/// The error of the codec, `serde_json::Error`.
#[verifier::external_type_specification]
#[verifier::external_body]
pub struct ExJsonError(serde_json::Error);

/// What `serde_json::from_str` makes of a text read as one JSON value.
pub uninterp spec fn json_parse(text: Seq<char>) -> Result<serde_json::Value, serde_json::Error>;

/// What `serde_json::to_string` makes of a JSON value: its compact text.
pub uninterp spec fn json_compact(value: serde_json::Value) -> Result<Seq<char>, serde_json::Error>;

/// How a codec error describes itself, through its `Display`.
pub uninterp spec fn json_error_text(error: serde_json::Error) -> Seq<char>;

/// Calls `serde_json::from_str` to read a text as one JSON value. The
/// contract claims only that the outcome depends on the text alone.
#[verifier::external_body]
pub(crate) fn parse_json(text: &str) -> (out: Result<serde_json::Value, serde_json::Error>)
    ensures
        out == json_parse(text@),
{
    serde_json::from_str::<serde_json::Value>(text)
}

/// Calls `serde_json::to_string` to write a JSON value as compact text. The
/// contract claims only that the outcome depends on the value alone.
#[verifier::external_body]
pub(crate) fn encode_json(value: &serde_json::Value) -> (out: Result<String, serde_json::Error>)
    ensures
        match out {
            Ok(text) => json_compact(*value) == Ok::<Seq<char>, serde_json::Error>(text@),
            Err(error) => json_compact(*value) == Err::<Seq<char>, serde_json::Error>(error),
        },
{
    serde_json::to_string(value)
}

/// Calls `to_string` on a codec error, which formats it through its
/// `Display`. The contract claims only that the text depends on the error alone.
#[verifier::external_body]
pub(crate) fn error_text(error: &serde_json::Error) -> (out: String)
    ensures
        out@ == json_error_text(*error),
{
    error.to_string()
}

} // verus!
