//! The JSON codec, as far as this library relies on it. Nothing in this file is
//! proved: each function states what the `serde_json` crate is taken to do.

use vstd::prelude::*;

verus! {

/// A parsed JSON document, `serde_json::Value`. The library only carries such
/// a value from the parser to the printer and never looks inside.
#[verifier::external_type_specification]
#[verifier::external_body]
pub struct ExJsonValue(serde_json::Value);

/// The reason for which the codec gave up, `serde_json::Error`.
#[verifier::external_type_specification]
#[verifier::external_body]
pub struct ExJsonError(serde_json::Error);

/// What `serde_json::from_slice` makes of `body` when a `serde_json::Value` is
/// asked for: the document, or the reason for which `body` is not one.
pub uninterp spec fn json_from_slice(body: Seq<u8>) -> Result<serde_json::Value, serde_json::Error>;

/// What `serde_json::to_string_pretty` makes of `value`: its text over several
/// lines, indented by two spaces a level, or the reason for which it has none.
pub uninterp spec fn json_to_string_pretty(value: serde_json::Value) -> Result<
    Seq<char>,
    serde_json::Error,
>;

/// The description that `serde_json::Error` gives of itself through `Display`.
pub uninterp spec fn json_error_text(err: serde_json::Error) -> Seq<char>;

/// A printer's result with its text taken as a sequence of characters.
pub open spec fn text_of(r: Result<String, serde_json::Error>) -> Result<
    Seq<char>,
    serde_json::Error,
> {
    match r {
        Ok(s) => Ok(s@),
        Err(e) => Err(e),
    }
}

/// `serde_json::from_slice::<serde_json::Value>`. Taken on trust: the result
/// depends on the bytes alone. The parser reads strict UTF-8 JSON, refuses
/// what is nested deeper than its fixed limit instead of overflowing, and
/// returns on every input.
#[verifier::external_body]
pub(crate) fn from_slice(body: &[u8]) -> (r: Result<serde_json::Value, serde_json::Error>)
    ensures
        r == json_from_slice(body@),
{
    serde_json::from_slice::<serde_json::Value>(body)
}

/// `serde_json::to_string_pretty` on a `serde_json::Value`. Taken on trust:
/// the result depends on the document alone.
#[verifier::external_body]
pub(crate) fn to_string_pretty(value: &serde_json::Value) -> (r: Result<String, serde_json::Error>)
    ensures
        text_of(r) == json_to_string_pretty(*value),
{
    serde_json::to_string_pretty(value)
}

/// `ToString::to_string` on a `serde_json::Error`, which goes through its
/// `Display`. Taken on trust: the text depends on the error alone.
#[verifier::external_body]
pub(crate) fn error_text(err: &serde_json::Error) -> (r: String)
    ensures
        r@ == json_error_text(*err),
{
    err.to_string()
}

} // verus!
