//! What the library asks of JSON texts. The reading and the quoting are
//! `serde_json`'s; each answer is a plain value.

use vstd::prelude::*;

verus! {

/// The message with which `serde_json` refuses `text`; `None` where `text` is JSON.
pub uninterp spec fn json_syntax_error(text: Seq<char>) -> Option<Seq<char>>;

/// The string that stands in the JSON `text` at the place that the JSON
/// pointer `pointer` names; `None` where `text` is no JSON, the place does not
/// exist or something other than a string stands there.
pub uninterp spec fn json_text_at(text: Seq<char>, pointer: Seq<char>) -> Option<Seq<char>>;

/// The number that stands in the JSON `text` at the place that `pointer`
/// names, as the bits of the nearest double; `None` where `text` is no JSON,
/// the place does not exist or something other than a number stands there.
pub uninterp spec fn json_number_bits_at(text: Seq<char>, pointer: Seq<char>) -> Option<u64>;

/// `text` as a JSON string: quoted and escaped.
pub uninterp spec fn json_quoted(text: Seq<char>) -> Option<Seq<char>>;

/// Reads `text` with `serde_json::from_str` into a `serde_json::Value` and
/// hands back the error's own message where the reading fails.
#[verifier::external_body]
pub(crate) fn syntax_error(text: &str) -> (message: Option<String>)
    ensures
        message is Some == json_syntax_error(text@) is Some,
        message matches Some(m) ==> json_syntax_error(text@) == Some(m@),
{
    match serde_json::from_str::<serde_json::Value>(text) {
        Ok(_) => None,
        Err(refusal) => Some(refusal.to_string()),
    }
}

/// Reads `text` with `serde_json::from_str`, follows `pointer` with
/// `serde_json::Value::pointer` and takes the string there with `as_str`.
#[verifier::external_body]
pub(crate) fn text_at(text: &str, pointer: &str) -> (found: Option<String>)
    ensures
        found is Some == json_text_at(text@, pointer@) is Some,
        found matches Some(s) ==> json_text_at(text@, pointer@) == Some(s@),
{
    let value = serde_json::from_str::<serde_json::Value>(text).ok()?;
    value.pointer(pointer)?.as_str().map(|s| s.to_string())
}

/// Reads `text` with `serde_json::from_str`, follows `pointer` with
/// `serde_json::Value::pointer` and takes the number there with `as_f64`,
/// handing it back as its bits.
#[verifier::external_body]
pub(crate) fn number_bits_at(text: &str, pointer: &str) -> (found: Option<u64>)
    ensures
        found == json_number_bits_at(text@, pointer@),
{
    let value = serde_json::from_str::<serde_json::Value>(text).ok()?;
    value.pointer(pointer)?.as_f64().map(|number| number.to_bits())
}

/// Writes `text` as a JSON string with `serde_json::to_string`.
#[verifier::external_body]
pub(crate) fn quoted(text: &str) -> (literal: Option<String>)
    ensures
        literal is Some == json_quoted(text@) is Some,
        literal matches Some(s) ==> json_quoted(text@) == Some(s@),
{
    serde_json::to_string(text).ok()
}

} // verus!
