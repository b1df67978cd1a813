//! JSON documents, as `serde_json` reads them.

use vstd::prelude::*;
use serde_json::Value;

verus! {

/// `serde_json::Value`: a parsed JSON document. Opaque to the verifier.
#[verifier::external_type_specification]
#[verifier::external_body]
pub struct ExValue(Value);

/// What `serde_json::from_str` makes of a text: the document, or the text of
/// the syntax error.
pub uninterp spec fn json_parse(text: Seq<char>) -> Result<Value, Seq<char>>;

/// The member of a JSON object under `key`, as `Value::get` finds it; `None`
/// where the value is no object or has no such member.
pub uninterp spec fn json_member(value: Value, key: Seq<char>) -> Option<Value>;

/// The text of a JSON string, as `Value::as_str` gives it; `None` where the
/// value is no string.
pub uninterp spec fn json_string(value: Value) -> Option<Seq<char>>;

/// The compact JSON text of a value, as its `Display` writes it.
pub uninterp spec fn json_text(value: Value) -> Seq<char>;

/// Writes a value as compact JSON text through its `Display`, which is what
/// `to_string` calls.
///
/// Trusted: the text is a function of the value, which the contract names
/// `json_text`.
#[verifier::external_body]
pub(crate) fn render_json(value: &Value) -> (text: String)
    ensures
        text@ == json_text(*value),
{
    value.to_string()
}

/// Parses a text as one JSON document with `serde_json::from_str`.
///
/// Trusted: the outcome is a function of the text alone, which the contract
/// names `json_parse`; an error is handed back as its own message.
#[verifier::external_body]
pub(crate) fn parse_json(text: &str) -> (parsed: Result<Value, String>)
    ensures
        match parsed {
            Ok(value) => json_parse(text@) == Ok::<Value, Seq<char>>(value),
            Err(message) => json_parse(text@) == Err::<Value, Seq<char>>(message@),
        },
{
    serde_json::from_str::<Value>(text).map_err(|e| e.to_string())
}

/// Looks up a member of a JSON object with `Value::get`.
///
/// Trusted: the outcome is a function of the value and the key, which the
/// contract names `json_member`.
#[verifier::external_body]
pub(crate) fn member<'a>(value: &'a Value, key: &str) -> (found: Option<&'a Value>)
    ensures
        match found {
            Some(inner) => json_member(*value, key@) == Some(*inner),
            None => json_member(*value, key@) is None,
        },
{
    value.get(key)
}

/// Reads a JSON string with `Value::as_str`.
///
/// Trusted: the outcome is a function of the value, which the contract names
/// `json_string`.
#[verifier::external_body]
pub(crate) fn string_of<'a>(value: &'a Value) -> (text: Option<&'a str>)
    ensures
        match text {
            Some(t) => json_string(*value) == Some(t@),
            None => json_string(*value) is None,
        },
{
    value.as_str()
}

} // verus!
