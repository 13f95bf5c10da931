//! Reading a lockfile's text as a JSON document and checking it.
use vstd::prelude::*;

use crate::json::JsonValue;
use crate::lockfile::{document_violations, texts, validate_json};

verus! {

#[verifier::external_type_specification]
#[verifier::external_body]
pub struct ExSerdeValue(serde_json::Value);

/// The document that `text` holds, or `None` when it is not valid JSON.
pub uninterp spec fn parsed_document(text: Seq<char>) -> Option<JsonValue>;

/// The text is not a JSON document; `message` is the parser's explanation.
#[derive(Debug)]
pub struct ParseError {
    pub message: String,
}

/// Carries a tree of serde_json values over into `JsonValue`, one variant
/// for another, keeping each object's members in serde_json's order.
#[verifier::external_body]
fn from_serde(v: serde_json::Value) -> JsonValue {
    match v {
        serde_json::Value::Null => JsonValue::Null,
        serde_json::Value::Bool(b) => JsonValue::Bool(b),
        serde_json::Value::Number(n) => JsonValue::Number(n.to_string()),
        serde_json::Value::String(s) => JsonValue::Str(s),
        serde_json::Value::Array(a) => JsonValue::Array(a.into_iter().map(from_serde).collect()),
        serde_json::Value::Object(m) => JsonValue::Object(
            m.into_iter().map(|(k, v)| (k, from_serde(v))).collect(),
        ),
    }
}

/// Relies on serde_json::from_str into serde_json::Value: it accepts exactly
/// the valid JSON texts, and what it builds depends on the text alone.
#[verifier::external_body]
fn parse_text(text: &str) -> (r: Result<JsonValue, String>)
    ensures
        match r {
            Ok(doc) => parsed_document(text@) == Some(doc),
            Err(_) => parsed_document(text@) is None,
        },
{
    serde_json::from_str::<serde_json::Value>(text).map(from_serde).map_err(|e| e.to_string())
}

/// Parses `data` as one JSON document.
pub fn parse_json(data: &str) -> (r: Result<JsonValue, ParseError>)
    ensures
        match r {
            Ok(doc) => parsed_document(data@) == Some(doc),
            Err(_) => parsed_document(data@) is None,
        },
{
    match parse_text(data) {
        Ok(doc) => Ok(doc),
        Err(message) => Err(ParseError { message }),
    }
}

/// Parses a lockfile's text and lists the keys of the entries that lack
/// `integrity` or `resolved`; fails only when the text is not JSON.
pub fn check_lockfile(data: &str) -> (r: Result<Vec<String>, ParseError>)
    ensures
        match parsed_document(data@) {
            None => r is Err,
            Some(doc) => r matches Ok(keys) && texts(keys@) == document_violations(doc),
        },
{
    match parse_json(data) {
        Ok(doc) => Ok(validate_json(&doc)),
        Err(e) => Err(e),
    }
}

} // verus!
