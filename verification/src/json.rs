//! A plain model of a JSON document, and the parser behind it.

use vstd::prelude::*;

verus! {

/// A JSON value, reduced to what the device resolver reads: the shape of
/// the tree, the text of strings, and the members of objects in the order
/// the parser hands them out. The digits of a number are not kept.
#[derive(Debug, PartialEq, Eq)]
pub enum Json {
    Null,
    Bool(bool),
    Number,
    Text(String),
    Array(Vec<Json>),
    Object(Vec<(String, Json)>),
}

/// `serde_json::Value`, carried from the parser to the conversion as it
/// is: nothing inside it is seen here.
#[verifier::external_type_specification]
#[verifier::external_body]
pub struct ExValue(serde_json::Value);

/// What `serde_json::from_slice` makes of the given bytes: the document
/// that it reads from them, as a `Json`, or `None` where it reports an
/// error.
pub uninterp spec fn parsed_json(bytes: Seq<u8>) -> Option<Json>;

/// What a `serde_json::Value` holds, as a `Json`.
pub uninterp spec fn json_model(value: serde_json::Value) -> Json;

/// Calls `serde_json::from_slice` for a `serde_json::Value` and drops the
/// error. Whether a document comes back, and what it holds, depends on the
/// bytes alone; both are only named here.
#[verifier::external_body]
fn parse_value(bytes: &[u8]) -> (parsed: Option<serde_json::Value>)
    ensures
        match parsed {
            Some(value) => parsed_json(bytes@) == Some(json_model(value)),
            None => parsed_json(bytes@) is None,
        },
{
    serde_json::from_slice::<serde_json::Value>(bytes).ok()
}

/// Moves the contents of a `serde_json::Value` into a `Json`, variant by
/// variant and member by member. The result is the named model of the
/// value; nothing else is claimed of it.
#[verifier::external_body]
fn json_from_value(value: serde_json::Value) -> (json: Json)
    ensures
        json == json_model(value),
{
    match value {
        serde_json::Value::Null => Json::Null,
        serde_json::Value::Bool(b) => Json::Bool(b),
        serde_json::Value::Number(_) => Json::Number,
        serde_json::Value::String(s) => Json::Text(s),
        serde_json::Value::Array(a) => Json::Array(a.into_iter().map(json_from_value).collect()),
        serde_json::Value::Object(o) => Json::Object(
            o.into_iter().map(|(k, v)| (k, json_from_value(v))).collect(),
        ),
    }
}

/// Parses one JSON document.
pub fn parse_json(bytes: &[u8]) -> (parsed: Option<Json>)
    ensures
        parsed == parsed_json(bytes@),
{
    match parse_value(bytes) {
        Some(value) => Some(json_from_value(value)),
        None => None,
    }
}

} // verus!
