//! The JSON values that cross the boundary, and the text codec for them.
use vstd::prelude::*;

verus! {

/// A JSON value as the library reads it. Numbers that fit an `i64` are held
/// as integers; every other number is kept as its JSON text.
#[derive(Debug, PartialEq)]
pub enum Json {
    Null,
    Bool(bool),
    Int(i64),
    OtherNumber(String),
    Str(String),
    Array(Vec<Json>),
    Object(Vec<(String, Json)>),
}

/// The value of the first member of `fields` named `key`, if there is one.
pub open spec fn first_field(fields: Seq<(String, Json)>, key: Seq<char>) -> Option<Json>
    decreases fields.len(),
{
    if fields.len() == 0 {
        None
    } else if fields[0].0@ == key {
        Some(fields[0].1)
    } else {
        first_field(fields.drop_first(), key)
    }
}

/// serde_json's parsed value, carried only through the conversions below.
#[verifier::external_type_specification]
#[verifier::external_body]
pub struct ExValue(serde_json::Value);

/// What parsing the text `text` gives: a value, or the parser's diagnostic.
pub uninterp spec fn parse_outcome(text: Seq<char>) -> Result<Json, Seq<char>>;

/// The JSON text that encodes `value`.
pub uninterp spec fn text_of(value: Json) -> Seq<char>;

/// Relies on serde_json::from_str: reads JSON text into a value, or reports
/// why the text is not JSON. The outcome depends on the text alone.
#[verifier::external_body]
pub fn parse_json(text: &str) -> (r: Result<Json, String>)
    ensures
        match r {
            Ok(v) => parse_outcome(text@) == Ok::<Json, Seq<char>>(v),
            Err(e) => parse_outcome(text@) == Err::<Json, Seq<char>>(e@),
        },
{
    match serde_json::from_str::<serde_json::Value>(text) {
        Ok(v) => Ok(from_value(v)),
        Err(e) => Err(e.to_string()),
    }
}

/// Relies on serde_json::to_string: writes a value as JSON text, members of
/// an object in the order given. The text depends on the value alone.
#[verifier::external_body]
pub fn encode_json(value: &Json) -> (r: String)
    ensures
        r@ == text_of(*value),
{
    serde_json::to_string(&into_value(value)).unwrap_or_default()
}

/// Relies on serde_json::Value's variants and Number::as_i64: converts a
/// parsed value into the library's representation, one variant for another.
#[verifier::external_body]
fn from_value(v: serde_json::Value) -> Json {
    match v {
        serde_json::Value::Null => Json::Null,
        serde_json::Value::Bool(b) => Json::Bool(b),
        serde_json::Value::Number(n) => match n.as_i64() {
            Some(i) => Json::Int(i),
            None => Json::OtherNumber(n.to_string()),
        },
        serde_json::Value::String(s) => Json::Str(s),
        serde_json::Value::Array(a) => Json::Array(a.into_iter().map(from_value).collect()),
        serde_json::Value::Object(m) => Json::Object(m.into_iter().map(|(k, v)| (k, from_value(v))).collect()),
    }
}

/// Relies on serde_json::Value's variants and serde_json::from_str for a
/// number kept as text: converts the library's representation back.
#[verifier::external_body]
fn into_value(j: &Json) -> serde_json::Value {
    match j {
        Json::Null => serde_json::Value::Null,
        Json::Bool(b) => serde_json::Value::Bool(*b),
        Json::Int(i) => serde_json::Value::from(*i),
        Json::OtherNumber(t) => serde_json::from_str(t).unwrap_or(serde_json::Value::Null),
        Json::Str(s) => serde_json::Value::String(s.clone()),
        Json::Array(a) => serde_json::Value::Array(a.iter().map(into_value).collect()),
        Json::Object(m) => serde_json::Value::Object(m.iter().map(|(k, v)| (k.clone(), into_value(v))).collect()),
    }
}

} // verus!
