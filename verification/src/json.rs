//! A plain-value model of JSON documents.

use serde_json::Value;
use vstd::prelude::*;

verus! {

/// An IEEE 754 binary64 number, held as its bit pattern.
#[derive(Clone, Copy, Debug, PartialEq, Eq, Structural)]
pub struct Float {
    pub bits: u64,
}

impl DeepView for Float {
    type V = Float;

    open spec fn deep_view(&self) -> Float {
        *self
    }
}

/// A JSON number, as a reader of an integer and a reader of a real see it.
#[derive(Clone, Copy, Debug)]
pub struct Number {
    /// The value, if the number is an integer that fits in `i64`.
    pub integer: Option<i64>,
    /// The nearest binary64 value.
    pub float: Float,
}

/// A JSON document.
#[derive(Debug)]
pub enum Json {
    Null,
    Bool(bool),
    Number(Number),
    String(String),
    Array(Vec<Json>),
    Object(Vec<(String, Json)>),
}

/// `serde_json::Value`, of which nothing is seen here but that it can be handed on.
#[verifier::external_type_specification]
#[verifier::external_body]
pub struct ExValue(serde_json::Value);

/// What a `serde_json::Value` holds.
pub uninterp spec fn value_model(value: Value) -> Json;

/// The document that `serde_json` reads from a text, or the words of its error.
pub uninterp spec fn json_text_value(text: Seq<char>) -> Result<Json, Seq<char>>;

/// Calls `serde_json::from_str` for a `serde_json::Value`. What it returns depends on the
/// text alone: the value read, or the error, of which the words are kept.
#[verifier::external_body]
fn value_from_text(text: &str) -> (r: Result<Value, String>)
    ensures
        match r {
            Ok(value) => json_text_value(text@) == Ok::<Json, Seq<char>>(value_model(value)),
            Err(message) => json_text_value(text@) == Err::<Json, Seq<char>>(message@),
        },
{
    serde_json::from_str::<Value>(text).map_err(|error| error.to_string())
}

/// Moves a `serde_json::Value` into a [`Json`], variant by variant. Of a number it keeps
/// what `Number::as_i64` and `Number::as_f64` return, the second as its bits; the members
/// of an object come in the order in which `serde_json::Map` hands them out.
#[verifier::external_body]
fn json_of_value(value: Value) -> (r: Json)
    ensures
        r == value_model(value),
{
    match value {
        Value::Null => Json::Null,
        Value::Bool(b) => Json::Bool(b),
        Value::Number(n) => Json::Number(Number {
            integer: n.as_i64(),
            float: Float { bits: n.as_f64().map_or(0, |x| x.to_bits()) },
        }),
        Value::String(s) => Json::String(s),
        Value::Array(a) => Json::Array(a.into_iter().map(json_of_value).collect()),
        Value::Object(o) => Json::Object(o.into_iter().map(|(k, v)| (k, json_of_value(v))).collect()),
    }
}

/// Reads a JSON document from a text.
pub fn json_from_text(text: &str) -> (r: Result<Json, String>)
    ensures
        match r {
            Ok(json) => json_text_value(text@) == Ok::<Json, Seq<char>>(json),
            Err(message) => json_text_value(text@) == Err::<Json, Seq<char>>(message@),
        },
{
    match value_from_text(text) {
        Ok(value) => Ok(json_of_value(value)),
        Err(message) => Err(message),
    }
}

} // verus!
