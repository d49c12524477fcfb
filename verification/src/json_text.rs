//! JSON values and the texts that spell them.

use serde_json::Value;
use vstd::prelude::*;
use crate::json::{Json, JsonModel, JsonNumber, JsonObject};

verus! {

/// The JSON value of `serde_json`.
#[verifier::external_type_specification]
#[verifier::external_body]
pub struct ExSerdeValue(Value);

/// The `serde_json` value with the same content.
#[verifier::external_body]
fn serde_value(j: &Json) -> (r: Value) {
    match j {
        Json::Null => Value::Null,
        Json::Bool(b) => Value::Bool(*b),
        Json::Number(JsonNumber::PosInt(n)) => Value::from(*n),
        Json::Number(JsonNumber::NegInt(n)) => Value::from(*n),
        Json::Number(JsonNumber::Float(s)) => serde_json::from_str(s).unwrap_or_default(),
        Json::Text(s) => Value::String(s.clone()),
        Json::Array(v) => Value::Array(v.iter().map(serde_value).collect()),
        Json::Object(o) => Value::Object(
            o.entries.iter().map(|e| (e.0.clone(), serde_value(&e.1))).collect(),
        ),
    }
}

/// `serde_json`'s compact text of a value.
pub uninterp spec fn compact_text(j: JsonModel) -> Seq<char>;

/// `serde_json::Value::to_string`: the compact text of a value, named by
/// `compact_text`. Members are written in the order of their names, so that the
/// text depends on the content alone.
#[verifier::external_body]
pub(crate) fn to_compact_text(j: &Json) -> (r: String)
    ensures
        r@ == compact_text(j@),
{
    serde_value(j).to_string()
}

/// The value with the same content as one of `serde_json`. A number that is
/// not an integer of 64 bits keeps its text.
#[verifier::external_body]
fn own_value(v: Value) -> (r: Json) {
    match v {
        Value::Null => Json::Null,
        Value::Bool(b) => Json::Bool(b),
        Value::Number(n) => match (n.as_u64(), n.as_i64()) {
            (Some(p), _) => Json::Number(JsonNumber::PosInt(p)),
            (_, Some(m)) => Json::Number(JsonNumber::NegInt(m)),
            _ => Json::Number(JsonNumber::Float(n.to_string())),
        },
        Value::String(s) => Json::Text(s),
        Value::Array(a) => Json::Array(a.into_iter().map(own_value).collect()),
        Value::Object(o) => Json::Object(
            JsonObject { entries: o.into_iter().map(|(k, v)| (k, own_value(v))).collect() },
        ),
    }
}

/// The value that a text spells, as `serde_json` reads it.
pub uninterp spec fn json_parse(s: Seq<char>) -> Option<JsonModel>;

pub open spec fn opt_json(o: Option<Json>) -> Option<JsonModel> {
    match o {
        Some(j) => Some(j@),
        None => None,
    }
}

/// `serde_json::from_str` to a value, named by `json_parse`; nothing where the
/// text is no JSON.
#[verifier::external_body]
pub(crate) fn parse_text(s: &str) -> (r: Option<Json>)
    ensures
        opt_json(r) == json_parse(s@),
{
    serde_json::from_str::<Value>(s).ok().map(own_value)
}

/// `serde_json`'s indented text of a value.
pub uninterp spec fn pretty_text(j: JsonModel) -> Seq<char>;

/// `serde_json::to_string_pretty` on a value, named by `pretty_text`. On a
/// value it does not fail.
#[verifier::external_body]
pub(crate) fn to_pretty_text(j: &Json) -> (r: String)
    ensures
        r@ == pretty_text(j@),
{
    serde_json::to_string_pretty(&serde_value(j)).unwrap_or_default()
}

/// `serde_json::to_string` on a text: the JSON string literal that spells it.
pub uninterp spec fn json_literal(s: Seq<char>) -> Seq<char>;

/// A character that a JSON string literal holds as it is.
pub open spec fn unescaped(c: char) -> bool {
    c as int >= 0x20 && c != '"' && c != '\\'
}

/// `serde_json::to_string` on a text, named by `json_literal`. A text without
/// control characters, quotation marks and backslashes is only put between
/// quotation marks; how the others are escaped is left to the name.
#[verifier::external_body]
pub(crate) fn json_string(s: &str) -> (r: String)
    ensures
        r@ == json_literal(s@),
        (forall|i: int| 0 <= i < s@.len() ==> unescaped(#[trigger] s@[i])) ==> r@ == seq!['"'] + s@
            + seq!['"'],
{
    match serde_json::to_string(s) {
        Ok(literal) => literal,
        Err(_) => format!("\"{s}\""),
    }
}

} // verus!
