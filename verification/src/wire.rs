//! The boundary to the textual wire form.
//!
//! The `json` crate prints and parses the JSON text; the library works on
//! its own `JsonVal` on either side of that boundary.

use vstd::prelude::*;

use crate::json_model::{JsonSpec, JsonVal};

verus! {

#[verifier::external_type_specification]
#[verifier::external_body]
pub struct ExJsonValue(json::JsonValue);

/// The JSON text that the `json` crate prints for a structured value.
pub uninterp spec fn json_text(v: JsonSpec) -> Seq<char>;

/// What the `json` crate's parser makes of a text: the parsed document, or
/// nothing when the text is not valid JSON.
pub uninterp spec fn json_parsed(s: Seq<char>) -> Option<JsonSpec>;

/// Relies on `json::JsonValue::dump`: the printed text depends on the
/// printed value alone.
#[verifier::external_body]
pub fn dump_json(v: &JsonVal) -> (r: String)
    ensures
        r@ == json_text(v@),
{
    jv_to_outside(v).dump()
}

/// Relies on `json::parse`: the result models the parsed document, and
/// text that is not valid JSON is reported as `None`.
#[verifier::external_body]
pub fn parse_json(s: &str) -> (r: Option<JsonVal>)
    ensures
        match r {
            Some(v) => json_parsed(s@) == Some(v@),
            None => json_parsed(s@) is None,
        },
{
    match json::parse(s) {
        Ok(v) => Some(jv_from_outside(&v)),
        Err(_) => None,
    }
}

/// Rebuilds a library value as the `json` crate's own: one variant for one
/// variant, fields moved over; a number's literal text is re-read.
#[verifier::external_body]
fn jv_to_outside(v: &JsonVal) -> json::JsonValue {
    match v {
        JsonVal::Null => json::JsonValue::Null,
        JsonVal::Bool(b) => json::JsonValue::Boolean(*b),
        JsonVal::Num(s) => json::parse(s.as_str()).unwrap_or(json::JsonValue::Null),
        JsonVal::Str(s) => json::JsonValue::String(s.clone()),
        JsonVal::Arr(a) => json::JsonValue::Array(a.iter().map(jv_to_outside).collect()),
        JsonVal::Obj(m) => json::JsonValue::Object(
            m.iter().map(|(k, x)| (k.as_str(), jv_to_outside(x))).collect(),
        ),
    }
}

/// Reads the `json` crate's value as the library's own: one variant for one
/// variant, fields moved over; a number keeps its literal text.
#[verifier::external_body]
fn jv_from_outside(v: &json::JsonValue) -> JsonVal {
    match v {
        json::JsonValue::Null => JsonVal::Null,
        json::JsonValue::Boolean(b) => JsonVal::Bool(*b),
        json::JsonValue::Number(_) => JsonVal::Num(v.dump()),
        json::JsonValue::Short(s) => JsonVal::Str(s.as_str().to_owned()),
        json::JsonValue::String(s) => JsonVal::Str(s.clone()),
        json::JsonValue::Array(a) => JsonVal::Arr(a.iter().map(jv_from_outside).collect()),
        json::JsonValue::Object(o) => JsonVal::Obj(
            o.iter().map(|(k, x)| (k.to_owned(), jv_from_outside(x))).collect(),
        ),
    }
}

} // verus!
