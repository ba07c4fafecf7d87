//! Reading single fields out of a JSON document.
//!
//! The device status endpoint answers with a JSON object. The library does
//! not parse JSON itself: one trusted wrapper asks serde_json for a named
//! field and reports what kind of value sits there, as plain text. Everything
//! done with the answer (defaults, the `on` alias, integer range checks) is
//! verified code in `api`.

use vstd::prelude::*;

verus! {

/// What a single field lookup in a JSON document can yield, as exec data.
pub enum JsonField {
    /// The document is valid JSON but not an object.
    NotObject,
    /// The document is an object without this key.
    Missing,
    /// The key holds a JSON string with these characters.
    Text(String),
    /// The key holds a JSON number, written out in serde_json's canonical
    /// text form (integers without a point, floats with one).
    Num(String),
    /// The key holds something else (null, bool, array, object).
    Other,
}

/// The same outcomes at the spec level, with `Invalid` for a document that
/// does not parse as JSON at all.
pub enum JsonFieldSpec {
    Invalid,
    NotObject,
    Missing,
    Text(Seq<char>),
    Num(Seq<char>),
    Other,
}

/// The spec-level reading of a wrapper result.
pub open spec fn json_field_view(r: Option<JsonField>) -> JsonFieldSpec {
    match r {
        None => JsonFieldSpec::Invalid,
        Some(JsonField::NotObject) => JsonFieldSpec::NotObject,
        Some(JsonField::Missing) => JsonFieldSpec::Missing,
        Some(JsonField::Text(s)) => JsonFieldSpec::Text(s@),
        Some(JsonField::Num(s)) => JsonFieldSpec::Num(s@),
        Some(JsonField::Other) => JsonFieldSpec::Other,
    }
}

/// What serde_json finds under `key` in `doc`: a fixed function of the two
/// texts alone.
pub uninterp spec fn json_field_of(doc: Seq<char>, key: Seq<char>) -> JsonFieldSpec;

/// Relies on serde_json::from_str::<Value> and serde_json::Map::get: parses
/// `doc` and reports the kind and text of the value under `key`. Numbers are
/// rendered with serde_json's own Display for Number.
#[verifier::external_body]
pub(crate) fn json_field(doc: &str, key: &str) -> (r: Option<JsonField>)
    ensures
        json_field_view(r) == json_field_of(doc@, key@),
{
    match serde_json::from_str::<serde_json::Value>(doc) {
        Err(_) => None,
        Ok(serde_json::Value::Object(map)) => Some(match map.get(key) {
            None => JsonField::Missing,
            Some(serde_json::Value::String(s)) => JsonField::Text(s.clone()),
            Some(serde_json::Value::Number(n)) => JsonField::Num(n.to_string()),
            Some(_) => JsonField::Other,
        }),
        Ok(_) => Some(JsonField::NotObject),
    }
}

} // verus!
