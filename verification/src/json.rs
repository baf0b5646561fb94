//! The library's own JSON tree, and the trusted parser behind it.
//!
//! The response decoder only ever indexes arrays and reads strings, so the
//! tree keeps exactly that: arrays, strings, and the remaining JSON value
//! kinds as opaque markers. A trusted wrapper around serde_json parses bytes
//! and mirrors the parsed document into this tree.

use vstd::prelude::*;

verus! {

/// One JSON value as the decoder sees it. Numbers and objects are opaque
/// markers: the decoder's fixed navigation path only ever indexes arrays and
/// reads strings, and indexing a number or an object fails the same way with
/// or without their contents.
pub enum Json {
    Null,
    Bool(bool),
    Number,
    Object,
    Str(String),
    Arr(Vec<Json>),
}

/// The element at index `i`, when `j` is an array that is long enough.
pub open spec fn json_index(j: Json, i: int) -> Option<Json> {
    match j {
        Json::Arr(v) => if 0 <= i < v@.len() {
            Some(v@[i])
        } else {
            None
        },
        _ => None,
    }
}

/// The string carried by `j`, when `j` is a JSON string.
pub open spec fn json_str(j: Json) -> Option<String> {
    match j {
        Json::Str(s) => Some(s),
        _ => None,
    }
}

impl Json {
    /// Fallible array indexing: the element at `i` of an array, `None` on
    /// anything else or out of range.
    pub fn child(&self, i: usize) -> (r: Option<&Json>)
        ensures
            match r {
                Some(c) => json_index(*self, i as int) == Some(*c),
                None => json_index(*self, i as int) is None,
            },
    {
        match self {
            Json::Arr(v) => if i < v.len() {
                Some(&v[i])
            } else {
                None
            },
            _ => None,
        }
    }

    /// The carried string of a JSON string node, `None` on anything else.
    pub fn str_value(&self) -> (r: Option<&String>)
        ensures
            match r {
                Some(s) => json_str(*self) == Some(*s),
                None => json_str(*self) is None,
            },
    {
        match self {
            Json::Str(s) => Some(s),
            _ => None,
        }
    }
}

#[verifier::external_type_specification]
#[verifier::external_body]
pub struct ExValue(serde_json::Value);

/// What parsing the given bytes as one JSON document yields, mirrored into
/// the library's tree: `None` where the bytes are not valid JSON. The result
/// is a function of the bytes alone.
pub uninterp spec fn json_parse(bytes: Seq<u8>) -> Option<Json>;

/// Relies on serde_json::Value's public variants: mirrors a parsed document
/// into the library's own tree, collapsing numbers and objects to their
/// opaque markers.
#[verifier::external_body]
fn json_of_value(v: serde_json::Value) -> Json {
    match v {
        serde_json::Value::Null => Json::Null,
        serde_json::Value::Bool(b) => Json::Bool(b),
        serde_json::Value::Number(_) => Json::Number,
        serde_json::Value::String(s) => Json::Str(s),
        serde_json::Value::Array(a) => Json::Arr(a.into_iter().map(json_of_value).collect()),
        serde_json::Value::Object(_) => Json::Object,
    }
}

/// Relies on serde_json::from_slice: parses the bytes as one JSON document,
/// deterministically, failing exactly when they are not valid JSON.
#[verifier::external_body]
pub(crate) fn parse_json_bytes(b: &Vec<u8>) -> (r: Option<Json>)
    ensures
        r == json_parse(b@),
{
    match serde_json::from_slice::<serde_json::Value>(b.as_slice()) {
        Ok(v) => Some(json_of_value(v)),
        Err(_) => None,
    }
}

} // verus!
