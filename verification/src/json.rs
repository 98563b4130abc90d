//! A plain-value model of a parsed JSON document, and the trusted parser
//! behind it.
//!
//! The wire protocol's frames are JSON text.  Parsing the text itself is the
//! job of an outside crate; everything that *interprets* the parsed document
//! (envelope checks, dispatch, payload schemas) is verified code working on
//! [`JsonVal`].

use vstd::prelude::*;
use crate::strings::str_eq;

verus! {

/// A parsed JSON document, held as plain values.
///
/// A JSON number that has an exact `i64` representation appears as `Int`;
/// any other number (floating point, or unsigned above `i64::MAX`) appears
/// as `NonInt`, which every schema of the protocol rejects.
#[derive(Debug, PartialEq)]
pub enum JsonVal {
    Null,
    Bool(bool),
    Int(i64),
    /// A number with no exact `i64` representation.
    NonInt,
    Str(String),
    Arr(Vec<JsonVal>),
    Obj(Vec<(String, JsonVal)>),
}

#[verifier::external_type_specification]
#[verifier::external_body]
pub struct ExValue(serde_json::Value);

/// What parsing a given text yields: the same text always yields the same
/// document (or the same failure), in every process and on every machine.
pub uninterp spec fn json_of(t: Seq<char>) -> Option<JsonVal>;

/// Relies on `serde_json::Value`: rebuilds each node of a parsed document as
/// the library's value type, one arm per variant; a number is taken through
/// `Number::as_i64`, which yields the exact value or nothing.
#[verifier::external_body]
fn from_serde(v: serde_json::Value) -> JsonVal {
    match v {
        serde_json::Value::Null => JsonVal::Null,
        serde_json::Value::Bool(b) => JsonVal::Bool(b),
        serde_json::Value::Number(n) => match n.as_i64() {
            Some(i) => JsonVal::Int(i),
            None => JsonVal::NonInt,
        },
        serde_json::Value::String(s) => JsonVal::Str(s),
        serde_json::Value::Array(a) => JsonVal::Arr(a.into_iter().map(from_serde).collect()),
        serde_json::Value::Object(o) => JsonVal::Obj(
            o.into_iter().map(|(k, x)| (k, from_serde(x))).collect(),
        ),
    }
}

/// Relies on `serde_json::from_str`: parses exactly one complete JSON
/// document from the text, or fails.  The outcome depends on the text alone,
/// which is what lets it carry the name [`json_of`].
#[verifier::external_body]
pub fn parse_json(text: &str) -> (r: Option<JsonVal>)
    ensures
        r == json_of(text@),
{
    match serde_json::from_str::<serde_json::Value>(text) {
        Ok(v) => Some(from_serde(v)),
        Err(_) => None,
    }
}

/// The value of the first field with the given key, if any.
pub open spec fn spec_obj_get(fs: Seq<(String, JsonVal)>, key: Seq<char>) -> Option<JsonVal>
    decreases fs.len(),
{
    if fs.len() == 0 {
        None
    } else if fs[0].0@ == key {
        Some(fs[0].1)
    } else {
        spec_obj_get(fs.drop_first(), key)
    }
}

/// Looks a key up among an object's fields.
pub fn obj_get<'a>(fs: &'a Vec<(String, JsonVal)>, key: &str) -> (r: Option<&'a JsonVal>)
    ensures
        match r {
            Some(v) => spec_obj_get(fs@, key@) == Some(*v),
            None => spec_obj_get(fs@, key@) is None,
        },
{
    let mut i: usize = 0;
    assert(fs@.skip(0) =~= fs@);
    while i < fs.len()
        invariant
            i <= fs.len(),
            spec_obj_get(fs@, key@) == spec_obj_get(fs@.skip(i as int), key@),
        decreases fs.len() - i,
    {
        assert(fs@.skip(i as int)[0] == fs@[i as int]);
        if str_eq(fs[i].0.as_str(), key) {
            return Some(&fs[i].1);
        }
        assert(fs@.skip(i as int).drop_first() =~= fs@.skip(i + 1));
        i = i + 1;
    }
    assert(fs@.skip(i as int).len() == 0);
    None
}

/// Whether an `i64` value also fits in `i32`.
pub open spec fn in_i32_range(n: i64) -> bool {
    i32::MIN <= n <= i32::MAX
}

/// A required string field: present and a string, or nothing.
pub open spec fn spec_req_str(fs: Seq<(String, JsonVal)>, k: Seq<char>) -> Option<String> {
    match spec_obj_get(fs, k) {
        Some(JsonVal::Str(s)) => Some(s),
        _ => None,
    }
}

/// A required `i64` field: present and an exact integer, or nothing.
pub open spec fn spec_req_i64(fs: Seq<(String, JsonVal)>, k: Seq<char>) -> Option<i64> {
    match spec_obj_get(fs, k) {
        Some(JsonVal::Int(n)) => Some(n),
        _ => None,
    }
}

/// A required `i32` field: present, an exact integer, and in range.
pub open spec fn spec_req_i32(fs: Seq<(String, JsonVal)>, k: Seq<char>) -> Option<i32> {
    match spec_obj_get(fs, k) {
        Some(JsonVal::Int(n)) => if in_i32_range(n) {
            Some(n as i32)
        } else {
            None
        },
        _ => None,
    }
}

/// An optional string field: a missing or null field is an absent value; a
/// present field of any other type than string is a schema error (outer
/// `None`).
pub open spec fn spec_opt_str(fs: Seq<(String, JsonVal)>, k: Seq<char>) -> Option<Option<String>> {
    match spec_obj_get(fs, k) {
        None => Some(None),
        Some(JsonVal::Null) => Some(None),
        Some(JsonVal::Str(s)) => Some(Some(s)),
        Some(_) => None,
    }
}

/// An optional `i64` field, with the same shape as [`spec_opt_str`].
pub open spec fn spec_opt_i64(fs: Seq<(String, JsonVal)>, k: Seq<char>) -> Option<Option<i64>> {
    match spec_obj_get(fs, k) {
        None => Some(None),
        Some(JsonVal::Null) => Some(None),
        Some(JsonVal::Int(n)) => Some(Some(n)),
        Some(_) => None,
    }
}

/// An optional `i32` field; an integer out of `i32` range is a schema error.
pub open spec fn spec_opt_i32(fs: Seq<(String, JsonVal)>, k: Seq<char>) -> Option<Option<i32>> {
    match spec_obj_get(fs, k) {
        None => Some(None),
        Some(JsonVal::Null) => Some(None),
        Some(JsonVal::Int(n)) => if in_i32_range(n) {
            Some(Some(n as i32))
        } else {
            None
        },
        Some(_) => None,
    }
}

/// Reads a required string field.
pub fn req_str(fs: &Vec<(String, JsonVal)>, k: &str) -> (r: Option<String>)
    ensures
        r == spec_req_str(fs@, k@),
{
    match obj_get(fs, k) {
        Some(JsonVal::Str(s)) => Some(s.clone()),
        _ => None,
    }
}

/// Reads a required `i64` field.
pub fn req_i64(fs: &Vec<(String, JsonVal)>, k: &str) -> (r: Option<i64>)
    ensures
        r == spec_req_i64(fs@, k@),
{
    match obj_get(fs, k) {
        Some(JsonVal::Int(n)) => Some(*n),
        _ => None,
    }
}

/// Reads a required `i32` field.
pub fn req_i32(fs: &Vec<(String, JsonVal)>, k: &str) -> (r: Option<i32>)
    ensures
        r == spec_req_i32(fs@, k@),
{
    match obj_get(fs, k) {
        Some(JsonVal::Int(n)) => {
            if i32::MIN as i64 <= *n && *n <= i32::MAX as i64 {
                Some(*n as i32)
            } else {
                None
            }
        },
        _ => None,
    }
}

/// Reads an optional string field.
pub fn opt_str(fs: &Vec<(String, JsonVal)>, k: &str) -> (r: Option<Option<String>>)
    ensures
        r == spec_opt_str(fs@, k@),
{
    match obj_get(fs, k) {
        None => Some(None),
        Some(JsonVal::Null) => Some(None),
        Some(JsonVal::Str(s)) => Some(Some(s.clone())),
        Some(_) => None,
    }
}

/// Reads an optional `i64` field.
pub fn opt_i64(fs: &Vec<(String, JsonVal)>, k: &str) -> (r: Option<Option<i64>>)
    ensures
        r == spec_opt_i64(fs@, k@),
{
    match obj_get(fs, k) {
        None => Some(None),
        Some(JsonVal::Null) => Some(None),
        Some(JsonVal::Int(n)) => Some(Some(*n)),
        Some(_) => None,
    }
}

/// Reads an optional `i32` field.
pub fn opt_i32(fs: &Vec<(String, JsonVal)>, k: &str) -> (r: Option<Option<i32>>)
    ensures
        r == spec_opt_i32(fs@, k@),
{
    match obj_get(fs, k) {
        None => Some(None),
        Some(JsonVal::Null) => Some(None),
        Some(JsonVal::Int(n)) => {
            if i32::MIN as i64 <= *n && *n <= i32::MAX as i64 {
                Some(Some(*n as i32))
            } else {
                None
            }
        },
        Some(_) => None,
    }
}

} // verus!
