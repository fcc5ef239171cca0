//! A mathematical model of JSON documents, and the `serde_json` calls that
//! read them.

use vstd::prelude::*;

verus! {

/// A JSON document as the contracts see it. Integers that `serde_json` holds
/// exactly are `Int`; every other number is `Float`, whose value no contract
/// reads.
pub enum Json {
    Null,
    Bool(bool),
    Int(int),
    Float,
    Str(Seq<char>),
    Array(Seq<Json>),
    Object(Map<Seq<char>, Json>),
}

#[verifier::external_type_specification]
#[verifier::external_body]
pub struct ExValue(serde_json::Value);

/// What a parsed `serde_json::Value` holds.
pub uninterp spec fn json_view(v: serde_json::Value) -> Json;

/// The document that `serde_json` reads from a text, if the text is JSON.
pub uninterp spec fn parsed_json(text: Seq<u8>) -> Option<Json>;

/// The member `key` of an object; `None` for a missing key or a non-object.
pub open spec fn member(j: Json, key: Seq<char>) -> Option<Json> {
    match j {
        Json::Object(m) => if m.contains_key(key) { Some(m[key]) } else { None },
        _ => None,
    }
}

/// A member reached through a chain of keys.
pub open spec fn member_at(j: Option<Json>, key: Seq<char>) -> Option<Json> {
    match j {
        Some(v) => member(v, key),
        None => None,
    }
}

/// The integer a value holds, where it fits in an `i64`.
pub open spec fn as_i64_spec(j: Option<Json>) -> Option<i64> {
    match j {
        Some(Json::Int(n)) => if i64::MIN <= n <= i64::MAX { Some(n as i64) } else { None },
        _ => None,
    }
}

/// The boolean a value holds.
pub open spec fn as_bool_spec(j: Option<Json>) -> Option<bool> {
    match j {
        Some(Json::Bool(b)) => Some(b),
        _ => None,
    }
}

/// The string a value holds.
pub open spec fn as_str_spec(j: Option<Json>) -> Option<Seq<char>> {
    match j {
        Some(Json::Str(s)) => Some(s),
        _ => None,
    }
}

/// Relies on `serde_json::from_slice::<Value>`: parsing depends on the bytes
/// alone.
#[verifier::external_body]
pub fn parse_json(text: &[u8]) -> (r: Option<serde_json::Value>)
    ensures
        match r {
            Some(v) => parsed_json(text@) == Some(json_view(v)),
            None => parsed_json(text@) is None,
        },
{
    serde_json::from_slice::<serde_json::Value>(text).ok()
}

/// Relies on `serde_json::Value::get` with a string key: the member of an
/// object, `None` for any other value or a missing key.
#[verifier::external_body]
pub fn json_member<'a>(v: &'a serde_json::Value, key: &str) -> (r: Option<&'a serde_json::Value>)
    ensures
        match r {
            Some(m) => member(json_view(*v), key@) == Some(json_view(*m)),
            None => member(json_view(*v), key@) is None,
        },
{
    v.get(key)
}

/// Relies on `serde_json::Value::get` with an index: the element of an array,
/// `None` for any other value or an index past the end.
#[verifier::external_body]
pub fn json_element<'a>(v: &'a serde_json::Value, i: usize) -> (r: Option<&'a serde_json::Value>)
    ensures
        match json_view(*v) {
            Json::Array(items) => if i < items.len() {
                r is Some && json_view(*r->0) == items[i as int]
            } else {
                r is None
            },
            _ => r is None,
        },
{
    v.get(i)
}

/// Relies on `serde_json::Value::as_array`: the length of an array, `None`
/// for any other value.
#[verifier::external_body]
pub fn json_array_len(v: &serde_json::Value) -> (r: Option<usize>)
    ensures
        match json_view(*v) {
            Json::Array(items) => r is Some && r->0 == items.len(),
            _ => r is None,
        },
{
    match v.as_array() {
        Some(a) => Some(a.len()),
        None => None,
    }
}

/// `serde_json::Value::as_i64`: the integer of a number that fits in `i64`.
pub assume_specification[ serde_json::Value::as_i64 ](v: &serde_json::Value) -> (r: Option<i64>)
    ensures
        r == as_i64_spec(Some(json_view(*v))),
;

/// `serde_json::Value::as_bool`: the value of a boolean.
pub assume_specification[ serde_json::Value::as_bool ](v: &serde_json::Value) -> (r: Option<bool>)
    ensures
        r == as_bool_spec(Some(json_view(*v))),
;

/// `serde_json::Value::as_str`: the text of a string.
pub assume_specification[ serde_json::Value::as_str ](v: &serde_json::Value) -> (r: Option<&str>)
    ensures
        match r {
            Some(s) => as_str_spec(Some(json_view(*v))) == Some(s@),
            None => as_str_spec(Some(json_view(*v))) is None,
        },
;

} // verus!
