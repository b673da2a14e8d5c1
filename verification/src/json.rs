//! The boundary to `serde_json`: what a parsed JSON value holds, stated as a
//! mathematical model, and the few calls through which the rest of the crate
//! reads one.
//!
//! Everything in this file that carries `external_body` is believed, not
//! proved. Each such item says above it which `serde_json` function it stands
//! for and what it claims of it.

use serde_json::Value;
use vstd::prelude::*;

verus! {

/// `serde_json::Value`, a parsed JSON document. Its inside is not visible to
/// the verifier; [`json_of`] names what it holds.
#[verifier::external_type_specification]
#[verifier::external_body]
pub struct ExValue(serde_json::Value);

/// `serde_json::Error`, the reason why a text was not accepted.
#[verifier::external_type_specification]
#[verifier::external_body]
pub struct ExJsonError(serde_json::Error);

/// What a JSON value holds.
///
/// A number is an `Integer` where `serde_json` holds it as a 64-bit integer,
/// signed or unsigned. Every other number is a `Fraction`, whose value this
/// crate never reads.
pub enum Json {
    Null,
    Bool(bool),
    Integer(int),
    Fraction,
    Text(Seq<char>),
    Array(Seq<Json>),
    Object(Map<Seq<char>, Json>),
}

/// The member `key` of `j`: present when `j` is an object that has that key.
pub open spec fn member_of(j: Json, key: Seq<char>) -> Option<Json> {
    match j {
        Json::Object(members) => if members.contains_key(key) {
            Some(members[key])
        } else {
            None
        },
        _ => None,
    }
}

/// The string that `j` is, if it is one.
pub open spec fn text_of(j: Json) -> Option<Seq<char>> {
    match j {
        Json::Text(s) => Some(s),
        _ => None,
    }
}

/// The integer that `j` is, if it is one that fits into an `i64`.
pub open spec fn i64_of(j: Json) -> Option<i64> {
    match j {
        Json::Integer(n) => if i64::MIN <= n <= i64::MAX {
            Some(n as i64)
        } else {
            None
        },
        _ => None,
    }
}

/// The truth value that `j` is, if it is one.
pub open spec fn bool_of(j: Json) -> Option<bool> {
    match j {
        Json::Bool(b) => Some(b),
        _ => None,
    }
}

/// The elements of `j`, in order, if it is an array.
pub open spec fn items_of(j: Json) -> Option<Seq<Json>> {
    match j {
        Json::Array(items) => Some(items),
        _ => None,
    }
}

/// What the value `v` holds.
pub uninterp spec fn json_of(v: serde_json::Value) -> Json;

/// What `serde_json::from_slice` makes of `bytes` when asked for a `Value`:
/// the document, or `None` where it reports an error. It reports one for
/// bytes that are not a single JSON text, and for JSON that it declines to
/// hold, such as a document nested deeper than its limit.
pub uninterp spec fn json_text(bytes: Seq<u8>) -> Option<Json>;

/// `serde_json::from_slice::<Value>`. The result depends on the bytes alone:
/// `Ok` with the document that [`json_text`] names, `Err` where it names none.
#[verifier::external_body]
pub(crate) fn parse(bytes: &[u8]) -> (r: Result<Value, serde_json::Error>)
    ensures
        match r {
            Ok(v) => json_text(bytes@) == Some(json_of(v)),
            Err(_) => json_text(bytes@) is None,
        },
{
    serde_json::from_slice::<Value>(bytes)
}

/// `Value::get` with a string index: the member under `key` when `v` is an
/// object that has it, `None` for every other value and every other key.
#[verifier::external_body]
pub(crate) fn member<'a>(v: &'a Value, key: &str) -> (r: Option<&'a Value>)
    ensures
        match r {
            Some(m) => member_of(json_of(*v), key@) == Some(json_of(*m)),
            None => member_of(json_of(*v), key@) is None,
        },
{
    v.get(key)
}

/// `Value::as_str`: the string when `v` is one, else `None`.
#[verifier::external_body]
pub(crate) fn as_text<'a>(v: &'a Value) -> (r: Option<&'a str>)
    ensures
        match r {
            Some(s) => text_of(json_of(*v)) == Some(s@),
            None => text_of(json_of(*v)) is None,
        },
{
    v.as_str()
}

/// `Value::as_i64`: the number when `v` is an integer within `i64`, else
/// `None` (also for an integer beyond `i64::MAX` and for every fraction).
#[verifier::external_body]
pub(crate) fn as_integer(v: &Value) -> (r: Option<i64>)
    ensures
        r == i64_of(json_of(*v)),
{
    v.as_i64()
}

/// `Value::as_bool`: the truth value when `v` is one, else `None`.
#[verifier::external_body]
pub(crate) fn as_flag(v: &Value) -> (r: Option<bool>)
    ensures
        r == bool_of(json_of(*v)),
{
    v.as_bool()
}

/// `Value::as_array`: the vector of elements when `v` is an array, else
/// `None`. The vector holds the array's elements in the array's order.
#[verifier::external_body]
pub(crate) fn as_items<'a>(v: &'a Value) -> (r: Option<&'a Vec<Value>>)
    ensures
        match r {
            Some(items) => items_of(json_of(*v)) == Some(
                items@.map_values(|item: Value| json_of(item)),
            ),
            None => items_of(json_of(*v)) is None,
        },
{
    v.as_array()
}

} // verus!
