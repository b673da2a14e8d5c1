//! Reading the API's answers: from JSON text to [`AuthToken`] and
//! [`Devices`].
//!
//! A document has the shape of a token or of a device when it is an object
//! that holds every field under its name with a value of the field's type.
//! Members beyond those are passed over. Nothing is ever filled in: one field
//! that is missing, of another type or out of its range, and the whole answer
//! is refused.

use crate::json::{
    as_flag, as_integer, as_items, as_text, bool_of, json_of, json_text, member, member_of, parse,
    text_of, Json,
};
use crate::model::{AuthToken, Device, DeviceModel, Devices, TokenModel};
use serde_json::Value;
use vstd::prelude::*;
use vstd::string::*;

verus! {

/// Why the body of an answer could not be read.
#[derive(Debug, Clone, Copy, PartialEq, Eq)]
pub enum PayloadError {
    /// The body was not accepted as JSON text.
    NotJson,
    /// The body is JSON, but not of the shape that was asked for.
    WrongShape,
}

/// The string under `key` in the object `j`.
pub open spec fn text_member(j: Json, key: Seq<char>) -> Option<Seq<char>> {
    match member_of(j, key) {
        Some(m) => text_of(m),
        None => None,
    }
}

/// The truth value under `key` in the object `j`.
pub open spec fn bool_member(j: Json, key: Seq<char>) -> Option<bool> {
    match member_of(j, key) {
        Some(m) => bool_of(m),
        None => None,
    }
}

/// The integer under `key` in the object `j`, if it lies in `low ..= high`.
pub open spec fn int_member(j: Json, key: Seq<char>, low: int, high: int) -> Option<int> {
    match member_of(j, key) {
        Some(Json::Integer(n)) => if low <= n <= high {
            Some(n)
        } else {
            None
        },
        _ => None,
    }
}

/// The token that the document `j` describes, if it has that shape.
pub open spec fn token_of(j: Json) -> Option<TokenModel> {
    match (
        text_member(j, "access_token"@),
        text_member(j, "token_type"@),
        int_member(j, "expires_in"@, i32::MIN as int, i32::MAX as int),
    ) {
        (Some(access_token), Some(token_type), Some(expires_in)) => Some(
            TokenModel { access_token, token_type, expires_in },
        ),
        _ => None,
    }
}

/// The device that the document `j` describes, if it has that shape. The
/// device's `kind` is the member that the document calls `type`.
pub open spec fn device_of(j: Json) -> Option<DeviceModel> {
    match (
        text_member(j, "id"@),
        bool_member(j, "is_active"@),
        bool_member(j, "is_private_session"@),
        bool_member(j, "is_restricted"@),
        text_member(j, "name"@),
        text_member(j, "type"@),
        int_member(j, "volume_percent"@, i16::MIN as int, i16::MAX as int),
    ) {
        (
            Some(id),
            Some(is_active),
            Some(is_private_session),
            Some(is_restricted),
            Some(name),
            Some(kind),
            Some(volume_percent),
        ) => Some(
            DeviceModel {
                id,
                is_active,
                is_private_session,
                is_restricted,
                name,
                kind,
                volume_percent,
            },
        ),
        _ => None,
    }
}

/// Every element of `items` has the shape of a device.
pub open spec fn all_devices(items: Seq<Json>) -> bool {
    forall|i: int| 0 <= i < items.len() ==> (#[trigger] device_of(items[i])) is Some
}

/// The device list that the document `j` describes: the elements of its
/// member `devices`, one device each, in the document's order.
pub open spec fn devices_of(j: Json) -> Option<Seq<DeviceModel>> {
    match member_of(j, "devices"@) {
        Some(Json::Array(items)) => if all_devices(items) {
            Some(items.map_values(|item: Json| device_of(item)->0))
        } else {
            None
        },
        _ => None,
    }
}

/// What reading a token from `bytes` comes to.
pub open spec fn token_in(bytes: Seq<u8>) -> Result<TokenModel, PayloadError> {
    match json_text(bytes) {
        None => Err(PayloadError::NotJson),
        Some(j) => match token_of(j) {
            Some(token) => Ok(token),
            None => Err(PayloadError::WrongShape),
        },
    }
}

/// What reading a device list from `bytes` comes to.
pub open spec fn devices_in(bytes: Seq<u8>) -> Result<Seq<DeviceModel>, PayloadError> {
    match json_text(bytes) {
        None => Err(PayloadError::NotJson),
        Some(j) => match devices_of(j) {
            Some(devices) => Ok(devices),
            None => Err(PayloadError::WrongShape),
        },
    }
}

fn text_field(v: &Value, key: &str) -> (r: Option<String>)
    ensures
        match r {
            Some(s) => text_member(json_of(*v), key@) == Some(s@),
            None => text_member(json_of(*v), key@) is None,
        },
{
    match member(v, key) {
        Some(m) => match as_text(m) {
            Some(s) => Some(String::from_str(s)),
            None => None,
        },
        None => None,
    }
}

fn bool_field(v: &Value, key: &str) -> (r: Option<bool>)
    ensures
        r == bool_member(json_of(*v), key@),
{
    match member(v, key) {
        Some(m) => as_flag(m),
        None => None,
    }
}

fn i64_field(v: &Value, key: &str) -> (r: Option<i64>)
    ensures
        match r {
            Some(n) => int_member(json_of(*v), key@, i64::MIN as int, i64::MAX as int) == Some(
                n as int,
            ),
            None => int_member(json_of(*v), key@, i64::MIN as int, i64::MAX as int) is None,
        },
{
    match member(v, key) {
        Some(m) => as_integer(m),
        None => None,
    }
}

fn i32_field(v: &Value, key: &str) -> (r: Option<i32>)
    ensures
        match r {
            Some(n) => int_member(json_of(*v), key@, i32::MIN as int, i32::MAX as int) == Some(
                n as int,
            ),
            None => int_member(json_of(*v), key@, i32::MIN as int, i32::MAX as int) is None,
        },
{
    match i64_field(v, key) {
        Some(n) => if -0x8000_0000 <= n && n <= 0x7fff_ffff {
            Some(n as i32)
        } else {
            None
        },
        None => None,
    }
}

fn i16_field(v: &Value, key: &str) -> (r: Option<i16>)
    ensures
        match r {
            Some(n) => int_member(json_of(*v), key@, i16::MIN as int, i16::MAX as int) == Some(
                n as int,
            ),
            None => int_member(json_of(*v), key@, i16::MIN as int, i16::MAX as int) is None,
        },
{
    match i64_field(v, key) {
        Some(n) => if -0x8000 <= n && n <= 0x7fff {
            Some(n as i16)
        } else {
            None
        },
        None => None,
    }
}

/// Reads a token from a parsed document: `Some` exactly when the document
/// has the shape of a token, and then with the document's own values.
pub fn token_from_json(v: &Value) -> (r: Option<AuthToken>)
    ensures
        match r {
            Some(token) => token_of(json_of(*v)) == Some(token@),
            None => token_of(json_of(*v)) is None,
        },
{
    let access_token = match text_field(v, "access_token") {
        Some(s) => s,
        None => return None,
    };
    let token_type = match text_field(v, "token_type") {
        Some(s) => s,
        None => return None,
    };
    let expires_in = match i32_field(v, "expires_in") {
        Some(n) => n,
        None => return None,
    };
    Some(AuthToken { access_token, token_type, expires_in })
}

/// Reads one device from a parsed document: `Some` exactly when the document
/// has the shape of a device, and then with the document's own values.
pub fn device_from_json(v: &Value) -> (r: Option<Device>)
    ensures
        match r {
            Some(device) => device_of(json_of(*v)) == Some(device@),
            None => device_of(json_of(*v)) is None,
        },
{
    let id = match text_field(v, "id") {
        Some(s) => s,
        None => return None,
    };
    let is_active = match bool_field(v, "is_active") {
        Some(b) => b,
        None => return None,
    };
    let is_private_session = match bool_field(v, "is_private_session") {
        Some(b) => b,
        None => return None,
    };
    let is_restricted = match bool_field(v, "is_restricted") {
        Some(b) => b,
        None => return None,
    };
    let name = match text_field(v, "name") {
        Some(s) => s,
        None => return None,
    };
    let kind = match text_field(v, "type") {
        Some(s) => s,
        None => return None,
    };
    let volume_percent = match i16_field(v, "volume_percent") {
        Some(n) => n,
        None => return None,
    };
    Some(
        Device { id, is_active, is_private_session, is_restricted, name, kind, volume_percent },
    )
}

/// Reads a device list from a parsed document: `Some` exactly when the
/// document is an object whose member `devices` is an array of devices, and
/// then with one device for each element, in the array's order.
pub fn devices_from_json(v: &Value) -> (r: Option<Devices>)
    ensures
        match r {
            Some(list) => devices_of(json_of(*v)) == Some(list@),
            None => devices_of(json_of(*v)) is None,
        },
{
    let items = match member(v, "devices") {
        Some(m) => match as_items(m) {
            Some(items) => items,
            None => return None,
        },
        None => return None,
    };
    let ghost documents = items@.map_values(|item: Value| json_of(item));
    let mut devices: Vec<Device> = Vec::new();
    let mut i: usize = 0;
    while i < items.len()
        invariant
            i <= items.len(),
            devices@.len() == i,
            documents == items@.map_values(|item: Value| json_of(item)),
            member_of(json_of(*v), "devices"@) == Some(Json::Array(documents)),
            forall|k: int| 0 <= k < i ==> (#[trigger] device_of(documents[k])) == Some(devices@[k]@),
        decreases items.len() - i,
    {
        match device_from_json(&items[i]) {
            Some(device) => devices.push(device),
            None => {
                assert(device_of(documents[i as int]) is None);
                return None;
            },
        }
        i += 1;
    }
    let list = Devices { devices };
    assert(list@ =~= documents.map_values(|item: Json| device_of(item)->0));
    Some(list)
}

/// Reads a token from the body of an answer. The body must be JSON text and
/// the document a token; which of the two failed is told apart.
pub fn decode_token(bytes: &[u8]) -> (r: Result<AuthToken, PayloadError>)
    ensures
        token_in(bytes@) == (match r {
            Ok(token) => Ok(token@),
            Err(e) => Err(e),
        }),
{
    match parse(bytes) {
        Ok(v) => match token_from_json(&v) {
            Some(token) => Ok(token),
            None => Err(PayloadError::WrongShape),
        },
        Err(_) => Err(PayloadError::NotJson),
    }
}

/// Reads a device list from the body of an answer. The body must be JSON
/// text and the document a device list; which of the two failed is told
/// apart.
pub fn decode_devices(bytes: &[u8]) -> (r: Result<Devices, PayloadError>)
    ensures
        devices_in(bytes@) == (match r {
            Ok(list) => Ok(list@),
            Err(e) => Err(e),
        }),
{
    match parse(bytes) {
        Ok(v) => match devices_from_json(&v) {
            Some(list) => Ok(list),
            None => Err(PayloadError::WrongShape),
        },
        Err(_) => Err(PayloadError::NotJson),
    }
}

} // verus!
