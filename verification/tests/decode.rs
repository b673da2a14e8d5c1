use serde_json::{Number, Value};
use spotifyd_ctl::decode::{
    decode_devices, decode_token, device_from_json, devices_from_json, token_from_json,
    PayloadError,
};
use spotifyd_ctl::model::{AuthToken, Device, Devices};

fn kitchen() -> Device {
    Device {
        id: "d1".to_string(),
        is_active: true,
        is_private_session: false,
        is_restricted: false,
        name: "Kitchen".to_string(),
        kind: "Speaker".to_string(),
        volume_percent: 50,
    }
}

const KITCHEN: &str = r#"{"id":"d1","is_active":true,"is_private_session":false,"is_restricted":false,"name":"Kitchen","type":"Speaker","volume_percent":50}"#;

const PHONE: &str = r#"{"id":"d2","is_active":false,"is_private_session":true,"is_restricted":true,"name":"Phone","type":"Smartphone","volume_percent":0}"#;

fn phone() -> Device {
    Device {
        id: "d2".to_string(),
        is_active: false,
        is_private_session: true,
        is_restricted: true,
        name: "Phone".to_string(),
        kind: "Smartphone".to_string(),
        volume_percent: 0,
    }
}

#[test]
fn token_with_all_three_fields_is_read_exactly() {
    let body = br#"{"access_token":"T","token_type":"Bearer","expires_in":3600}"#;
    assert_eq!(
        decode_token(body),
        Ok(AuthToken {
            access_token: "T".to_string(),
            token_type: "Bearer".to_string(),
            expires_in: 3600,
        })
    );
}

#[test]
fn token_fields_may_come_in_any_order_and_with_space() {
    let body = b" {\n \"expires_in\" : 1,\n \"token_type\" : \"\",\n \"access_token\" : \"a b\"\n }\n";
    assert_eq!(
        decode_token(body),
        Ok(AuthToken { access_token: "a b".to_string(), token_type: String::new(), expires_in: 1 })
    );
}

#[test]
fn token_members_beyond_the_three_are_passed_over() {
    let body = br#"{"scope":"x","access_token":"T","token_type":"Bearer","expires_in":60,"more":[1,2.5,null]}"#;
    assert_eq!(
        decode_token(body),
        Ok(AuthToken {
            access_token: "T".to_string(),
            token_type: "Bearer".to_string(),
            expires_in: 60,
        })
    );
}

#[test]
fn token_escapes_are_resolved() {
    let body = r#"{"access_token":"a\"b\u00e9\nü","token_type":"Bearer","expires_in":0}"#;
    let token = decode_token(body.as_bytes()).unwrap();
    assert_eq!(token.access_token, "a\"b\u{e9}\n\u{fc}");
}

#[test]
fn token_without_access_token_is_refused() {
    let body = br#"{"token_type":"Bearer","expires_in":3600}"#;
    assert_eq!(decode_token(body), Err(PayloadError::WrongShape));
}

#[test]
fn token_without_token_type_is_refused() {
    let body = br#"{"access_token":"T","expires_in":3600}"#;
    assert_eq!(decode_token(body), Err(PayloadError::WrongShape));
}

#[test]
fn token_without_expires_in_is_refused() {
    let body = br#"{"access_token":"T","token_type":"Bearer"}"#;
    assert_eq!(decode_token(body), Err(PayloadError::WrongShape));
}

#[test]
fn token_with_a_null_field_is_refused() {
    let body = br#"{"access_token":null,"token_type":"Bearer","expires_in":3600}"#;
    assert_eq!(decode_token(body), Err(PayloadError::WrongShape));
}

#[test]
fn token_with_a_number_for_a_string_is_refused() {
    let body = br#"{"access_token":7,"token_type":"Bearer","expires_in":3600}"#;
    assert_eq!(decode_token(body), Err(PayloadError::WrongShape));
}

#[test]
fn token_with_a_string_for_the_number_is_refused() {
    let body = br#"{"access_token":"T","token_type":"Bearer","expires_in":"3600"}"#;
    assert_eq!(decode_token(body), Err(PayloadError::WrongShape));
}

#[test]
fn token_with_a_fraction_for_the_number_is_refused() {
    let body = br#"{"access_token":"T","token_type":"Bearer","expires_in":3600.0}"#;
    assert_eq!(decode_token(body), Err(PayloadError::WrongShape));
}

#[test]
fn token_expiry_spans_the_whole_of_i32() {
    let most = br#"{"access_token":"T","token_type":"B","expires_in":2147483647}"#;
    assert_eq!(decode_token(most).unwrap().expires_in, i32::MAX);
    let least = br#"{"access_token":"T","token_type":"B","expires_in":-2147483648}"#;
    assert_eq!(decode_token(least).unwrap().expires_in, i32::MIN);
}

#[test]
fn token_expiry_beyond_i32_is_refused() {
    let above = br#"{"access_token":"T","token_type":"B","expires_in":2147483648}"#;
    assert_eq!(decode_token(above), Err(PayloadError::WrongShape));
    let below = br#"{"access_token":"T","token_type":"B","expires_in":-2147483649}"#;
    assert_eq!(decode_token(below), Err(PayloadError::WrongShape));
    let huge = br#"{"access_token":"T","token_type":"B","expires_in":18446744073709551615}"#;
    assert_eq!(decode_token(huge), Err(PayloadError::WrongShape));
}

#[test]
fn token_that_is_no_object_is_refused() {
    assert_eq!(decode_token(br#"["T","Bearer",3600]"#), Err(PayloadError::WrongShape));
    assert_eq!(decode_token(b"null"), Err(PayloadError::WrongShape));
    assert_eq!(decode_token(br#""T""#), Err(PayloadError::WrongShape));
}

#[test]
fn body_that_is_no_json_is_told_apart() {
    assert_eq!(decode_token(b""), Err(PayloadError::NotJson));
    assert_eq!(decode_token(b"<html>"), Err(PayloadError::NotJson));
    assert_eq!(decode_token(br#"{"access_token":"T""#), Err(PayloadError::NotJson));
    assert_eq!(decode_token(b"{} {}"), Err(PayloadError::NotJson));
    assert_eq!(decode_devices(b"{\"devices\":[}"), Err(PayloadError::NotJson));
    assert_eq!(decode_devices(&[0xff, 0xfe]), Err(PayloadError::NotJson));
}

#[test]
fn body_nested_too_deep_is_not_accepted() {
    let shallow = format!("{{\"devices\":[],\"x\":{}{}}}", "[".repeat(100), "]".repeat(100));
    assert_eq!(decode_devices(shallow.as_bytes()), Ok(Devices { devices: Vec::new() }));
    let deep = format!("{{\"devices\":[],\"x\":{}{}}}", "[".repeat(200), "]".repeat(200));
    assert_eq!(decode_devices(deep.as_bytes()), Err(PayloadError::NotJson));
}

#[test]
fn no_devices_is_the_empty_list() {
    assert_eq!(decode_devices(br#"{"devices": []}"#), Ok(Devices { devices: Vec::new() }));
}

#[test]
fn one_device_is_read_with_type_as_kind() {
    let body = format!("{{\"devices\":[{KITCHEN}]}}");
    assert_eq!(decode_devices(body.as_bytes()), Ok(Devices { devices: vec![kitchen()] }));
}

#[test]
fn devices_keep_the_order_of_the_document() {
    let body = format!("{{\"devices\":[{KITCHEN},{PHONE},{KITCHEN}]}}");
    assert_eq!(
        decode_devices(body.as_bytes()),
        Ok(Devices { devices: vec![kitchen(), phone(), kitchen()] })
    );
    let body = format!("{{\"devices\":[{PHONE},{KITCHEN}]}}");
    assert_eq!(
        decode_devices(body.as_bytes()),
        Ok(Devices { devices: vec![phone(), kitchen()] })
    );
}

#[test]
fn device_member_named_kind_does_not_stand_for_type() {
    let body = br#"{"devices":[{"id":"d1","is_active":true,"is_private_session":false,"is_restricted":false,"name":"Kitchen","kind":"Speaker","volume_percent":50}]}"#;
    assert_eq!(decode_devices(body), Err(PayloadError::WrongShape));
}

#[test]
fn one_bad_device_refuses_the_whole_list() {
    let body = format!("{{\"devices\":[{KITCHEN},{{\"id\":\"d3\"}},{PHONE}]}}");
    assert_eq!(decode_devices(body.as_bytes()), Err(PayloadError::WrongShape));
    let body = format!("{{\"devices\":[{KITCHEN},null]}}");
    assert_eq!(decode_devices(body.as_bytes()), Err(PayloadError::WrongShape));
}

#[test]
fn devices_must_be_an_array_in_an_object() {
    assert_eq!(decode_devices(b"{}"), Err(PayloadError::WrongShape));
    assert_eq!(decode_devices(b"[]"), Err(PayloadError::WrongShape));
    assert_eq!(decode_devices(br#"{"devices":null}"#), Err(PayloadError::WrongShape));
    assert_eq!(decode_devices(br#"{"devices":{}}"#), Err(PayloadError::WrongShape));
    assert_eq!(decode_devices(KITCHEN.as_bytes()), Err(PayloadError::WrongShape));
}

#[test]
fn device_volume_spans_the_whole_of_i16() {
    let most = KITCHEN.replace(":50}", ":32767}");
    let v: Value = serde_json::from_str(&most).unwrap();
    assert_eq!(device_from_json(&v).unwrap().volume_percent, i16::MAX);
    let least = KITCHEN.replace(":50}", ":-32768}");
    let v: Value = serde_json::from_str(&least).unwrap();
    assert_eq!(device_from_json(&v).unwrap().volume_percent, i16::MIN);
}

#[test]
fn device_volume_beyond_i16_is_refused() {
    for volume in ["32768", "-32768000", "50.5", "5e1", "null", "\"50\"", "true"] {
        let text = KITCHEN.replace(":50}", &format!(":{volume}}}"));
        let v: Value = serde_json::from_str(&text).unwrap();
        assert_eq!(device_from_json(&v), None);
    }
}

#[test]
fn device_flags_must_be_truth_values() {
    for flag in ["0", "1", "\"true\"", "null", "[]"] {
        let text = KITCHEN.replace("\"is_active\":true", &format!("\"is_active\":{flag}"));
        let v: Value = serde_json::from_str(&text).unwrap();
        assert_eq!(device_from_json(&v), None);
    }
}

#[test]
fn device_needs_each_of_its_seven_fields() {
    let whole: Value = serde_json::from_str(KITCHEN).unwrap();
    assert_eq!(device_from_json(&whole), Some(kitchen()));
    for name in [
        "id",
        "is_active",
        "is_private_session",
        "is_restricted",
        "name",
        "type",
        "volume_percent",
    ] {
        let mut members = whole.as_object().unwrap().clone();
        assert!(members.remove(name).is_some());
        assert_eq!(device_from_json(&Value::Object(members)), None);
    }
}

#[test]
fn token_from_a_value_built_by_hand() {
    let mut members = serde_json::Map::new();
    members.insert("access_token".to_string(), Value::String("T".to_string()));
    members.insert("token_type".to_string(), Value::String("Bearer".to_string()));
    members.insert("expires_in".to_string(), Value::Number(Number::from(3600)));
    assert_eq!(
        token_from_json(&Value::Object(members.clone())),
        Some(AuthToken {
            access_token: "T".to_string(),
            token_type: "Bearer".to_string(),
            expires_in: 3600,
        })
    );
    members.insert("expires_in".to_string(), Value::Bool(true));
    assert_eq!(token_from_json(&Value::Object(members)), None);
    assert_eq!(token_from_json(&Value::Null), None);
    assert_eq!(token_from_json(&Value::Array(Vec::new())), None);
}

#[test]
fn devices_from_a_value_built_by_hand() {
    let kitchen_value: Value = serde_json::from_str(KITCHEN).unwrap();
    let phone_value: Value = serde_json::from_str(PHONE).unwrap();
    let mut members = serde_json::Map::new();
    members.insert("devices".to_string(), Value::Array(vec![phone_value, kitchen_value]));
    assert_eq!(
        devices_from_json(&Value::Object(members)),
        Some(Devices { devices: vec![phone(), kitchen()] })
    );
    assert_eq!(devices_from_json(&Value::Array(Vec::new())), None);
}
