use keybase::keybase::decode::{
    build_status, decode_status, WireBool, WireDevice, WireDeviceField, WireStatus, WireString,
    WireUint,
};
use keybase::keybase::error::Error;
use keybase::DeviceResponse;

#[test]
fn decode_device_null_yields_zero_device() {
    let r = decode_status(r#"{"Username":"x","LoggedIn":false,"Device":null}"#).unwrap();
    assert_eq!(r.username, "x");
    assert_eq!(r.logged_in, false);
    assert_eq!(r.device, DeviceResponse::default());
}

#[test]
fn decode_device_status_two_is_invalid_field_encoding() {
    let r = decode_status(r#"{"Username":"x","LoggedIn":true,"Device":{"status":2}}"#);
    assert_eq!(r, Err(Error::InvalidFieldEncoding));
}

#[test]
fn decode_device_status_zero_is_not_provisioned() {
    let r = decode_status(r#"{"Username":"x","LoggedIn":true,"Device":{"status":0}}"#).unwrap();
    assert_eq!(r.device.provisioned, false);
}

#[test]
fn decode_device_status_one_is_provisioned() {
    let r = decode_status(r#"{"Username":"x","LoggedIn":true,"Device":{"status":1}}"#).unwrap();
    assert_eq!(r.device.provisioned, true);
}

#[test]
fn decode_full_document() {
    let text = r#"{
        "Username": "alice",
        "LoggedIn": true,
        "Device": {
            "type": "desktop",
            "name": "work laptop",
            "deviceID": "abcdef0123",
            "status": 1
        }
    }"#;
    let r = decode_status(text).unwrap();
    assert_eq!(r.username, "alice");
    assert_eq!(r.logged_in, true);
    assert_eq!(r.device.device_type, "desktop");
    assert_eq!(r.device.name, "work laptop");
    assert_eq!(r.device.device_id, "abcdef0123");
    assert_eq!(r.device.provisioned, true);
}

#[test]
fn decode_unlisted_fields_are_ignored() {
    let text = r#"{"Username":"u","ConfigPath":"/tmp/x","LoggedIn":true,"Device":null}"#;
    let r = decode_status(text).unwrap();
    assert_eq!(r.username, "u");
    assert_eq!(r.logged_in, true);
}

#[test]
fn decode_missing_username_defaults_to_empty() {
    let r = decode_status(r#"{"LoggedIn":true,"Device":null}"#).unwrap();
    assert_eq!(r.username, "");
    assert_eq!(r.logged_in, true);
}

#[test]
fn decode_missing_logged_in_defaults_to_false() {
    let r = decode_status(r#"{"Username":"u","Device":null}"#).unwrap();
    assert_eq!(r.logged_in, false);
}

#[test]
fn decode_missing_device_defaults_to_zero_device() {
    let r = decode_status(r#"{"Username":"u","LoggedIn":false}"#).unwrap();
    assert_eq!(r.device, DeviceResponse::default());
}

#[test]
fn decode_empty_object_is_all_defaults() {
    let r = decode_status("{}").unwrap();
    assert_eq!(r.username, "");
    assert_eq!(r.logged_in, false);
    assert_eq!(r.device, DeviceResponse::default());
}

#[test]
fn decode_device_object_missing_fields_default() {
    let r = decode_status(r#"{"Device":{}}"#).unwrap();
    assert_eq!(r.device.device_type, "");
    assert_eq!(r.device.name, "");
    assert_eq!(r.device.device_id, "");
    assert_eq!(r.device.provisioned, false);
}

#[test]
fn decode_unparsable_syntax_is_malformed() {
    assert_eq!(decode_status("{not json"), Err(Error::MalformedStatusDocument));
}

#[test]
fn decode_empty_text_is_malformed() {
    assert_eq!(decode_status(""), Err(Error::MalformedStatusDocument));
}

#[test]
fn decode_top_level_array_is_malformed() {
    assert_eq!(decode_status("[1,2]"), Err(Error::MalformedStatusDocument));
}

#[test]
fn decode_top_level_number_is_malformed() {
    assert_eq!(decode_status("5"), Err(Error::MalformedStatusDocument));
}

#[test]
fn decode_username_of_wrong_type_is_malformed() {
    assert_eq!(
        decode_status(r#"{"Username":5,"LoggedIn":true}"#),
        Err(Error::MalformedStatusDocument)
    );
}

#[test]
fn decode_null_username_is_malformed() {
    assert_eq!(
        decode_status(r#"{"Username":null}"#),
        Err(Error::MalformedStatusDocument)
    );
}

#[test]
fn decode_logged_in_of_wrong_type_is_malformed() {
    assert_eq!(
        decode_status(r#"{"LoggedIn":"yes"}"#),
        Err(Error::MalformedStatusDocument)
    );
}

#[test]
fn decode_device_of_wrong_type_is_malformed() {
    assert_eq!(
        decode_status(r#"{"Device":5}"#),
        Err(Error::MalformedStatusDocument)
    );
}

#[test]
fn decode_device_name_of_wrong_type_is_malformed() {
    assert_eq!(
        decode_status(r#"{"Device":{"name":7,"status":1}}"#),
        Err(Error::MalformedStatusDocument)
    );
}

#[test]
fn decode_device_status_boolean_is_invalid_field_encoding() {
    assert_eq!(
        decode_status(r#"{"Device":{"status":true}}"#),
        Err(Error::InvalidFieldEncoding)
    );
}

#[test]
fn decode_device_status_string_is_invalid_field_encoding() {
    assert_eq!(
        decode_status(r#"{"Device":{"status":"1"}}"#),
        Err(Error::InvalidFieldEncoding)
    );
}

#[test]
fn decode_device_status_negative_is_invalid_field_encoding() {
    assert_eq!(
        decode_status(r#"{"Device":{"status":-1}}"#),
        Err(Error::InvalidFieldEncoding)
    );
}

#[test]
fn decode_device_status_fraction_is_invalid_field_encoding() {
    assert_eq!(
        decode_status(r#"{"Device":{"status":1.5}}"#),
        Err(Error::InvalidFieldEncoding)
    );
}

#[test]
fn decode_device_status_large_integer_is_invalid_field_encoding() {
    assert_eq!(
        decode_status(r#"{"Device":{"status":256}}"#),
        Err(Error::InvalidFieldEncoding)
    );
}

#[test]
fn decode_device_status_null_is_invalid_field_encoding() {
    assert_eq!(
        decode_status(r#"{"Device":{"status":null}}"#),
        Err(Error::InvalidFieldEncoding)
    );
}

#[test]
fn build_status_defaults_absent_fields() {
    let w = WireStatus {
        username: WireString::Missing,
        logged_in: WireBool::Missing,
        device: WireDeviceField::Missing,
    };
    let r = build_status(w).unwrap();
    assert_eq!(r.username, "");
    assert_eq!(r.logged_in, false);
    assert_eq!(r.device, DeviceResponse::default());
}

#[test]
fn build_status_wrong_typed_field_aborts_as_malformed() {
    let w = WireStatus {
        username: WireString::WrongType,
        logged_in: WireBool::Present(true),
        device: WireDeviceField::Null,
    };
    assert_eq!(build_status(w), Err(Error::MalformedStatusDocument));
}

#[test]
fn build_status_invalid_provisioned_aborts_even_with_good_fields() {
    let w = WireStatus {
        username: WireString::Present(String::from("u")),
        logged_in: WireBool::Present(true),
        device: WireDeviceField::Object(WireDevice {
            device_type: WireString::Present(String::from("desktop")),
            name: WireString::Missing,
            device_id: WireString::Missing,
            status: WireUint::Uint(2),
        }),
    };
    assert_eq!(build_status(w), Err(Error::InvalidFieldEncoding));
}

#[test]
fn build_status_non_integer_provisioned_aborts() {
    let w = WireStatus {
        username: WireString::Missing,
        logged_in: WireBool::Missing,
        device: WireDeviceField::Object(WireDevice {
            device_type: WireString::Missing,
            name: WireString::Missing,
            device_id: WireString::Missing,
            status: WireUint::NotUint,
        }),
    };
    assert_eq!(build_status(w), Err(Error::InvalidFieldEncoding));
}

#[test]
fn build_status_takes_present_fields_as_they_stand() {
    let w = WireStatus {
        username: WireString::Present(String::from("bob")),
        logged_in: WireBool::Present(true),
        device: WireDeviceField::Object(WireDevice {
            device_type: WireString::Present(String::from("mobile")),
            name: WireString::Present(String::from("phone")),
            device_id: WireString::Present(String::from("id9")),
            status: WireUint::Uint(0),
        }),
    };
    let r = build_status(w).unwrap();
    assert_eq!(r.username, "bob");
    assert_eq!(r.logged_in, true);
    assert_eq!(r.device.device_type, "mobile");
    assert_eq!(r.device.name, "phone");
    assert_eq!(r.device.device_id, "id9");
    assert_eq!(r.device.provisioned, false);
}
