//! Trusted view of serde_json, which does the JSON syntax work. `json_ok`
//! names which texts parse, and `wire_of` names the consumed fields of a
//! parsed document; both depend on the text alone. Each wrapper below parses
//! the text once and reports one of those fields, telling serde_json's value
//! variants apart and nothing more — which JSON types are acceptable, what
//! absent fields default to and the strict 0/1 rule are verified code in
//! `decode`.

use vstd::prelude::*;

use crate::keybase::decode::{
    spec_device_kind, WireBool, WireDeviceKind, WireDocView, WireString, WireUint,
};

verus! {

/// Whether a text is a single well-formed JSON document, exactly as
/// serde_json's parser accepts it. The answer depends on the text alone.
pub uninterp spec fn json_ok(s: Seq<char>) -> bool;

/// The consumed fields of a well-formed document, as serde_json's parse
/// reports them: whether the document is an object, and what each field the
/// adapter reads holds. A function of the text alone; meaningful only on
/// texts that `json_ok` accepts, and applied there by every wrapper below.
pub uninterp spec fn wire_of(s: Seq<char>) -> WireDocView;

/// Relies on serde_json::from_str::<Value> and Value::is_object: `None`
/// exactly on texts that are not well-formed JSON, and otherwise whether the
/// document is an object.
#[verifier::external_body]
pub(crate) fn wire_shape(text: &str) -> (r: Option<bool>)
    ensures
        r is Some <==> json_ok(text@),
        r is Some ==> (r.unwrap() <==> wire_of(text@) is Object),
{
    match serde_json::from_str::<serde_json::Value>(text) {
        Ok(v) => Some(v.is_object()),
        Err(_) => None,
    }
}

/// Relies on serde_json::from_str::<Value>, Value::get and Value::as_str: the
/// `Username` field of the document, as `wire_of` reports it.
#[verifier::external_body]
pub(crate) fn wire_username(text: &str) -> (r: WireString)
    ensures
        json_ok(text@) && wire_of(text@) is Object ==> r@ == wire_of(
            text@,
        )->Object_0.username,
{
    let parsed = serde_json::from_str::<serde_json::Value>(text);
    match parsed.as_ref().ok().and_then(|v| v.get("Username")) {
        None => WireString::Missing,
        Some(f) => match f.as_str() {
            Some(s) => WireString::Present(s.to_owned()),
            None => WireString::WrongType,
        },
    }
}

/// Relies on serde_json::from_str::<Value>, Value::get and Value::as_bool:
/// the `LoggedIn` field of the document, as `wire_of` reports it.
#[verifier::external_body]
pub(crate) fn wire_logged_in(text: &str) -> (r: WireBool)
    ensures
        json_ok(text@) && wire_of(text@) is Object ==> r@ == wire_of(
            text@,
        )->Object_0.logged_in,
{
    let parsed = serde_json::from_str::<serde_json::Value>(text);
    match parsed.as_ref().ok().and_then(|v| v.get("LoggedIn")) {
        None => WireBool::Missing,
        Some(f) => match f.as_bool() {
            Some(b) => WireBool::Present(b),
            None => WireBool::WrongType,
        },
    }
}

/// Relies on serde_json::from_str::<Value>, Value::get, Value::is_null and
/// Value::is_object: the shape of the `Device` field, as `wire_of` reports it.
#[verifier::external_body]
pub(crate) fn wire_device_kind(text: &str) -> (r: WireDeviceKind)
    ensures
        json_ok(text@) && wire_of(text@) is Object ==> r == spec_device_kind(
            wire_of(text@)->Object_0.device,
        ),
{
    let parsed = serde_json::from_str::<serde_json::Value>(text);
    match parsed.as_ref().ok().and_then(|v| v.get("Device")) {
        None => WireDeviceKind::Missing,
        Some(d) if d.is_null() => WireDeviceKind::Null,
        Some(d) if d.is_object() => WireDeviceKind::Object,
        Some(_) => WireDeviceKind::WrongType,
    }
}

/// Relies on serde_json::from_str::<Value>, Value::get and Value::as_str: the
/// device object's `type` field, as `wire_of` reports it.
#[verifier::external_body]
pub(crate) fn wire_device_type(text: &str) -> (r: WireString)
    ensures
        json_ok(text@) && wire_of(text@) is Object && wire_of(text@)->Object_0.device is Object
            ==> r@ == wire_of(text@)->Object_0.device->Object_0.device_type,
{
    let parsed = serde_json::from_str::<serde_json::Value>(text);
    match parsed.as_ref().ok().and_then(|v| v.get("Device")).and_then(|d| d.get("type")) {
        None => WireString::Missing,
        Some(f) => match f.as_str() {
            Some(s) => WireString::Present(s.to_owned()),
            None => WireString::WrongType,
        },
    }
}

/// Relies on serde_json::from_str::<Value>, Value::get and Value::as_str: the
/// device object's `name` field, as `wire_of` reports it.
#[verifier::external_body]
pub(crate) fn wire_device_name(text: &str) -> (r: WireString)
    ensures
        json_ok(text@) && wire_of(text@) is Object && wire_of(text@)->Object_0.device is Object
            ==> r@ == wire_of(text@)->Object_0.device->Object_0.name,
{
    let parsed = serde_json::from_str::<serde_json::Value>(text);
    match parsed.as_ref().ok().and_then(|v| v.get("Device")).and_then(|d| d.get("name")) {
        None => WireString::Missing,
        Some(f) => match f.as_str() {
            Some(s) => WireString::Present(s.to_owned()),
            None => WireString::WrongType,
        },
    }
}

/// Relies on serde_json::from_str::<Value>, Value::get and Value::as_str: the
/// device object's `deviceID` field, as `wire_of` reports it.
#[verifier::external_body]
pub(crate) fn wire_device_id(text: &str) -> (r: WireString)
    ensures
        json_ok(text@) && wire_of(text@) is Object && wire_of(text@)->Object_0.device is Object
            ==> r@ == wire_of(text@)->Object_0.device->Object_0.device_id,
{
    let parsed = serde_json::from_str::<serde_json::Value>(text);
    match parsed.as_ref().ok().and_then(|v| v.get("Device")).and_then(|d| d.get("deviceID")) {
        None => WireString::Missing,
        Some(f) => match f.as_str() {
            Some(s) => WireString::Present(s.to_owned()),
            None => WireString::WrongType,
        },
    }
}

/// Relies on serde_json::from_str::<Value>, Value::get and Value::as_u64: the
/// device object's `status` field, as `wire_of` reports it — its integer
/// value when it is a JSON number representable as a u64, `NotUint` for every
/// other present value (negative or fractional numbers, booleans, strings,
/// nulls, structures).
#[verifier::external_body]
pub(crate) fn wire_device_status(text: &str) -> (r: WireUint)
    ensures
        json_ok(text@) && wire_of(text@) is Object && wire_of(text@)->Object_0.device is Object
            ==> r@ == wire_of(text@)->Object_0.device->Object_0.status,
{
    let parsed = serde_json::from_str::<serde_json::Value>(text);
    match parsed.as_ref().ok().and_then(|v| v.get("Device")).and_then(|d| d.get("status")) {
        None => WireUint::Missing,
        Some(f) => match f.as_u64() {
            Some(n) => WireUint::Uint(n),
            None => WireUint::NotUint,
        },
    }
}

} // verus!
