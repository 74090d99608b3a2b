//! The status decoder. serde_json parses the text and hands over the consumed
//! fields (see `json`, where `wire_of` names what they are); everything the
//! adapter then decides about them — which fields default when absent, which
//! JSON types are acceptable, and the strict 0/1 provisioned-state rule — is
//! verified code, and the decode of a well-formed document is pinned, field by
//! field, to `wire_of` of its text.

use vstd::prelude::*;

use crate::keybase::error::Error;
use crate::keybase::json::{
    json_ok, wire_device_id, wire_device_kind, wire_device_name, wire_device_status,
    wire_device_type, wire_logged_in, wire_of, wire_shape, wire_username,
};
use crate::{spec_device_zero, DeviceResponse, DeviceView, StatusResponse, StatusView};

verus! {

/// A string-typed wire field: absent, present but of the wrong JSON type, or
/// a string.
pub enum WireString {
    Missing,
    WrongType,
    Present(String),
}

/// A boolean-typed wire field.
pub enum WireBool {
    Missing,
    WrongType,
    Present(bool),
}

/// The provisioned-state wire field as found: absent, present but not an
/// unsigned integer (a negative or fractional number, a boolean, a string, a
/// null, or a structure), or an unsigned integer. Which integers are in range
/// is not decided here: that is the decoder's strict 0/1 rule.
pub enum WireUint {
    Missing,
    NotUint,
    Uint(u64),
}

/// Which shape the device wire field has: absent, the JSON null, present but
/// not an object, or an object.
#[derive(Clone, Copy, PartialEq, Eq, Structural, Debug)]
pub enum WireDeviceKind {
    Missing,
    Null,
    WrongType,
    Object,
}

/// The device object's wire fields.
pub struct WireDevice {
    pub device_type: WireString,
    pub name: WireString,
    pub device_id: WireString,
    pub status: WireUint,
}

/// The device wire field as a whole.
pub enum WireDeviceField {
    Missing,
    Null,
    WrongType,
    Object(WireDevice),
}

/// Every field of the status document the adapter consumes, as found on the
/// wire, before any policy is applied.
pub struct WireStatus {
    pub username: WireString,
    pub logged_in: WireBool,
    pub device: WireDeviceField,
}

/// Model of a string-typed wire field.
#[verifier::ext_equal]
pub ghost enum WireStringView {
    Missing,
    WrongType,
    Present(Seq<char>),
}

/// Model of a boolean-typed wire field.
#[verifier::ext_equal]
pub ghost enum WireBoolView {
    Missing,
    WrongType,
    Present(bool),
}

/// Model of the provisioned-state wire field.
#[verifier::ext_equal]
pub ghost enum WireUintView {
    Missing,
    NotUint,
    Uint(u64),
}

/// Model of the device object's wire fields.
#[verifier::ext_equal]
pub ghost struct WireDeviceView {
    pub device_type: WireStringView,
    pub name: WireStringView,
    pub device_id: WireStringView,
    pub status: WireUintView,
}

/// Model of the device wire field as a whole.
#[verifier::ext_equal]
pub ghost enum WireDeviceFieldView {
    Missing,
    Null,
    WrongType,
    Object(WireDeviceView),
}

/// Model of the consumed fields of one status document.
#[verifier::ext_equal]
pub ghost struct WireStatusDocView {
    pub username: WireStringView,
    pub logged_in: WireBoolView,
    pub device: WireDeviceFieldView,
}

/// Model of one parsed document: either not a JSON object at all, or its
/// consumed fields.
#[verifier::ext_equal]
pub ghost enum WireDocView {
    NotAnObject,
    Object(WireStatusDocView),
}

impl View for WireString {
    type V = WireStringView;

    open spec fn view(&self) -> WireStringView {
        match self {
            WireString::Missing => WireStringView::Missing,
            WireString::WrongType => WireStringView::WrongType,
            WireString::Present(s) => WireStringView::Present(s@),
        }
    }
}

impl View for WireBool {
    type V = WireBoolView;

    open spec fn view(&self) -> WireBoolView {
        match self {
            WireBool::Missing => WireBoolView::Missing,
            WireBool::WrongType => WireBoolView::WrongType,
            WireBool::Present(b) => WireBoolView::Present(*b),
        }
    }
}

impl View for WireUint {
    type V = WireUintView;

    open spec fn view(&self) -> WireUintView {
        match self {
            WireUint::Missing => WireUintView::Missing,
            WireUint::NotUint => WireUintView::NotUint,
            WireUint::Uint(n) => WireUintView::Uint(*n),
        }
    }
}

impl View for WireDevice {
    type V = WireDeviceView;

    open spec fn view(&self) -> WireDeviceView {
        WireDeviceView {
            device_type: self.device_type@,
            name: self.name@,
            device_id: self.device_id@,
            status: self.status@,
        }
    }
}

impl View for WireDeviceField {
    type V = WireDeviceFieldView;

    open spec fn view(&self) -> WireDeviceFieldView {
        match self {
            WireDeviceField::Missing => WireDeviceFieldView::Missing,
            WireDeviceField::Null => WireDeviceFieldView::Null,
            WireDeviceField::WrongType => WireDeviceFieldView::WrongType,
            WireDeviceField::Object(d) => WireDeviceFieldView::Object(d@),
        }
    }
}

impl View for WireStatus {
    type V = WireStatusDocView;

    open spec fn view(&self) -> WireStatusDocView {
        WireStatusDocView {
            username: self.username@,
            logged_in: self.logged_in@,
            device: self.device@,
        }
    }
}

/// The shape of a device wire field, payload set aside.
pub open spec fn spec_device_kind(d: WireDeviceFieldView) -> WireDeviceKind {
    match d {
        WireDeviceFieldView::Missing => WireDeviceKind::Missing,
        WireDeviceFieldView::Null => WireDeviceKind::Null,
        WireDeviceFieldView::WrongType => WireDeviceKind::WrongType,
        WireDeviceFieldView::Object(_) => WireDeviceKind::Object,
    }
}

/// Whether every consumed field of the document holds an acceptable JSON
/// type. The provisioned-state field is judged separately (its failure is
/// `InvalidFieldEncoding`, not `MalformedStatusDocument`).
pub open spec fn wire_well_typed(w: WireStatusDocView) -> bool {
    &&& !(w.username is WrongType)
    &&& !(w.logged_in is WrongType)
    &&& match w.device {
        WireDeviceFieldView::WrongType => false,
        WireDeviceFieldView::Object(d) => {
            &&& !(d.device_type is WrongType)
            &&& !(d.name is WrongType)
            &&& !(d.device_id is WrongType)
        },
        _ => true,
    }
}

/// The strict rule on the provisioned-state field: absent is acceptable, and
/// a present value must be exactly the integer 0 or 1.
pub open spec fn wire_provisioned_ok(s: WireUintView) -> bool {
    match s {
        WireUintView::Missing => true,
        WireUintView::Uint(n) => n == 0 || n == 1,
        WireUintView::NotUint => false,
    }
}

/// Whether the provisioned-state field held an out-of-range value.
pub open spec fn wire_provisioned_invalid(w: WireStatusDocView) -> bool {
    match w.device {
        WireDeviceFieldView::Object(d) => !wire_provisioned_ok(d.status),
        _ => false,
    }
}

/// A string field's decoded value: absent defaults to the empty string.
pub open spec fn spec_wire_string(w: WireStringView) -> Seq<char> {
    match w {
        WireStringView::Present(s) => s,
        _ => Seq::<char>::empty(),
    }
}

/// A boolean field's decoded value: absent defaults to false.
pub open spec fn spec_wire_bool(w: WireBoolView) -> bool {
    match w {
        WireBoolView::Present(b) => b,
        _ => false,
    }
}

/// A well-typed device object's decoded value.
pub open spec fn spec_device_of(d: WireDeviceView) -> DeviceView {
    DeviceView {
        device_type: spec_wire_string(d.device_type),
        name: spec_wire_string(d.name),
        device_id: spec_wire_string(d.device_id),
        provisioned: d.status == WireUintView::Uint(1u64),
    }
}

/// The whole decode policy on one document's wire fields: a wrongly typed
/// field aborts the decode as `MalformedStatusDocument`; failing that, an
/// out-of-range provisioned-state value aborts it as `InvalidFieldEncoding`;
/// otherwise absent fields default (empty strings, false, the zero-value
/// device) and present ones are taken as they stand.
pub open spec fn spec_build_status(w: WireStatusDocView) -> Result<StatusView, Error> {
    if !wire_well_typed(w) {
        Err(Error::MalformedStatusDocument)
    } else if wire_provisioned_invalid(w) {
        Err(Error::InvalidFieldEncoding)
    } else {
        Ok(
            StatusView {
                username: spec_wire_string(w.username),
                logged_in: spec_wire_bool(w.logged_in),
                device: match w.device {
                    WireDeviceFieldView::Object(d) => spec_device_of(d),
                    _ => spec_device_zero(),
                },
            },
        )
    }
}

/// The decode of one parsed document: a document that is not an object is
/// malformed, and an object decodes by the policy on its fields.
pub open spec fn spec_decode(doc: WireDocView) -> Result<StatusView, Error> {
    match doc {
        WireDocView::NotAnObject => Err(Error::MalformedStatusDocument),
        WireDocView::Object(w) => spec_build_status(w),
    }
}

/// The decode of one text: texts that are not well-formed JSON are malformed,
/// and the rest decode as the document `wire_of` reports in them.
pub open spec fn spec_decode_text(text: Seq<char>) -> Result<StatusView, Error> {
    if !json_ok(text) {
        Err(Error::MalformedStatusDocument)
    } else {
        spec_decode(wire_of(text))
    }
}

/// The model of a decode result.
pub open spec fn status_result_view(r: Result<StatusResponse, Error>) -> Result<
    StatusView,
    Error,
> {
    match r {
        Ok(s) => Ok(s@),
        Err(e) => Err(e),
    }
}

/// Applies the decode policy to the wire fields of one status document.
pub fn build_status(w: WireStatus) -> (r: Result<StatusResponse, Error>)
    ensures
        status_result_view(r) == spec_build_status(w@),
{
    let WireStatus { username, logged_in, device } = w;
    let username: String = match username {
        WireString::WrongType => {
            return Err(Error::MalformedStatusDocument);
        },
        WireString::Missing => String::new(),
        WireString::Present(s) => s,
    };
    let logged_in: bool = match logged_in {
        WireBool::WrongType => {
            return Err(Error::MalformedStatusDocument);
        },
        WireBool::Missing => false,
        WireBool::Present(b) => b,
    };
    let device: DeviceResponse = match device {
        WireDeviceField::WrongType => {
            return Err(Error::MalformedStatusDocument);
        },
        WireDeviceField::Missing => DeviceResponse::default(),
        WireDeviceField::Null => DeviceResponse::default(),
        WireDeviceField::Object(d) => {
            let WireDevice { device_type, name, device_id, status } = d;
            let device_type: String = match device_type {
                WireString::WrongType => {
                    return Err(Error::MalformedStatusDocument);
                },
                WireString::Missing => String::new(),
                WireString::Present(s) => s,
            };
            let name: String = match name {
                WireString::WrongType => {
                    return Err(Error::MalformedStatusDocument);
                },
                WireString::Missing => String::new(),
                WireString::Present(s) => s,
            };
            let device_id: String = match device_id {
                WireString::WrongType => {
                    return Err(Error::MalformedStatusDocument);
                },
                WireString::Missing => String::new(),
                WireString::Present(s) => s,
            };
            let provisioned: bool = match status {
                WireUint::Missing => false,
                WireUint::NotUint => {
                    return Err(Error::InvalidFieldEncoding);
                },
                WireUint::Uint(n) => {
                    if n == 0 {
                        false
                    } else if n == 1 {
                        true
                    } else {
                        return Err(Error::InvalidFieldEncoding);
                    }
                },
            };
            DeviceResponse { device_type, name, device_id, provisioned }
        },
    };
    Ok(StatusResponse { username, logged_in, device })
}

/// Decodes the text of one status query: exactly `spec_decode_text` — a text
/// that is not well-formed JSON or not an object is `MalformedStatusDocument`,
/// and the decode of an object follows the policy on the wire fields that
/// `wire_of` reports for this text.
pub fn decode_status(text: &str) -> (r: Result<StatusResponse, Error>)
    ensures
        status_result_view(r) == spec_decode_text(text@),
{
    let is_object = match wire_shape(text) {
        None => {
            return Err(Error::MalformedStatusDocument);
        },
        Some(b) => b,
    };
    if !is_object {
        return Err(Error::MalformedStatusDocument);
    }
    let ghost raw = wire_of(text@)->Object_0;
    let username = wire_username(text);
    let logged_in = wire_logged_in(text);
    let device: WireDeviceField = match wire_device_kind(text) {
        WireDeviceKind::Missing => WireDeviceField::Missing,
        WireDeviceKind::Null => WireDeviceField::Null,
        WireDeviceKind::WrongType => WireDeviceField::WrongType,
        WireDeviceKind::Object => WireDeviceField::Object(
            WireDevice {
                device_type: wire_device_type(text),
                name: wire_device_name(text),
                device_id: wire_device_id(text),
                status: wire_device_status(text),
            },
        ),
    };
    let w = WireStatus { username, logged_in, device };
    proof {
        assert(device@ =~= raw.device);
        assert(w@ =~= raw);
    }
    build_status(w)
}

} // verus!
