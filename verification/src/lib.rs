//! Supervisory adapter for a separately installed command-line identity tool,
//! driven as a subprocess. The library holds the decision logic: locating the
//! binary from a search result, the success contract on each execution, strict
//! decoding of the tool's status document, and the login/logout session
//! transitions that re-derive truth from a fresh status query. The host
//! application performs the actual process I/O and feeds the outcomes back in.

use vstd::prelude::*;

pub mod keybase;

pub use keybase::Keybase;

verus! {

/// Information about the device the external tool is provisioned on, as
/// reported by its status document. All fields default to their zero values
/// when absent from the wire.
#[derive(Debug, Clone, PartialEq)]
pub struct DeviceResponse {
    pub device_type: String,
    pub name: String,
    pub device_id: String,
    pub provisioned: bool,
}

/// The authoritative session state reported by the external tool's status
/// query. A fresh value replaces the previous one on every query; it is never
/// mutated in place.
#[derive(Debug, Clone, PartialEq)]
pub struct StatusResponse {
    pub username: String,
    pub logged_in: bool,
    pub device: DeviceResponse,
}

/// Mathematical model of a `DeviceResponse`.
pub ghost struct DeviceView {
    pub device_type: Seq<char>,
    pub name: Seq<char>,
    pub device_id: Seq<char>,
    pub provisioned: bool,
}

/// Mathematical model of a `StatusResponse`.
pub ghost struct StatusView {
    pub username: Seq<char>,
    pub logged_in: bool,
    pub device: DeviceView,
}

impl View for DeviceResponse {
    type V = DeviceView;

    open spec fn view(&self) -> DeviceView {
        DeviceView {
            device_type: self.device_type@,
            name: self.name@,
            device_id: self.device_id@,
            provisioned: self.provisioned,
        }
    }
}

impl View for StatusResponse {
    type V = StatusView;

    open spec fn view(&self) -> StatusView {
        StatusView { username: self.username@, logged_in: self.logged_in, device: self.device@ }
    }
}

/// The zero value a device takes when the wire document carries no device.
pub open spec fn spec_device_zero() -> DeviceView {
    DeviceView {
        device_type: Seq::<char>::empty(),
        name: Seq::<char>::empty(),
        device_id: Seq::<char>::empty(),
        provisioned: false,
    }
}

impl Default for DeviceResponse {
    /// The zero-value device: empty strings, not provisioned.
    fn default() -> (r: DeviceResponse)
        ensures
            r@ == spec_device_zero(),
    {
        DeviceResponse {
            device_type: String::new(),
            name: String::new(),
            device_id: String::new(),
            provisioned: false,
        }
    }
}

} // verus!
