use vstd::prelude::*;

use crate::config::SupportedDevice;
use crate::error::{Error, ErrorKind};
use crate::rpc::InfoResponse;

verus! {

/// The capability class of a device's live handler: which of the protocol
/// operations its hardware supports.
#[derive(Clone, Copy, Debug, PartialEq, Eq, Structural)]
pub enum DeviceHandler {
    /// A light with color support: power, brightness, hue/saturation and
    /// color temperature.
    ColorLight,
    /// A plain dimmable light: power and brightness.
    Light,
    /// A generic device: power only.
    Generic,
}

/// The protocol operations a request can ask of a device.
#[derive(Clone, Copy, Debug, PartialEq, Eq, Structural)]
pub enum Operation {
    Reset,
    GetInfo,
    GetInfoJson,
    GetUsage,
    PowerOn,
    PowerOff,
    Update,
}

/// Whether a device class supports an operation. Factory reset and usage
/// reporting are missing from generic devices; everything else is accepted
/// by every class (updates simply ignore properties the class lacks).
pub open spec fn spec_supports(class: DeviceHandler, op: Operation) -> bool {
    match op {
        Operation::Reset => !(class is Generic),
        Operation::GetUsage => !(class is Generic),
        _ => true,
    }
}

/// Gate an operation on a device's capability class: reject what the class
/// does not support before the device is ever contacted.
pub fn check_capability(class: DeviceHandler, op: Operation) -> (r: Result<(), Error>)
    ensures
        r is Ok <==> spec_supports(class, op),
        r is Err ==> r->Err_0.kind == ErrorKind::Unimplemented,
{
    match op {
        Operation::Reset => {
            if matches!(class, DeviceHandler::Generic) {
                Err(Error::unimplemented(String::from_str("Cannot reset generic device")))
            } else {
                Ok(())
            }
        },
        Operation::GetUsage => {
            if matches!(class, DeviceHandler::Generic) {
                Err(Error::unimplemented(String::from_str(
                    "Cannot get device usage for generic device",
                )))
            } else {
                Ok(())
            }
        },
        _ => Ok(()),
    }
}

/// The snapshot with every property the class cannot report removed: plain
/// lights carry no color properties, generic devices no brightness either.
pub open spec fn spec_strip_unsupported(class: DeviceHandler, info: InfoResponse) -> InfoResponse {
    match class {
        DeviceHandler::ColorLight => info,
        DeviceHandler::Light => InfoResponse { hue: None, saturation: None, temperature: None, ..info },
        DeviceHandler::Generic => InfoResponse {
            hue: None,
            saturation: None,
            temperature: None,
            brightness: None,
            ..info
        },
    }
}

/// Remove from an optimistic snapshot the properties the device's class does
/// not actually carry, so the cache never reports a color on a plain light.
pub fn strip_unsupported(class: DeviceHandler, info: InfoResponse) -> (r: InfoResponse)
    ensures
        r == spec_strip_unsupported(class, info),
{
    match class {
        DeviceHandler::ColorLight => info,
        DeviceHandler::Light => InfoResponse { hue: None, saturation: None, temperature: None, ..info },
        DeviceHandler::Generic => InfoResponse {
            hue: None,
            saturation: None,
            temperature: None,
            brightness: None,
            ..info
        },
    }
}

impl SupportedDevice {
    /// The capability class a configured device model belongs to.
    pub open spec fn spec_device_class(self) -> DeviceHandler {
        match self {
            SupportedDevice::L530 => DeviceHandler::ColorLight,
            SupportedDevice::L630 => DeviceHandler::ColorLight,
            SupportedDevice::L900 => DeviceHandler::ColorLight,
            SupportedDevice::L510 => DeviceHandler::Light,
            SupportedDevice::L520 => DeviceHandler::Light,
            SupportedDevice::L610 => DeviceHandler::Light,
            SupportedDevice::Generic => DeviceHandler::Generic,
        }
    }

    pub fn device_class(&self) -> (r: DeviceHandler)
        ensures
            r == self.spec_device_class(),
    {
        match self {
            SupportedDevice::L530 => DeviceHandler::ColorLight,
            SupportedDevice::L630 => DeviceHandler::ColorLight,
            SupportedDevice::L900 => DeviceHandler::ColorLight,
            SupportedDevice::L510 => DeviceHandler::Light,
            SupportedDevice::L520 => DeviceHandler::Light,
            SupportedDevice::L610 => DeviceHandler::Light,
            SupportedDevice::Generic => DeviceHandler::Generic,
        }
    }

    /// The model's name as listed to clients.
    pub open spec fn spec_model_name(self) -> Seq<char> {
        match self {
            SupportedDevice::L530 => "L530"@,
            SupportedDevice::L630 => "L630"@,
            SupportedDevice::L900 => "L900"@,
            SupportedDevice::L510 => "L510"@,
            SupportedDevice::L520 => "L520"@,
            SupportedDevice::L610 => "L610"@,
            SupportedDevice::Generic => "Generic"@,
        }
    }

    pub fn model_name(&self) -> (r: String)
        ensures
            r@ == self.spec_model_name(),
    {
        match self {
            SupportedDevice::L530 => String::from_str("L530"),
            SupportedDevice::L630 => String::from_str("L630"),
            SupportedDevice::L900 => String::from_str("L900"),
            SupportedDevice::L510 => String::from_str("L510"),
            SupportedDevice::L520 => String::from_str("L520"),
            SupportedDevice::L610 => String::from_str("L610"),
            SupportedDevice::Generic => String::from_str("Generic"),
        }
    }
}

} // verus!
