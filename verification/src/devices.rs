//! Audio device descriptions, as the device-enumeration boundary hands
//! them to the rest of the application.

use vstd::prelude::*;

verus! {

/// Why a pipeline instance could not start. Fatal to that instance and
/// returned to the caller; nothing is retried internally.
#[derive(Debug, Clone, Copy, PartialEq, Eq, Structural)]
pub enum DeviceError {
    /// The selected capture device could not be resolved.
    InputDeviceNotFound,
    /// The selected playback device could not be resolved.
    OutputDeviceNotFound,
    /// The capture configuration (rate, channels or sensitivity) is outside
    /// the supported range.
    UnsupportedConfiguration,
}

impl DeviceError {
    /// A human-readable description of the error.
    pub fn message(&self) -> (r: &'static str)
        ensures
            r@ == match self {
                DeviceError::InputDeviceNotFound => "selected input device not found"@,
                DeviceError::OutputDeviceNotFound => "selected output device not found"@,
                DeviceError::UnsupportedConfiguration => "unsupported capture configuration"@,
            },
    {
        match self {
            DeviceError::InputDeviceNotFound => "selected input device not found",
            DeviceError::OutputDeviceNotFound => "selected output device not found",
            DeviceError::UnsupportedConfiguration => "unsupported capture configuration",
        }
    }
}

/// One selectable audio device.
#[derive(Debug, Clone)]
pub struct AudioDeviceInfo {
    /// Stable identifier used for configuration ("input_0", "output_2", ...).
    pub id: String,
    /// The device's display name.
    pub name: String,
    /// Whether the platform reports this device as its default.
    pub is_default: bool,
    /// Whether the name matches a known virtual audio device.
    pub is_virtual: bool,
}

impl AudioDeviceInfo {
    /// The display form of the device: its name, suffixed with its role.
    pub fn display_string(&self) -> (r: String)
        ensures
            self.is_default ==> r@ == self.name@ + " (Default)"@,
            !self.is_default && self.is_virtual ==> r@ == self.name@ + " (Virtual)"@,
            !self.is_default && !self.is_virtual ==> r@ == self.name@,
    {
        let mut s = self.name.clone();
        if self.is_default {
            s.append(" (Default)");
        } else if self.is_virtual {
            s.append(" (Virtual)");
        }
        s
    }
}

} // verus!
