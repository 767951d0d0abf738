//! Wheel-specific device controls carried by their own feature report.

use vstd::prelude::*;

verus! {

/// Maintenance commands for the wheel itself, outside the PID class.
#[derive(Clone, Copy, PartialEq, Eq, Debug)]
pub enum WheelDeviceControl {
    Reboot,
    ResetRotation,
    WriteConfig,
}

/// The wheel control named by a wire code, if any.
pub open spec fn spec_wheel_device_control_from(value: u8) -> Option<WheelDeviceControl> {
    if value == 1 {
        Some(WheelDeviceControl::Reboot)
    } else if value == 2 {
        Some(WheelDeviceControl::ResetRotation)
    } else if value == 3 {
        Some(WheelDeviceControl::WriteConfig)
    } else {
        None
    }
}

impl WheelDeviceControl {
    /// Decodes a wire code; codes outside `1..=3` are rejected.
    pub fn try_from(value: u8) -> (r: Result<Self, ()>)
        ensures
            r == match spec_wheel_device_control_from(value) {
                Some(t) => Ok::<Self, ()>(t),
                None => Err::<Self, ()>(()),
            },
    {
        match value {
            1 => Ok(WheelDeviceControl::Reboot),
            2 => Ok(WheelDeviceControl::ResetRotation),
            3 => Ok(WheelDeviceControl::WriteConfig),
            _ => Err(()),
        }
    }
}

} // verus!
