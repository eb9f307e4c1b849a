//! The static capabilities of an opened device.

use vstd::prelude::*;

verus! {

/// How far the device's driver has been developed.
#[derive(Debug, PartialEq, Eq, Structural, Clone, Copy)]
pub enum DriverStatus {
    /// Driver is production ready.
    Production,
    /// Driver is beta quality.
    Testing,
    /// Driver is alpha quality and might not even work.
    Experimental,
    /// Driver is no longer recommended and will be removed.
    Deprecated,
}

/// Types of devices.
#[derive(Debug, PartialEq, Eq, Structural, Clone, Copy)]
pub enum DeviceType {
    /// Still camera.
    Camera,
    /// Audio player.
    Audio,
}

/// What a device supports. The three operation fields are the native bit
/// sets, as reported.
#[derive(Debug, PartialEq, Eq, Structural, Clone, Copy)]
pub struct Abilities {
    pub device_type: DeviceType,
    pub driver_status: DriverStatus,
    pub camera_operations: i32,
    pub file_operations: i32,
    pub folder_operations: i32,
}

} // verus!
