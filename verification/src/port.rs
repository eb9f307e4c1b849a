//! The connection between the system and a device.

use crate::camera::Camera;
use crate::text::{c_text_lossy, lossy_text, until_nul};
use vstd::prelude::*;

verus! {

/// Native port type: no port.
pub const GP_PORT_NONE: i32 = 0;

pub const GP_PORT_SERIAL: i32 = 1;

pub const GP_PORT_USB: i32 = 4;

pub const GP_PORT_DISK: i32 = 8;

pub const GP_PORT_PTPIP: i32 = 16;

pub const GP_PORT_USB_DISK_DIRECT: i32 = 32;

pub const GP_PORT_USB_SCSI: i32 = 64;

/// Types of ports.
#[derive(Debug, PartialEq, Eq, Structural, Clone, Copy, Hash)]
pub enum PortType {
    /// Serial port.
    Serial,
    /// USB port.
    USB,
    /// Disk or local mountpoint.
    Disk,
    /// PTP or IP connection.
    PTPIP,
    /// Direct I/O on a USB mass storage device.
    Direct,
    /// USB mass storage raw SCSI port.
    SCSI,
    /// Unknown port type.
    Other,
}

/// The port type that a native type code stands for; no port and every
/// unknown code are `Other`.
pub open spec fn port_type_of(code: int) -> PortType {
    if code == GP_PORT_SERIAL {
        PortType::Serial
    } else if code == GP_PORT_USB {
        PortType::USB
    } else if code == GP_PORT_DISK {
        PortType::Disk
    } else if code == GP_PORT_PTPIP {
        PortType::PTPIP
    } else if code == GP_PORT_USB_DISK_DIRECT {
        PortType::Direct
    } else if code == GP_PORT_USB_SCSI {
        PortType::SCSI
    } else {
        PortType::Other
    }
}

/// A structure describing a port: what the native layer reported of it,
/// copied out, and a borrow of the device that it belongs to. While a `Port`
/// is alive its device can be neither changed nor released.
pub struct Port<'a> {
    kind: i32,
    name: Vec<u8>,
    path: Vec<u8>,
    camera: &'a Camera,
}

/// The mathematical value of a port description.
pub struct PortView {
    pub kind: int,
    pub name: Seq<u8>,
    pub path: Seq<u8>,
}

impl<'a> View for Port<'a> {
    type V = PortView;

    closed spec fn view(&self) -> PortView {
        PortView { kind: self.kind as int, name: self.name@, path: self.path@ }
    }
}

impl<'a> Port<'a> {
    /// The device that the port belongs to.
    pub closed spec fn owner(&self) -> Camera {
        *self.camera
    }

    /// Returns the type of the port.
    pub fn port_type(&self) -> (t: PortType)
        ensures
            t == port_type_of(self@.kind),
    {
        let kind: i32 = self.kind;
        if kind == GP_PORT_SERIAL {
            PortType::Serial
        } else if kind == GP_PORT_USB {
            PortType::USB
        } else if kind == GP_PORT_DISK {
            PortType::Disk
        } else if kind == GP_PORT_PTPIP {
            PortType::PTPIP
        } else if kind == GP_PORT_USB_DISK_DIRECT {
            PortType::Direct
        } else if kind == GP_PORT_USB_SCSI {
            PortType::SCSI
        } else {
            PortType::Other
        }
    }

    /// Returns the name of the port, with invalid UTF-8 replaced.
    pub fn name(&self) -> (text: String)
        ensures
            text@ == lossy_text(until_nul(self@.name)),
    {
        c_text_lossy(self.name.as_slice())
    }

    /// Returns the path of the port, with invalid UTF-8 replaced.
    pub fn path(&self) -> (text: String)
        ensures
            text@ == lossy_text(until_nul(self@.path)),
    {
        c_text_lossy(self.path.as_slice())
    }
}

/// Describes the port of `camera` from what the native layer reported: the
/// type code and the two C strings, copied out of native memory.
pub fn from_libgphoto2<'a>(camera: &'a Camera, kind: i32, name: Vec<u8>, path: Vec<u8>) -> (port:
    Port<'a>)
    ensures
        port@ == (PortView { kind: kind as int, name: name@, path: path@ }),
        port.owner() == *camera,
{
    Port { kind, name, path, camera }
}

} // verus!
