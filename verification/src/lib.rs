//! Ownership and lifetime rules for the handles of a native camera driver,
//! with the mapping of its status codes to typed errors.
//!
//! The library makes no native call itself. Each operation is split at the
//! native call: the caller performs the call and hands back what it returned,
//! and the library decides the result, the next state of the handle, and the
//! native calls that must follow.

pub mod abilities;
pub mod camera;
pub mod context;
pub mod error;
pub mod media;
pub mod native;
pub mod port;
pub mod storage;
pub mod text;

pub use crate::abilities::{Abilities, DeviceType, DriverStatus};
pub use crate::camera::{Camera, CameraFile, CameraFileType, CameraState, Transfer};
pub use crate::context::Context;
pub use crate::error::{Error, ErrorKind};
pub use crate::media::{FileMedia, Media, OpenRequest};
pub use crate::native::{NativeCall, Outcome};
pub use crate::port::{Port, PortType};
pub use crate::storage::{AccessType, FilesystemType, Storage, StorageType};
