//! What a device reports of one of its filesystems.

use vstd::prelude::*;

verus! {

/// Types of storage hardware.
#[derive(Debug, PartialEq, Eq, Structural, Clone, Copy)]
pub enum StorageType {
    /// Unknown storage type.
    Unknown,
    /// A fixed ROM storage.
    FixedRom,
    /// A removable ROM storage.
    RemovableRom,
    /// A fixed RAM storage.
    FixedRam,
    /// A removable RAM storage.
    RemovableRam,
}

/// Types of filesystem hierarchies.
#[derive(Debug, PartialEq, Eq, Structural, Clone, Copy)]
pub enum FilesystemType {
    /// Undefined or unknown filesystem hierarchy.
    Undefined,
    /// Generic flat storage (all files in one directory).
    GenericFlat,
    /// Generic tree hierarchy.
    GenericHierarchical,
    /// DCIM style storage.
    Dcf,
}

/// Types of access permissions.
#[derive(Debug, PartialEq, Eq, Structural, Clone, Copy)]
pub enum AccessType {
    /// Read and write operations are allowed.
    ReadWrite,
    /// Read and delete operations are allowed.
    ReadDelete,
    /// Only read operations are allowed.
    ReadOnly,
}

/// One filesystem on the device. A value of its own: it stays valid after
/// the call that reported it.
#[derive(Debug, PartialEq, Eq, Structural, Clone, Copy)]
pub struct Storage {
    pub storage_type: StorageType,
    pub filesystem_type: FilesystemType,
    pub access_type: AccessType,
    pub capacity_kbytes: u64,
    pub free_kbytes: u64,
    pub free_images: u64,
}

} // verus!
