//! Native status codes and the typed errors they map to.

use crate::text::{c_text_lossy, lossy_text, until_nul};
use vstd::prelude::*;

verus! {

/// Status code with which the native layer reports success.
pub const GP_OK: i32 = 0;

/// Unspecified native failure.
pub const GP_ERROR: i32 = -1;

pub const GP_ERROR_BAD_PARAMETERS: i32 = -2;

pub const GP_ERROR_NO_MEMORY: i32 = -3;

pub const GP_ERROR_NOT_SUPPORTED: i32 = -6;

pub const GP_ERROR_CORRUPTED_DATA: i32 = -102;

pub const GP_ERROR_FILE_EXISTS: i32 = -103;

pub const GP_ERROR_MODEL_NOT_FOUND: i32 = -105;

pub const GP_ERROR_DIRECTORY_NOT_FOUND: i32 = -107;

pub const GP_ERROR_FILE_NOT_FOUND: i32 = -108;

pub const GP_ERROR_DIRECTORY_EXISTS: i32 = -109;

pub const GP_ERROR_CAMERA_BUSY: i32 = -110;

pub const GP_ERROR_PATH_NOT_ABSOLUTE: i32 = -111;

pub const GP_ERROR_CANCEL: i32 = -112;

pub const GP_ERROR_CAMERA_ERROR: i32 = -113;

pub const GP_ERROR_OS_FAILURE: i32 = -114;

pub const GP_ERROR_NO_SPACE: i32 = -115;

/// Types of errors reported by the native layer.
#[derive(Debug, PartialEq, Eq, Structural, Clone, Copy)]
pub enum ErrorKind {
    /// A parameter was incorrect.
    InvalidInput,
    /// Functionality not supported.
    NotSupported,
    /// Corrupted data received.
    CorruptedData,
    /// Specified camera model was not found.
    ModelNotFound,
    /// File already exists.
    FileExists,
    /// Directory already exists.
    DirectoryExists,
    /// Directory was not found.
    DirectoryNotFound,
    /// File was not found.
    FileNotFound,
    /// Camera is busy.
    CameraBusy,
    /// Path is not absolute.
    PathNotAbsolute,
    /// Operation was canceled.
    Cancel,
    /// An error was reported by the camera.
    CameraError,
    /// An error was reported by the operating system.
    OSFailure,
    /// Not enough space when uploading a file.
    NoSpace,
    /// The native allocator could not provide a resource.
    ResourceExhausted,
    /// An unspecified error occurred.
    Other,
}

/// The kind of error that a native status code stands for. Total: every code
/// without an entry of its own is `Other`.
pub open spec fn classify(code: int) -> ErrorKind {
    if code == GP_ERROR_BAD_PARAMETERS {
        ErrorKind::InvalidInput
    } else if code == GP_ERROR_NOT_SUPPORTED {
        ErrorKind::NotSupported
    } else if code == GP_ERROR_CORRUPTED_DATA {
        ErrorKind::CorruptedData
    } else if code == GP_ERROR_FILE_EXISTS {
        ErrorKind::FileExists
    } else if code == GP_ERROR_MODEL_NOT_FOUND {
        ErrorKind::ModelNotFound
    } else if code == GP_ERROR_DIRECTORY_NOT_FOUND {
        ErrorKind::DirectoryNotFound
    } else if code == GP_ERROR_FILE_NOT_FOUND {
        ErrorKind::FileNotFound
    } else if code == GP_ERROR_DIRECTORY_EXISTS {
        ErrorKind::DirectoryExists
    } else if code == GP_ERROR_CAMERA_BUSY {
        ErrorKind::CameraBusy
    } else if code == GP_ERROR_PATH_NOT_ABSOLUTE {
        ErrorKind::PathNotAbsolute
    } else if code == GP_ERROR_CANCEL {
        ErrorKind::Cancel
    } else if code == GP_ERROR_CAMERA_ERROR {
        ErrorKind::CameraError
    } else if code == GP_ERROR_OS_FAILURE {
        ErrorKind::OSFailure
    } else if code == GP_ERROR_NO_SPACE {
        ErrorKind::NoSpace
    } else if code == GP_ERROR_NO_MEMORY {
        ErrorKind::ResourceExhausted
    } else {
        ErrorKind::Other
    }
}

/// The one status code that maps to `kind`, for every kind but `Other`.
pub open spec fn code_of(kind: ErrorKind) -> int {
    match kind {
        ErrorKind::InvalidInput => GP_ERROR_BAD_PARAMETERS as int,
        ErrorKind::NotSupported => GP_ERROR_NOT_SUPPORTED as int,
        ErrorKind::CorruptedData => GP_ERROR_CORRUPTED_DATA as int,
        ErrorKind::ModelNotFound => GP_ERROR_MODEL_NOT_FOUND as int,
        ErrorKind::FileExists => GP_ERROR_FILE_EXISTS as int,
        ErrorKind::DirectoryExists => GP_ERROR_DIRECTORY_EXISTS as int,
        ErrorKind::DirectoryNotFound => GP_ERROR_DIRECTORY_NOT_FOUND as int,
        ErrorKind::FileNotFound => GP_ERROR_FILE_NOT_FOUND as int,
        ErrorKind::CameraBusy => GP_ERROR_CAMERA_BUSY as int,
        ErrorKind::PathNotAbsolute => GP_ERROR_PATH_NOT_ABSOLUTE as int,
        ErrorKind::Cancel => GP_ERROR_CANCEL as int,
        ErrorKind::CameraError => GP_ERROR_CAMERA_ERROR as int,
        ErrorKind::OSFailure => GP_ERROR_OS_FAILURE as int,
        ErrorKind::NoSpace => GP_ERROR_NO_SPACE as int,
        ErrorKind::ResourceExhausted => GP_ERROR_NO_MEMORY as int,
        ErrorKind::Other => GP_ERROR as int,
    }
}

/// Every kind but `Other` is the image of exactly one status code: the code
/// that `code_of` names maps to it, and no other code does. Every remaining
/// code, success included, is `Other`.
pub proof fn classify_maps_each_kind_once(kind: ErrorKind, code: int)
    ensures
        classify(code_of(kind)) == kind,
        kind != ErrorKind::Other ==> (classify(code) == kind <==> code == code_of(kind)),
        classify(code) == ErrorKind::Other <==> (forall|k: ErrorKind|
            k != ErrorKind::Other ==> code != #[trigger] code_of(k)),
{
    if classify(code) != ErrorKind::Other {
        assert(code == code_of(classify(code)));
    }
}

/// An error reported by the native layer: the status code as it came back.
#[derive(Debug, PartialEq, Eq, Structural, Clone, Copy)]
pub struct Error {
    pub err: i32,
}

/// The message used when the native layer has no text for a status code.
pub open spec fn fallback_message() -> Seq<char> {
    "Unknown error"@
}

impl Error {
    /// Returns an error message: the text that the native layer has for the
    /// status code, handed in as `native`, decoded for display. Where the
    /// native layer gave no text (a null pointer), the message is the
    /// fallback. This never fails.
    pub fn message(&self, native: Option<&[u8]>) -> (text: String)
        ensures
            native is None ==> text@ == fallback_message(),
            native matches Some(bytes) ==> text@ == lossy_text(until_nul(bytes@)),
    {
        match native {
            Some(bytes) => c_text_lossy(bytes),
            None => "Unknown error".to_owned(),
        }
    }

    /// Returns the kind of error.
    pub fn kind(&self) -> (kind: ErrorKind)
        ensures
            kind == classify(self.err as int),
    {
        let code: i32 = self.err;
        if code == GP_ERROR_BAD_PARAMETERS {
            ErrorKind::InvalidInput
        } else if code == GP_ERROR_NOT_SUPPORTED {
            ErrorKind::NotSupported
        } else if code == GP_ERROR_CORRUPTED_DATA {
            ErrorKind::CorruptedData
        } else if code == GP_ERROR_FILE_EXISTS {
            ErrorKind::FileExists
        } else if code == GP_ERROR_MODEL_NOT_FOUND {
            ErrorKind::ModelNotFound
        } else if code == GP_ERROR_DIRECTORY_NOT_FOUND {
            ErrorKind::DirectoryNotFound
        } else if code == GP_ERROR_FILE_NOT_FOUND {
            ErrorKind::FileNotFound
        } else if code == GP_ERROR_DIRECTORY_EXISTS {
            ErrorKind::DirectoryExists
        } else if code == GP_ERROR_CAMERA_BUSY {
            ErrorKind::CameraBusy
        } else if code == GP_ERROR_PATH_NOT_ABSOLUTE {
            ErrorKind::PathNotAbsolute
        } else if code == GP_ERROR_CANCEL {
            ErrorKind::Cancel
        } else if code == GP_ERROR_CAMERA_ERROR {
            ErrorKind::CameraError
        } else if code == GP_ERROR_OS_FAILURE {
            ErrorKind::OSFailure
        } else if code == GP_ERROR_NO_SPACE {
            ErrorKind::NoSpace
        } else if code == GP_ERROR_NO_MEMORY {
            ErrorKind::ResourceExhausted
        } else {
            ErrorKind::Other
        }
    }
}

/// Wraps a native status code as an error, unchanged.
pub fn from_libgphoto2(err: i32) -> (e: Error)
    ensures
        e.err == err,
{
    Error { err }
}

/// Maps the status of one native call: success is `GP_OK` alone, and every
/// other status becomes the error that carries it.
pub fn check(status: i32) -> (r: Result<(), Error>)
    ensures
        status == GP_OK ==> r == Ok::<(), Error>(()),
        status != GP_OK ==> r == Err::<(), Error>(Error { err: status }),
{
    if status == GP_OK {
        Ok(())
    } else {
        Err(from_libgphoto2(status))
    }
}

} // verus!
