//! The native calls that the library orders, and the shape in which an
//! operation reports them together with its result.

use crate::error::Error;
use vstd::prelude::*;

verus! {

/// One call into the native driver stack that the caller must perform. The
/// handles are the opaque values that the native layer gave out.
#[derive(Debug, PartialEq, Eq, Structural, Clone, Copy)]
pub enum NativeCall {
    /// Take one more counted reference on a session.
    ContextRef { context: usize },
    /// Give one counted reference on a session back.
    ContextUnref { context: usize },
    /// Initialize a device against its session.
    CameraInit { camera: usize, context: usize },
    /// De-initialize a device, leaving its handle open.
    CameraExit { camera: usize, context: usize },
    /// Give the reference on a device object back.
    CameraUnref { camera: usize },
    /// Give the reference on a transfer buffer back.
    FileUnref { file: usize },
    /// Give the reference on a configuration widget back.
    WidgetUnref { widget: usize },
    /// Close a file descriptor.
    Close { fd: i32 },
}

/// What an operation decided once the native layer had answered: the result
/// for the caller, and the native calls to perform, in order, before that
/// result is handed on.
pub struct Outcome<T> {
    pub result: Result<T, Error>,
    pub follow_up: Vec<NativeCall>,
}

} // verus!
