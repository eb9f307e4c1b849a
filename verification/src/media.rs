//! Destinations for the bytes that a download pulls off the device.

use crate::error::{from_libgphoto2, Error, GP_ERROR_BAD_PARAMETERS, GP_ERROR_FILE_EXISTS, GP_OK};
use crate::native::{NativeCall, Outcome};
use crate::text::c_string_bytes;
use vstd::prelude::*;
use vstd::slice::slice_to_vec;
use vstd::utf8::encode_utf8;

verus! {

/// Permission bits of a file that is created to store media.
pub const CREATE_MODE: u32 = 0o644;

/// A type that can store media: it owns a native transfer buffer that a
/// download fills.
pub trait Media {
    /// The handle of the native transfer buffer.
    spec fn sink(&self) -> usize;

    /// The handle of the native transfer buffer, for the native call that
    /// fills it.
    fn handle(&self) -> (h: usize)
        ensures
            h == self.sink(),
    ;
}

/// The request to open the file that will store media: the file at `path`, a
/// NUL-terminated byte string, is to be created for reading and writing with
/// permissions `mode`, and the open must fail where a file exists already.
#[derive(Debug)]
pub struct OpenRequest {
    pub path: Vec<u8>,
    pub mode: u32,
}

/// Media stored as a local file, or in memory.
#[derive(Debug)]
pub struct FileMedia {
    file: usize,
}

impl Media for FileMedia {
    closed spec fn sink(&self) -> usize {
        self.file
    }

    fn handle(&self) -> (h: usize) {
        self.file
    }
}

impl FileMedia {
    /// Starts the creation of a new file that stores media: says which file
    /// to open, and how. A path with a NUL byte in it names no file and is
    /// refused as an invalid parameter.
    pub fn create(path: &str) -> (r: Result<OpenRequest, Error>)
        ensures
            !encode_utf8(path@).contains(0u8) ==> (r matches Ok(req) && req.path@ == encode_utf8(
                path@,
            ).push(0u8) && req.mode == CREATE_MODE),
            encode_utf8(path@).contains(0u8) ==> (r matches Err(e) && e.err
                == GP_ERROR_BAD_PARAMETERS),
    {
        match c_string_bytes(path) {
            Some(bytes) => Ok(OpenRequest { path: bytes, mode: CREATE_MODE }),
            None => Err(from_libgphoto2(GP_ERROR_BAD_PARAMETERS)),
        }
    }

    /// Takes what the exclusive open returned. A negative descriptor means
    /// that the file could not be created, which is reported as an existing
    /// file; otherwise the descriptor is the one to wrap in a native object.
    pub fn opened(fd: i32) -> (r: Result<i32, Error>)
        ensures
            fd >= 0 ==> r == Ok::<i32, Error>(fd),
            fd < 0 ==> r == Err::<i32, Error>(Error { err: GP_ERROR_FILE_EXISTS }),
    {
        if fd < 0 {
            Err(from_libgphoto2(GP_ERROR_FILE_EXISTS))
        } else {
            Ok(fd)
        }
    }

    /// Finishes the creation once the native layer has tried to wrap the
    /// open descriptor `fd`: with `status` a success, `file` is the new
    /// native object and nothing else is to be done. With any other status
    /// the descriptor must be closed before the error is handed on.
    pub fn create_internal(fd: i32, status: i32, file: usize) -> (out: Outcome<FileMedia>)
        ensures
            status == GP_OK ==> (out.result matches Ok(m) && m.sink() == file) && out.follow_up@
                == Seq::<NativeCall>::empty(),
            status != GP_OK ==> (out.result matches Err(e) && e.err == status) && out.follow_up@
                == seq![NativeCall::Close { fd }],
    {
        let mut follow_up: Vec<NativeCall> = Vec::new();
        if status == GP_OK {
            Outcome { result: Ok(FileMedia { file }), follow_up }
        } else {
            follow_up.push(NativeCall::Close { fd });
            Outcome { result: Err(from_libgphoto2(status)), follow_up }
        }
    }

    /// Creates media that is stored in memory, from what the native
    /// allocation of a transfer buffer returned.
    pub fn create_mem(status: i32, file: usize) -> (r: Result<FileMedia, Error>)
        ensures
            status == GP_OK ==> (r matches Ok(m) && m.sink() == file),
            status != GP_OK ==> (r matches Err(e) && e.err == status),
    {
        if status == GP_OK {
            Ok(FileMedia { file })
        } else {
            Err(from_libgphoto2(status))
        }
    }

    /// Returns a copy of the contents, given the bytes that the native
    /// buffer holds at present.
    pub fn get_data(&mut self, data: &[u8]) -> (copy: Vec<u8>)
        ensures
            copy@ == data@,
            final(self).sink() == old(self).sink(),
    {
        slice_to_vec(data)
    }

    /// Gives the media up: its native transfer buffer is released, once.
    pub fn release(self) -> (call: NativeCall)
        ensures
            call == (NativeCall::FileUnref { file: self.sink() }),
    {
        NativeCall::FileUnref { file: self.file }
    }
}

} // verus!
