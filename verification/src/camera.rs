//! An opened device: its life cycle, and the operations on it.

use crate::abilities::Abilities;
use crate::context::Context;
use crate::error::{
    from_libgphoto2, Error, GP_ERROR_BAD_PARAMETERS, GP_ERROR_CAMERA_BUSY,
    GP_ERROR_CORRUPTED_DATA, GP_OK,
};
use crate::media::Media;
use crate::native::{NativeCall, Outcome};
use crate::port::{Port, PortView};
use crate::storage::Storage;
use crate::text::{
    c_str_with_nul, c_text_lossy, c_text_strict, decode_utf8_concat, decode_utf8_slash, lossy_text,
    until_nul,
};
use vstd::prelude::*;
use vstd::utf8::{decode_utf8, valid_utf8};

verus! {

/// Where a device stands in its life.
#[derive(Debug, PartialEq, Eq, Structural, Clone, Copy)]
pub enum CameraState {
    /// The native object exists and has never been initialized.
    Created,
    /// Initialized and ready for an operation.
    Initialized,
    /// A capture has been requested and has not come back.
    Capturing,
    /// De-initialized after an operation; to be initialized again before
    /// the next one.
    Idle,
    /// Given up: the native object has been released. Terminal.
    Released,
}

/// The representation of a file that a download asks for.
#[derive(Debug, PartialEq, Eq, Structural, Clone, Copy)]
pub enum CameraFileType {
    /// A preview of an image.
    Preview,
    /// The regular, full-resolution file.
    Normal,
    /// The raw data of the camera.
    Raw,
    /// The audio that belongs to the file.
    Audio,
    /// The embedded EXIF data of an image.
    Exif,
    /// The metadata of a file.
    Metadata,
}

/// The representation that a download fetches: the one asked for, or the
/// regular file where none was named.
pub open spec fn file_type_or_normal(file_type: Option<CameraFileType>) -> CameraFileType {
    match file_type {
        Some(t) => t,
        None => CameraFileType::Normal,
    }
}

/// The mathematical value of a device.
pub struct CameraView {
    pub handle: usize,
    pub session: usize,
    pub state: CameraState,
}

impl CameraView {
    /// The same device in another state.
    pub open spec fn with_state(self, state: CameraState) -> CameraView {
        CameraView { handle: self.handle, session: self.session, state }
    }

    /// The code with which an operation is refused that the device is not in
    /// the state for: busy while a capture is running, an invalid parameter
    /// otherwise.
    pub open spec fn refusal(self) -> i32 {
        if self.state == CameraState::Capturing {
            GP_ERROR_CAMERA_BUSY
        } else {
            GP_ERROR_BAD_PARAMETERS
        }
    }

    /// The call that de-initializes the device.
    pub open spec fn exit_call(self) -> NativeCall {
        NativeCall::CameraExit { camera: self.handle, context: self.session }
    }

    /// The call that initializes the device.
    pub open spec fn init_call(self) -> NativeCall {
        NativeCall::CameraInit { camera: self.handle, context: self.session }
    }

    /// The calls that give the device up, in order: a device that is
    /// initialized is de-initialized first, then the reference on the native
    /// object goes back. A released device orders nothing.
    pub open spec fn release_calls(self) -> Seq<NativeCall> {
        match self.state {
            CameraState::Released => Seq::empty(),
            CameraState::Initialized | CameraState::Capturing => seq![
                self.exit_call(),
                NativeCall::CameraUnref { camera: self.handle },
            ],
            _ => seq![NativeCall::CameraUnref { camera: self.handle }],
        }
    }
}

/// How an operation that has talked to the device ends, whatever the native
/// layer answered. Where the device was in the state `expected`, it is
/// de-initialized afterwards and left `Idle`. Where it was not, the operation
/// is refused: nothing changes and nothing is ordered.
pub open spec fn completes<T>(
    before: CameraView,
    expected: CameraState,
    after: CameraView,
    out: Outcome<T>,
) -> bool {
    if before.state == expected {
        after == before.with_state(CameraState::Idle) && out.follow_up@ == seq![before.exit_call()]
    } else {
        after == before && out.follow_up@ == Seq::<NativeCall>::empty() && (out.result matches Err(
            e,
        ) && e.err == before.refusal())
    }
}

/// The number of entries of a native array of reported length `len` that a
/// collection takes over, when `available` entries were read from it.
pub open spec fn storage_count(len: int, available: nat) -> nat {
    if len <= 0 {
        0
    } else if len >= available {
        available
    } else {
        len as nat
    }
}

/// A structure representing a camera connected to the system.
#[derive(Debug)]
pub struct Camera {
    camera: usize,
    context: usize,
    state: CameraState,
}

impl View for Camera {
    type V = CameraView;

    closed spec fn view(&self) -> CameraView {
        CameraView { handle: self.camera, session: self.context, state: self.state }
    }
}

/// The request to fetch one file from the device into a transfer buffer.
/// `folder` and `name` are NUL-terminated.
#[derive(Debug)]
pub struct Transfer {
    pub camera: usize,
    pub context: usize,
    pub folder: Vec<u8>,
    pub name: Vec<u8>,
    pub file_type: CameraFileType,
    pub sink: usize,
}

/// A file stored on a camera's storage: the two fixed buffers in which the
/// native layer reported where a capture went.
#[derive(Debug, Clone, Copy)]
pub struct CameraFile {
    name: [u8; 128],
    folder: [u8; 1024],
}

/// The mathematical value of a capture's location.
pub struct CameraFileView {
    pub folder: Seq<u8>,
    pub name: Seq<u8>,
}

impl View for CameraFile {
    type V = CameraFileView;

    closed spec fn view(&self) -> CameraFileView {
        CameraFileView { folder: self.folder@, name: self.name@ }
    }
}

impl CameraFile {
    /// Returns the directory that the file is stored in, with invalid UTF-8
    /// replaced.
    pub fn directory(&self) -> (text: String)
        ensures
            text@ == lossy_text(until_nul(self@.folder)),
    {
        c_text_lossy(self.folder.as_slice())
    }

    /// Returns the name of the file without the directory, with invalid
    /// UTF-8 replaced.
    pub fn basename(&self) -> (text: String)
        ensures
            text@ == lossy_text(until_nul(self@.name)),
    {
        c_text_lossy(self.name.as_slice())
    }
}

/// The directory of a capture, a path separator and its basename spell the
/// path that the native layer reported: the text of the folder's bytes, `/`
/// and the name's bytes. This holds where both are valid UTF-8; where one is
/// not, the accessors replace what cannot be decoded.
pub proof fn path_round_trip(file: CameraFileView)
    requires
        valid_utf8(until_nul(file.folder)),
        valid_utf8(until_nul(file.name)),
    ensures
        valid_utf8(until_nul(file.folder) + seq![0x2fu8] + until_nul(file.name)),
        lossy_text(until_nul(file.folder)) + seq!['/'] + lossy_text(until_nul(file.name))
            == decode_utf8(until_nul(file.folder) + seq![0x2fu8] + until_nul(file.name)),
{
    decode_utf8_slash();
    decode_utf8_concat(until_nul(file.folder), seq![0x2fu8]);
    decode_utf8_concat(until_nul(file.folder) + seq![0x2fu8], until_nul(file.name));
}

/// Turns a native text buffer into a string: the C string at its start,
/// which must be valid UTF-8. Text that is not is reported as corrupted
/// data.
pub fn camera_text_to_string(camera_text: &[u8]) -> (r: Result<String, Error>)
    ensures
        valid_utf8(until_nul(camera_text@)) ==> (r matches Ok(s) && s@ == decode_utf8(
            until_nul(camera_text@),
        )),
        !valid_utf8(until_nul(camera_text@)) ==> (r matches Err(e) && e.err
            == GP_ERROR_CORRUPTED_DATA),
{
    match c_text_strict(camera_text) {
        Some(s) => Ok(s),
        None => Err(from_libgphoto2(GP_ERROR_CORRUPTED_DATA)),
    }
}

/// What a request for one of the device's texts gives once the native layer
/// has answered with `status` and filled `text`: a failure of the native call
/// is reported as it is and the buffer is not read; otherwise the buffer is
/// decoded.
pub open spec fn text_reply(status: i32, text: Seq<u8>, r: Result<String, Error>) -> bool {
    if status != GP_OK {
        r matches Err(e) && e.err == status
    } else if valid_utf8(until_nul(text)) {
        r matches Ok(s) && s@ == decode_utf8(until_nul(text))
    } else {
        r matches Err(e) && e.err == GP_ERROR_CORRUPTED_DATA
    }
}

impl Camera {
    /// The native handle of the device.
    pub fn handle(&self) -> (h: usize)
        ensures
            h == self@.handle,
    {
        self.camera
    }

    /// The native handle of the session that the device was opened in.
    pub fn session(&self) -> (h: usize)
        ensures
            h == self@.session,
    {
        self.context
    }

    /// The state of the device.
    pub fn state(&self) -> (s: CameraState)
        ensures
            s == self@.state,
    {
        self.state
    }

    fn refuse(&self) -> (e: Error)
        ensures
            e.err == self@.refusal(),
    {
        match self.state {
            CameraState::Capturing => from_libgphoto2(GP_ERROR_CAMERA_BUSY),
            _ => from_libgphoto2(GP_ERROR_BAD_PARAMETERS),
        }
    }

    /// Ends an operation that ran in the state `expected`: orders the
    /// de-initialization and leaves the device idle, or refuses.
    fn complete<T>(&mut self, expected: CameraState, result: Result<T, Error>) -> (out: Outcome<T>)
        ensures
            completes(old(self)@, expected, final(self)@, out),
            old(self)@.state == expected ==> out.result == result,
    {
        let mut follow_up: Vec<NativeCall> = Vec::new();
        if self.state == expected {
            follow_up.push(NativeCall::CameraExit { camera: self.camera, context: self.context });
            self.state = CameraState::Idle;
            Outcome { result, follow_up }
        } else {
            Outcome { result: Err(self.refuse()), follow_up }
        }
    }

    /// Takes what the native allocation of a device object returned, and
    /// binds the new device to `context` as one more holder of it.
    ///
    /// On success the device is `Created` and one reference on the session
    /// is to be taken. Where the allocation failed, its status is the error.
    /// Where it succeeded but the session cannot be shared (it is released,
    /// or its count is full), the new native object is given back and the
    /// session is refused as an invalid parameter.
    pub fn allocate(context: &mut Context, status: i32, camera: usize) -> (out: Outcome<Camera>)
        ensures
            status != GP_OK ==> (out.result matches Err(e) && e.err == status) && out.follow_up@
                == Seq::<NativeCall>::empty() && final(context)@ == old(context)@,
            status == GP_OK && old(context)@.is_live() && old(context)@.holders < usize::MAX ==> (
            out.result matches Ok(c) && c@ == (CameraView {
                handle: camera,
                session: old(context)@.handle,
                state: CameraState::Created,
            })) && out.follow_up@ == seq![
                NativeCall::ContextRef { context: old(context)@.handle },
            ] && final(context)@ == old(context)@.share(),
            status == GP_OK && !(old(context)@.is_live() && old(context)@.holders < usize::MAX)
                ==> (out.result matches Err(e) && e.err == GP_ERROR_BAD_PARAMETERS)
                && out.follow_up@ == seq![NativeCall::CameraUnref { camera }] && final(context)@
                == old(context)@,
    {
        let mut follow_up: Vec<NativeCall> = Vec::new();
        if status != GP_OK {
            return Outcome { result: Err(from_libgphoto2(status)), follow_up };
        }
        match context.share() {
            Some(call) => {
                follow_up.push(call);
                let device = Camera {
                    camera,
                    context: context.handle(),
                    state: CameraState::Created,
                };
                Outcome { result: Ok(device), follow_up }
            },
            None => {
                follow_up.push(NativeCall::CameraUnref { camera });
                Outcome { result: Err(from_libgphoto2(GP_ERROR_BAD_PARAMETERS)), follow_up }
            },
        }
    }

    /// Opens the device: takes the status of the native initialization of a
    /// `Created` device.
    ///
    /// On success the device is `Initialized`. On failure the device is
    /// given up before the error is handed on: its native object and its
    /// reference on the session go back, and it is `Released`. A device that
    /// is not `Created` is refused, unchanged.
    pub fn autodetect(&mut self, context: &mut Context, status: i32) -> (out: Outcome<()>)
        requires
            old(self)@.session == old(context)@.handle,
        ensures
            old(self)@.state == CameraState::Created && status == GP_OK ==> out.result == Ok::<
                (),
                Error,
            >(()) && out.follow_up@ == Seq::<NativeCall>::empty() && final(self)@ == old(self)@.with_state(CameraState::Initialized) && final(context)@ == old(context)@,
            old(self)@.state == CameraState::Created && status != GP_OK ==> out.result == Err::<
                (),
                Error,
            >(Error { err: status }) && final(self)@ == old(self)@.with_state(
                CameraState::Released,
            ) && final(context)@ == old(context)@.release() && out.follow_up@ == seq![
                NativeCall::CameraUnref { camera: old(self)@.handle },
            ] + match old(context)@.release_call() {
                Some(call) => seq![call],
                None => Seq::<NativeCall>::empty(),
            },
            old(self)@.state != CameraState::Created ==> out.result == Err::<(), Error>(
                Error { err: old(self)@.refusal() },
            ) && out.follow_up@ == Seq::<NativeCall>::empty() && final(self)@ == old(self)@
                && final(context)@ == old(context)@,
    {
        let mut follow_up: Vec<NativeCall> = Vec::new();
        if self.state != CameraState::Created {
            return Outcome { result: Err(self.refuse()), follow_up };
        }
        if status == GP_OK {
            self.state = CameraState::Initialized;
            Outcome { result: Ok(()), follow_up }
        } else {
            follow_up.push(NativeCall::CameraUnref { camera: self.camera });
            match context.release() {
                Some(call) => {
                    follow_up.push(call);
                },
                None => {},
            }
            self.state = CameraState::Released;
            Outcome { result: Err(from_libgphoto2(status)), follow_up }
        }
    }

    /// Says what an operation needs before it can start: nothing for an
    /// initialized device, an initialization for an idle one. A device that
    /// is capturing is busy; one that was never opened, or was released, is
    /// an invalid parameter.
    pub fn prepare(&self) -> (r: Result<Option<NativeCall>, Error>)
        ensures
            self@.state == CameraState::Initialized ==> r == Ok::<Option<NativeCall>, Error>(None),
            self@.state == CameraState::Idle ==> r == Ok::<Option<NativeCall>, Error>(
                Some(self@.init_call()),
            ),
            self@.state != CameraState::Initialized && self@.state != CameraState::Idle ==> r
                == Err::<Option<NativeCall>, Error>(Error { err: self@.refusal() }),
    {
        match self.state {
            CameraState::Initialized => Ok(None),
            CameraState::Idle => Ok(
                Some(NativeCall::CameraInit { camera: self.camera, context: self.context }),
            ),
            _ => Err(self.refuse()),
        }
    }

    /// Takes the status of the initialization that `prepare` ordered for an
    /// idle device: on success the device is `Initialized` again, on failure
    /// it stays `Idle` and can be initialized later. In any other state the
    /// call is refused, unchanged.
    pub fn init(&mut self, status: i32) -> (r: Result<(), Error>)
        ensures
            old(self)@.state == CameraState::Idle && status == GP_OK ==> r == Ok::<(), Error>(())
                && final(self)@ == old(self)@.with_state(CameraState::Initialized),
            old(self)@.state == CameraState::Idle && status != GP_OK ==> r == Err::<(), Error>(
                Error { err: status },
            ) && final(self)@ == old(self)@,
            old(self)@.state != CameraState::Idle ==> r == Err::<(), Error>(
                Error { err: old(self)@.refusal() },
            ) && final(self)@ == old(self)@,
    {
        if self.state != CameraState::Idle {
            return Err(self.refuse());
        }
        if status == GP_OK {
            self.state = CameraState::Initialized;
            Ok(())
        } else {
            Err(from_libgphoto2(status))
        }
    }

    /// Starts a capture: an initialized device becomes `Capturing`; any
    /// other is refused, unchanged.
    pub fn begin_capture(&mut self) -> (r: Result<(), Error>)
        ensures
            old(self)@.state == CameraState::Initialized ==> r == Ok::<(), Error>(()) && final(self)@ == old(self)@.with_state(CameraState::Capturing),
            old(self)@.state != CameraState::Initialized ==> r == Err::<(), Error>(
                Error { err: old(self)@.refusal() },
            ) && final(self)@ == old(self)@,
    {
        if self.state == CameraState::Initialized {
            self.state = CameraState::Capturing;
            Ok(())
        } else {
            Err(self.refuse())
        }
    }

    /// Captures an image: takes what the native capture returned, the status
    /// and the two buffers that name the new file.
    ///
    /// The capture ends whatever the status: the device leaves `Capturing`,
    /// is de-initialized and left `Idle`. A success gives the file's location
    /// as reported; any other status is the error.
    pub fn capture_image(&mut self, status: i32, name: [u8; 128], folder: [u8; 1024]) -> (out:
        Outcome<CameraFile>)
        ensures
            completes(old(self)@, CameraState::Capturing, final(self)@, out),
            old(self)@.state == CameraState::Capturing && status == GP_OK ==> (
            out.result matches Ok(f) && f@ == (CameraFileView { folder: folder@, name: name@ })),
            old(self)@.state == CameraState::Capturing && status != GP_OK ==> (
            out.result matches Err(e) && e.err == status),
    {
        let result: Result<CameraFile, Error> = if status == GP_OK {
            Ok(CameraFile { name, folder })
        } else {
            Err(from_libgphoto2(status))
        };
        self.complete(CameraState::Capturing, result)
    }

    /// Set a setting to a specific value: takes the status of the native
    /// configuration call and the configuration widget that was allocated
    /// for it. The widget goes back whatever the status.
    pub fn set_setting(&mut self, widget: usize, status: i32) -> (out: Outcome<()>)
        ensures
            old(self)@.state == CameraState::Initialized ==> final(self)@ == old(self)@.with_state(CameraState::Idle) && out.follow_up@ == seq![
                NativeCall::WidgetUnref { widget },
                old(self)@.exit_call(),
            ],
            old(self)@.state == CameraState::Initialized && status == GP_OK ==> out.result == Ok::<
                (),
                Error,
            >(()),
            old(self)@.state == CameraState::Initialized && status != GP_OK ==> out.result == Err::<
                (),
                Error,
            >(Error { err: status }),
            old(self)@.state != CameraState::Initialized ==> final(self)@ == old(self)@
                && out.follow_up@ == seq![NativeCall::WidgetUnref { widget }] && out.result
                == Err::<(), Error>(Error { err: old(self)@.refusal() }),
    {
        let mut follow_up: Vec<NativeCall> = Vec::new();
        follow_up.push(NativeCall::WidgetUnref { widget });
        if self.state != CameraState::Initialized {
            return Outcome { result: Err(self.refuse()), follow_up };
        }
        follow_up.push(NativeCall::CameraExit { camera: self.camera, context: self.context });
        self.state = CameraState::Idle;
        if status == GP_OK {
            Outcome { result: Ok(()), follow_up }
        } else {
            Outcome { result: Err(from_libgphoto2(status)), follow_up }
        }
    }

    /// Downloads a file from the camera: says which native transfer to make.
    ///
    /// The transfer names the file by the C strings of `source`, fills the
    /// buffer of `destination`, and fetches the representation `file_type`,
    /// or the regular file where none is given. A device that is not
    /// initialized is refused.
    pub fn download<T: Media>(
        &self,
        source: &CameraFile,
        destination: &mut T,
        file_type: Option<CameraFileType>,
    ) -> (r: Result<Transfer, Error>)
        ensures
            final(destination).sink() == old(destination).sink(),
            self@.state == CameraState::Initialized ==> (r matches Ok(t) && t.camera
                == self@.handle && t.context == self@.session && t.folder@ == until_nul(
                source@.folder,
            ).push(0u8) && t.name@ == until_nul(source@.name).push(0u8) && t.file_type
                == file_type_or_normal(file_type) && t.sink == old(destination).sink()),
            self@.state != CameraState::Initialized ==> (r matches Err(e) && e.err
                == self@.refusal()),
    {
        if self.state != CameraState::Initialized {
            return Err(self.refuse());
        }
        let file_type: CameraFileType = match file_type {
            Some(t) => t,
            None => CameraFileType::Normal,
        };
        Ok(
            Transfer {
                camera: self.camera,
                context: self.context,
                folder: c_str_with_nul(source.folder.as_slice()),
                name: c_str_with_nul(source.name.as_slice()),
                file_type,
                sink: destination.handle(),
            },
        )
    }

    /// Ends a download: takes the status of the native transfer.
    pub fn downloaded(&mut self, status: i32) -> (out: Outcome<()>)
        ensures
            completes(old(self)@, CameraState::Initialized, final(self)@, out),
            old(self)@.state == CameraState::Initialized && status == GP_OK ==> out.result == Ok::<
                (),
                Error,
            >(()),
            old(self)@.state == CameraState::Initialized && status != GP_OK ==> out.result == Err::<
                (),
                Error,
            >(Error { err: status }),
    {
        let result: Result<(), Error> = if status == GP_OK {
            Ok(())
        } else {
            Err(from_libgphoto2(status))
        };
        self.complete(CameraState::Initialized, result)
    }

    /// Returns information about the port the camera is connected to, from
    /// what the native layer reported of it. The description borrows the
    /// device.
    ///
    /// The native query cannot fail for an opened device: its status must be
    /// a success.
    pub fn port(&self, status: i32, kind: i32, name: Vec<u8>, path: Vec<u8>) -> (port: Port<'_>)
        requires
            status == GP_OK,
        ensures
            port@ == (PortView { kind: kind as int, name: name@, path: path@ }),
            port.owner() == *self,
    {
        crate::port::from_libgphoto2(self, kind, name, path)
    }

    /// Retrieves the camera's abilities, as the native layer reported them.
    ///
    /// The native query cannot fail for an opened device: its status must be
    /// a success.
    pub fn abilities(&self, status: i32, reported: Abilities) -> (abilities: Abilities)
        requires
            status == GP_OK,
        ensures
            abilities == reported,
    {
        reported
    }

    /// The number of entries to read from the native array of filesystems:
    /// none unless the query succeeded and gave an array that is there and
    /// has a positive length.
    pub fn storage_len(status: i32, array: usize, len: i32) -> (n: usize)
        ensures
            status == GP_OK && array != 0 && len > 0 ==> n == len,
            !(status == GP_OK && array != 0 && len > 0) ==> n == 0,
    {
        if status == GP_OK && array != 0 && len > 0 {
            len as usize
        } else {
            0
        }
    }

    /// Retrieves information about the camera's storage: takes the status
    /// of the native query, the length that it reported, and the entries that
    /// were read from its array.
    ///
    /// Returns one `Storage` for each filesystem on the device: as many of
    /// `entries`, from the front, as the reported length covers. A length of
    /// zero gives an empty collection.
    pub fn storage(&mut self, status: i32, len: i32, entries: Vec<Storage>) -> (out: Outcome<
        Vec<Storage>,
    >)
        ensures
            completes(old(self)@, CameraState::Initialized, final(self)@, out),
            old(self)@.state == CameraState::Initialized && status == GP_OK ==> (
            out.result matches Ok(v) && v@ == entries@.take(
                storage_count(len as int, entries@.len()) as int,
            )),
            old(self)@.state == CameraState::Initialized && status != GP_OK ==> (
            out.result matches Err(e) && e.err == status),
    {
        let result: Result<Vec<Storage>, Error> = if status == GP_OK {
            let mut entries = entries;
            let keep: usize = if len <= 0 {
                0
            } else if len as usize >= entries.len() {
                entries.len()
            } else {
                len as usize
            };
            entries.truncate(keep);
            Ok(entries)
        } else {
            Err(from_libgphoto2(status))
        };
        self.complete(CameraState::Initialized, result)
    }

    /// Ends a request for one of the device's texts.
    fn text(&mut self, status: i32, text: &[u8]) -> (out: Outcome<String>)
        ensures
            completes(old(self)@, CameraState::Initialized, final(self)@, out),
            old(self)@.state == CameraState::Initialized ==> text_reply(
                status,
                text@,
                out.result,
            ),
    {
        let result: Result<String, Error> = if status == GP_OK {
            camera_text_to_string(text)
        } else {
            Err(from_libgphoto2(status))
        };
        self.complete(CameraState::Initialized, result)
    }

    /// Returns the camera's summary: takes the status of the native query
    /// and the text buffer that it filled.
    ///
    /// The summary typically contains non-configurable information about
    /// the camera, such as manufacturer and number of pictures taken.
    ///
    /// ## Errors
    ///
    /// * the status itself where the query failed, such as `NotSupported`
    ///   if there is no summary available for the camera;
    /// * `CorruptedData` if the summary is invalid UTF-8.
    pub fn summary(&mut self, status: i32, text: &[u8]) -> (out: Outcome<String>)
        ensures
            completes(old(self)@, CameraState::Initialized, final(self)@, out),
            old(self)@.state == CameraState::Initialized ==> text_reply(
                status,
                text@,
                out.result,
            ),
    {
        self.text(status, text)
    }

    /// Returns the camera's manual: takes the status of the native query and
    /// the text buffer that it filled.
    ///
    /// The manual contains information about using the camera.
    ///
    /// ## Errors
    ///
    /// * the status itself where the query failed, such as `NotSupported`
    ///   if there is no manual available for the camera;
    /// * `CorruptedData` if the manual is invalid UTF-8.
    pub fn manual(&mut self, status: i32, text: &[u8]) -> (out: Outcome<String>)
        ensures
            completes(old(self)@, CameraState::Initialized, final(self)@, out),
            old(self)@.state == CameraState::Initialized ==> text_reply(
                status,
                text@,
                out.result,
            ),
    {
        self.text(status, text)
    }

    /// Returns information about the camera driver: takes the status of the
    /// native query and the text buffer that it filled.
    ///
    /// This text typically contains information about the driver's author,
    /// acknowledgements, etc.
    ///
    /// ## Errors
    ///
    /// * the status itself where the query failed, such as `NotSupported`
    ///   if there is no about text available for the camera's driver;
    /// * `CorruptedData` if the text is invalid UTF-8.
    pub fn about_driver(&mut self, status: i32, text: &[u8]) -> (out: Outcome<String>)
        ensures
            completes(old(self)@, CameraState::Initialized, final(self)@, out),
            old(self)@.state == CameraState::Initialized ==> text_reply(
                status,
                text@,
                out.result,
            ),
    {
        self.text(status, text)
    }

    /// Gives the device up, once: orders what reverses its opening, gives
    /// its reference on the session back, and leaves it `Released`. A
    /// released device orders nothing more.
    pub fn release(&mut self, context: &mut Context) -> (calls: Vec<NativeCall>)
        requires
            old(self)@.session == old(context)@.handle,
        ensures
            final(self)@ == old(self)@.with_state(CameraState::Released),
            old(self)@.state == CameraState::Released ==> calls@ == Seq::<NativeCall>::empty()
                && final(context)@ == old(context)@,
            old(self)@.state != CameraState::Released ==> final(context)@ == old(context)@.release() && calls@ == old(self)@.release_calls() + match old(context)@.release_call() {
                Some(call) => seq![call],
                None => Seq::<NativeCall>::empty(),
            },
    {
        let mut calls: Vec<NativeCall> = Vec::new();
        match self.state {
            CameraState::Released => {
                return calls;
            },
            CameraState::Initialized | CameraState::Capturing => {
                calls.push(NativeCall::CameraExit { camera: self.camera, context: self.context });
            },
            _ => {},
        }
        calls.push(NativeCall::CameraUnref { camera: self.camera });
        match context.release() {
            Some(call) => {
                calls.push(call);
            },
            None => {},
        }
        self.state = CameraState::Released;
        calls
    }
}

} // verus!
