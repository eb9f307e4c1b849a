use gphoto::error::{
    check, from_libgphoto2, GP_ERROR, GP_ERROR_BAD_PARAMETERS, GP_ERROR_CAMERA_BUSY,
    GP_ERROR_CAMERA_ERROR, GP_ERROR_CANCEL, GP_ERROR_CORRUPTED_DATA, GP_ERROR_DIRECTORY_EXISTS,
    GP_ERROR_DIRECTORY_NOT_FOUND, GP_ERROR_FILE_EXISTS, GP_ERROR_FILE_NOT_FOUND,
    GP_ERROR_MODEL_NOT_FOUND, GP_ERROR_NOT_SUPPORTED, GP_ERROR_NO_MEMORY, GP_ERROR_NO_SPACE,
    GP_ERROR_OS_FAILURE, GP_ERROR_PATH_NOT_ABSOLUTE, GP_OK,
};
use gphoto::{Error, ErrorKind};

fn mapped() -> Vec<(i32, ErrorKind)> {
    vec![
        (-2, ErrorKind::InvalidInput),
        (-6, ErrorKind::NotSupported),
        (-102, ErrorKind::CorruptedData),
        (-103, ErrorKind::FileExists),
        (-105, ErrorKind::ModelNotFound),
        (-107, ErrorKind::DirectoryNotFound),
        (-108, ErrorKind::FileNotFound),
        (-109, ErrorKind::DirectoryExists),
        (-110, ErrorKind::CameraBusy),
        (-111, ErrorKind::PathNotAbsolute),
        (-112, ErrorKind::Cancel),
        (-113, ErrorKind::CameraError),
        (-114, ErrorKind::OSFailure),
        (-115, ErrorKind::NoSpace),
        (-3, ErrorKind::ResourceExhausted),
    ]
}

#[test]
fn status_constants_have_the_native_values() {
    assert_eq!(GP_OK, 0);
    assert_eq!(GP_ERROR, -1);
    assert_eq!(GP_ERROR_BAD_PARAMETERS, -2);
    assert_eq!(GP_ERROR_NO_MEMORY, -3);
    assert_eq!(GP_ERROR_NOT_SUPPORTED, -6);
    assert_eq!(GP_ERROR_CORRUPTED_DATA, -102);
    assert_eq!(GP_ERROR_FILE_EXISTS, -103);
    assert_eq!(GP_ERROR_MODEL_NOT_FOUND, -105);
    assert_eq!(GP_ERROR_DIRECTORY_NOT_FOUND, -107);
    assert_eq!(GP_ERROR_FILE_NOT_FOUND, -108);
    assert_eq!(GP_ERROR_DIRECTORY_EXISTS, -109);
    assert_eq!(GP_ERROR_CAMERA_BUSY, -110);
    assert_eq!(GP_ERROR_PATH_NOT_ABSOLUTE, -111);
    assert_eq!(GP_ERROR_CANCEL, -112);
    assert_eq!(GP_ERROR_CAMERA_ERROR, -113);
    assert_eq!(GP_ERROR_OS_FAILURE, -114);
    assert_eq!(GP_ERROR_NO_SPACE, -115);
}

#[test]
fn kind_of_each_mapped_code() {
    for (code, kind) in mapped() {
        assert_eq!(from_libgphoto2(code).kind(), kind, "code {}", code);
    }
}

#[test]
fn each_kind_has_one_code() {
    let table = mapped();
    for code in -400..400 {
        let kind = from_libgphoto2(code).kind();
        match table.iter().find(|(c, _)| *c == code) {
            Some((_, expected)) => assert_eq!(kind, *expected),
            None => assert_eq!(kind, ErrorKind::Other, "code {}", code),
        }
    }
}

#[test]
fn unmapped_codes_are_other() {
    for code in [-1, 0, 1, -4, -5, -7, -8, -10, -20, -101, -104, -106, -116, i32::MIN, i32::MAX] {
        assert_eq!(from_libgphoto2(code).kind(), ErrorKind::Other, "code {}", code);
    }
}

#[test]
fn from_libgphoto2_keeps_the_code() {
    assert_eq!(from_libgphoto2(-110), Error { err: -110 });
    assert_eq!(from_libgphoto2(7).err, 7);
}

#[test]
fn check_maps_success_and_failure() {
    assert_eq!(check(GP_OK), Ok(()));
    assert_eq!(check(GP_ERROR_CAMERA_BUSY), Err(Error { err: -110 }));
    assert_eq!(check(1), Err(Error { err: 1 }));
}

#[test]
fn message_decodes_the_native_text() {
    let e = from_libgphoto2(GP_ERROR_BAD_PARAMETERS);
    assert_eq!(e.message(Some(b"Bad parameters\0")), "Bad parameters");
    assert_eq!(e.message(Some(b"Bad parameters\0left over")), "Bad parameters");
    assert_eq!(e.message(Some(b"no terminator")), "no terminator");
    assert_eq!(e.message(Some(b"")), "");
}

#[test]
fn message_falls_back_without_native_text() {
    assert_eq!(from_libgphoto2(-9999).message(None), "Unknown error");
}

#[test]
fn message_replaces_invalid_text() {
    let e = from_libgphoto2(GP_ERROR);
    assert_eq!(e.message(Some(&[b'a', 0xff, b'b', 0])), "a\u{fffd}b");
}
