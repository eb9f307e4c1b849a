use gphoto::error::{GP_ERROR_NO_MEMORY, GP_OK};
use gphoto::media::CREATE_MODE;
use gphoto::{ErrorKind, FileMedia, Media, NativeCall};

#[test]
fn create_asks_for_an_exclusive_open() {
    let req = FileMedia::create("IMG_0001.JPG").unwrap();
    assert_eq!(req.path, b"IMG_0001.JPG\0".to_vec());
    assert_eq!(req.mode, 0o644);
    assert_eq!(CREATE_MODE, 0o644);
}

#[test]
fn create_keeps_non_ascii_paths() {
    let req = FileMedia::create("photos/\u{e9}t\u{e9}.jpg").unwrap();
    assert_eq!(req.path, "photos/\u{e9}t\u{e9}.jpg\0".as_bytes().to_vec());
}

#[test]
fn create_refuses_a_path_with_nul() {
    let e = FileMedia::create("a\0b").unwrap_err();
    assert_eq!(e.err, -2);
    assert_eq!(e.kind(), ErrorKind::InvalidInput);
}

#[test]
fn existing_file_is_file_exists() {
    let e = FileMedia::opened(-1).unwrap_err();
    assert_eq!(e.err, -103);
    assert_eq!(e.kind(), ErrorKind::FileExists);
}

#[test]
fn fresh_file_goes_on_to_be_wrapped() {
    assert_eq!(FileMedia::opened(0), Ok(0));
    assert_eq!(FileMedia::opened(7), Ok(7));
    let out = FileMedia::create_internal(7, GP_OK, 0x40);
    assert!(out.follow_up.is_empty());
    assert_eq!(out.result.unwrap().handle(), 0x40);
}

#[test]
fn failed_wrap_closes_the_descriptor() {
    for attempt in 0..16 {
        let fd = 3 + attempt;
        let out = FileMedia::create_internal(fd, GP_ERROR_NO_MEMORY, 0);
        assert_eq!(out.follow_up, vec![NativeCall::Close { fd }]);
        assert_eq!(out.result.unwrap_err().kind(), ErrorKind::ResourceExhausted);
    }
}

#[test]
fn create_mem_wraps_the_native_buffer() {
    let m = FileMedia::create_mem(GP_OK, 0x50).unwrap();
    assert_eq!(m.handle(), 0x50);
    let e = FileMedia::create_mem(GP_ERROR_NO_MEMORY, 0).unwrap_err();
    assert_eq!(e.err, -3);
}

#[test]
fn get_data_copies_the_contents() {
    let mut m = FileMedia::create_mem(GP_OK, 0x50).unwrap();
    let native = vec![0xffu8, 0xd8, 0xff, 0xe0, 0, 1, 2];
    let copy = m.get_data(&native);
    assert_eq!(copy, native);
    assert_eq!(copy.len(), 7);
    assert_eq!(m.get_data(&[]), Vec::<u8>::new());
    assert_eq!(m.handle(), 0x50);
}

#[test]
fn release_orders_one_unref() {
    let m = FileMedia::create_mem(GP_OK, 0x60).unwrap();
    assert_eq!(m.release(), NativeCall::FileUnref { file: 0x60 });
}
