use gphoto::text::{c_str_bytes, c_str_len, c_str_with_nul, c_text_lossy, c_text_strict};

#[test]
fn c_str_len_stops_at_the_first_nul() {
    assert_eq!(c_str_len(b"abc\0def\0"), 3);
    assert_eq!(c_str_len(b"\0abc"), 0);
    assert_eq!(c_str_len(b""), 0);
}

#[test]
fn c_str_len_of_an_unterminated_buffer_is_its_length() {
    assert_eq!(c_str_len(b"abc"), 3);
    assert_eq!(c_str_len(&[1u8; 64]), 64);
}

#[test]
fn c_str_bytes_cuts_before_the_terminator() {
    assert_eq!(c_str_bytes(b"DCIM\0\0\0"), b"DCIM");
    assert_eq!(c_str_bytes(b"DCIM"), b"DCIM");
    assert_eq!(c_str_bytes(b"\0DCIM"), b"");
}

#[test]
fn c_str_with_nul_appends_one_terminator() {
    assert_eq!(c_str_with_nul(b"IMG_1.JPG\0junk"), b"IMG_1.JPG\0".to_vec());
    assert_eq!(c_str_with_nul(b"IMG_1.JPG"), b"IMG_1.JPG\0".to_vec());
    assert_eq!(c_str_with_nul(b""), vec![0u8]);
}

#[test]
fn lossy_text_of_valid_utf8_is_the_text() {
    assert_eq!(c_text_lossy("Universal Serial Bus\0".as_bytes()), "Universal Serial Bus");
    assert_eq!(c_text_lossy("caf\u{e9}\0".as_bytes()), "caf\u{e9}");
}

#[test]
fn lossy_text_replaces_invalid_sequences() {
    assert_eq!(c_text_lossy(b"Hello \xF0\x90\x80World\0"), "Hello \u{fffd}World");
    assert_eq!(c_text_lossy(&[0xff, 0]), "\u{fffd}");
}

#[test]
fn strict_text_accepts_valid_utf8_only() {
    assert_eq!(c_text_strict(b"Model: X\0rest"), Some("Model: X".to_string()));
    assert_eq!(c_text_strict("gr\u{fc}n\0".as_bytes()), Some("gr\u{fc}n".to_string()));
    assert_eq!(c_text_strict(&[b'a', 0x80, 0]), None);
    assert_eq!(c_text_strict(b""), Some(String::new()));
}

#[test]
fn strict_text_ignores_what_follows_the_terminator() {
    assert_eq!(c_text_strict(&[b'o', b'k', 0, 0xff, 0xfe]), Some("ok".to_string()));
}
