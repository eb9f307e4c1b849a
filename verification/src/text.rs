//! Text that crosses the native boundary: NUL-terminated buffers coming in,
//! NUL-terminated paths going out.

use vstd::prelude::*;
use vstd::slice::slice_subrange;
use vstd::utf8::{
    decode_first_scalar, decode_utf8, encode_utf8, length_of_first_scalar, pop_first_scalar,
    valid_first_scalar, valid_utf8, valid_utf8_concat,
};

verus! {

/// Length of the C string that starts `s`: the number of bytes before the
/// first NUL, or the whole length where `s` holds none.
pub open spec fn c_len(s: Seq<u8>) -> nat
    decreases s.len(),
{
    if s.len() == 0 || s[0] == 0 {
        0
    } else {
        1 + c_len(s.drop_first())
    }
}

/// The bytes of the C string that starts `s`, without the terminator.
pub open spec fn until_nul(s: Seq<u8>) -> Seq<u8> {
    s.take(c_len(s) as int)
}

/// `c_len(s)` is the one index that is in range, has no NUL before it and, if
/// it is not the end of `s`, holds a NUL.
pub proof fn c_len_is_first_nul(s: Seq<u8>, n: int)
    ensures
        c_len(s) <= s.len(),
        forall|i: int| 0 <= i < c_len(s) ==> s[i] != 0,
        c_len(s) < s.len() ==> s[c_len(s) as int] == 0,
        (0 <= n <= s.len() && (forall|i: int| 0 <= i < n ==> s[i] != 0) && (n < s.len() ==> s[n]
            == 0)) ==> n == c_len(s),
    decreases s.len(),
{
    if s.len() == 0 || s[0] == 0 {
    } else {
        let t = s.drop_first();
        c_len_is_first_nul(t, n - 1);
        assert forall|i: int| 0 <= i < c_len(s) implies s[i] != 0 by {
            if i > 0 {
                assert(s[i] == t[i - 1]);
            }
        }
        assert(c_len(s) < s.len() ==> s[c_len(s) as int] == t[c_len(t) as int]);
        if 0 <= n <= s.len() && (forall|i: int| 0 <= i < n ==> s[i] != 0) && (n < s.len() ==> s[n]
            == 0) {
            assert(n > 0);
            assert forall|i: int| 0 <= i < n - 1 implies t[i] != 0 by {
                assert(t[i] == s[i + 1]);
            }
            assert(n - 1 < t.len() ==> t[n - 1] == s[n]);
        }
    }
}

/// Number of bytes in `buf` before the first NUL; the whole length where the
/// buffer was filled without a terminator.
pub fn c_str_len(buf: &[u8]) -> (n: usize)
    ensures
        n == c_len(buf@),
        n <= buf.len(),
{
    let mut i: usize = 0;
    while i < buf.len() && buf[i] != 0
        invariant
            i <= buf.len(),
            forall|j: int| 0 <= j < i ==> buf@[j] != 0,
        decreases buf.len() - i,
    {
        i += 1;
    }
    proof {
        c_len_is_first_nul(buf@, i as int);
    }
    i
}

/// The bytes of `buf` before the first NUL.
pub fn c_str_bytes(buf: &[u8]) -> (text: &[u8])
    ensures
        text@ == until_nul(buf@),
{
    let n: usize = c_str_len(buf);
    slice_subrange(buf, 0, n)
}

/// What `String::from_utf8_lossy` makes of bytes that are not valid UTF-8:
/// the text with each invalid sequence replaced by U+FFFD.
pub uninterp spec fn replaced_text(bytes: Seq<u8>) -> Seq<char>;

/// The text that lossy decoding gives: the decoded characters where the bytes
/// are valid UTF-8, and the text with replacements where they are not.
pub open spec fn lossy_text(bytes: Seq<u8>) -> Seq<char> {
    if valid_utf8(bytes) {
        decode_utf8(bytes)
    } else {
        replaced_text(bytes)
    }
}

/// Decoding goes through a concatenation: two valid UTF-8 byte strings, put
/// together, decode to the two texts put together.
pub proof fn decode_utf8_concat(a: Seq<u8>, b: Seq<u8>)
    requires
        valid_utf8(a),
        valid_utf8(b),
    ensures
        valid_utf8(a + b),
        decode_utf8(a + b) == decode_utf8(a) + decode_utf8(b),
    decreases a.len(),
{
    valid_utf8_concat(a, b);
    if a.len() == 0 {
        assert(a + b == b);
        assert(decode_utf8(a) == Seq::<char>::empty());
    } else {
        let rest = pop_first_scalar(a);
        assert(valid_first_scalar(a));
        assert(valid_first_scalar(a + b));
        assert(length_of_first_scalar(a + b) == length_of_first_scalar(a));
        assert(decode_first_scalar(a + b) == decode_first_scalar(a));
        assert(pop_first_scalar(a + b) == rest + b);
        decode_utf8_concat(rest, b);
        assert(decode_utf8(a + b) == seq![decode_first_scalar(a) as char] + (decode_utf8(rest)
            + decode_utf8(b)));
    }
}

/// The one byte `/` is valid UTF-8 and decodes to the character `/`.
pub proof fn decode_utf8_slash()
    ensures
        valid_utf8(seq![0x2fu8]),
        decode_utf8(seq![0x2fu8]) == seq!['/'],
{
    let s = seq![0x2fu8];
    assert(0x2fu8 & 0x7f == 0x2f) by (bit_vector);
    assert(valid_first_scalar(s));
    assert(pop_first_scalar(s) == Seq::<u8>::empty());
    assert(valid_utf8(pop_first_scalar(s)));
    assert(valid_utf8(s));
    assert(decode_first_scalar(s) == 0x2f);
    assert(decode_utf8(pop_first_scalar(s)) == Seq::<char>::empty());
    assert(decode_utf8(s) == seq![0x2fu32 as char] + Seq::<char>::empty());
    assert(0x2fu32 as char == '/');
}

/// `String::from_utf8_lossy`, copied into an owned `String`. Trusted: valid
/// UTF-8 comes back as the characters it encodes; any other input comes back
/// as a text that depends on the bytes alone.
#[verifier::external_body]
fn decode_lossy(bytes: &[u8]) -> (text: String)
    ensures
        valid_utf8(bytes@) ==> text@ == decode_utf8(bytes@),
        !valid_utf8(bytes@) ==> text@ == replaced_text(bytes@),
{
    String::from_utf8_lossy(bytes).into_owned()
}

/// `core::str::from_utf8`. Trusted: it accepts exactly the valid UTF-8 byte
/// sequences, and the string it gives holds the characters they encode.
#[verifier::external_body]
fn decode_strict(bytes: &[u8]) -> (text: Option<&str>)
    ensures
        text is Some <==> valid_utf8(bytes@),
        text matches Some(s) ==> s@ == decode_utf8(bytes@),
{
    match core::str::from_utf8(bytes) {
        Ok(s) => Some(s),
        Err(_) => None,
    }
}

/// `cstr_core::CString::new` followed by `into_bytes_with_nul`. Trusted: the
/// conversion fails exactly when the text holds a NUL byte, and otherwise
/// gives the text's bytes with one NUL appended.
#[verifier::external_body]
pub(crate) fn c_string_bytes(text: &str) -> (bytes: Option<Vec<u8>>)
    ensures
        bytes is Some <==> !encode_utf8(text@).contains(0u8),
        bytes matches Some(b) ==> b@ == encode_utf8(text@).push(0u8),
{
    match cstr_core::CString::new(text) {
        Ok(s) => Some(s.into_bytes_with_nul()),
        Err(_) => None,
    }
}

/// Decodes the C string at the start of a native buffer for display: invalid
/// UTF-8 is replaced, never refused.
pub fn c_text_lossy(buf: &[u8]) -> (text: String)
    ensures
        text@ == lossy_text(until_nul(buf@)),
{
    decode_lossy(c_str_bytes(buf))
}

/// Decodes the C string at the start of a native buffer, or `None` where it
/// is not valid UTF-8.
pub fn c_text_strict(buf: &[u8]) -> (text: Option<String>)
    ensures
        text is Some <==> valid_utf8(until_nul(buf@)),
        text matches Some(s) ==> s@ == decode_utf8(until_nul(buf@)),
{
    match decode_strict(c_str_bytes(buf)) {
        Some(s) => Some(s.to_owned()),
        None => None,
    }
}

/// The C string at the start of `buf` with its terminator: what is handed
/// back to the native layer to name the same text.
pub fn c_str_with_nul(buf: &[u8]) -> (bytes: Vec<u8>)
    ensures
        bytes@ == until_nul(buf@).push(0u8),
{
    let text: &[u8] = c_str_bytes(buf);
    let mut out: Vec<u8> = Vec::new();
    let mut i: usize = 0;
    while i < text.len()
        invariant
            i <= text.len(),
            out@ == text@.take(i as int),
        decreases text.len() - i,
    {
        out.push(text[i]);
        assert(text@.take(i + 1) == text@.take(i as int).push(text@[i as int]));
        i += 1;
    }
    assert(text@.take(text.len() as int) == text@);
    out.push(0u8);
    out
}

} // verus!
