//! The escaping of the `Path` field of a trash record.
//!
//! A path is written as the bytes of its UTF-8 form. Control bytes, the
//! space, a fixed set of punctuation and every byte outside ASCII are written
//! as `%` and two upper-case hexadecimal digits; every other byte, `/` among
//! them, stands for itself. Reading undoes this: `%` and two hexadecimal
//! digits of either case give one byte, anything else is taken as it stands.

use vstd::prelude::*;
use crate::text::is_single_line;
use vstd::utf8::*;

verus! {

/// Whether the byte is written as an escape.
pub open spec fn is_escaped_byte(b: u8) -> bool {
    b <= 0x1f || b >= 0x7f || b == 0x20 || b == 0x22 || b == 0x23 || b == 0x25 || b == 0x3c || b
        == 0x3e || b == 0x5c || b == 0x5e || b == 0x60 || b == 0x7b || b == 0x7c || b == 0x7d
}

/// The upper-case hexadecimal digit for a value below sixteen.
pub open spec fn hex_digit(n: u8) -> u8 {
    if n < 10 {
        (0x30 + n) as u8
    } else {
        (0x37 + n) as u8
    }
}

/// The three bytes that escape `b`.
pub open spec fn escape_of(b: u8) -> Seq<u8> {
    seq![0x25u8, hex_digit(b / 16), hex_digit(b % 16)]
}

/// What one byte becomes when a path is written.
pub open spec fn encode_byte(b: u8) -> Seq<u8> {
    if is_escaped_byte(b) {
        escape_of(b)
    } else {
        seq![b]
    }
}

/// The escaped form of a sequence of bytes.
pub open spec fn encode_bytes(s: Seq<u8>) -> Seq<u8>
    decreases s.len(),
{
    if s.len() == 0 {
        seq![]
    } else {
        encode_byte(s[0]) + encode_bytes(s.drop_first())
    }
}

/// The value of a hexadecimal digit of either case.
pub open spec fn hex_value(c: u8) -> Option<u8> {
    if 0x30 <= c <= 0x39 {
        Some((c - 0x30) as u8)
    } else if 0x41 <= c <= 0x46 {
        Some((c - 0x37) as u8)
    } else if 0x61 <= c <= 0x66 {
        Some((c - 0x57) as u8)
    } else {
        None
    }
}

/// Whether `s` begins with `%` and two hexadecimal digits.
pub open spec fn starts_with_escape(s: Seq<u8>) -> bool {
    s.len() >= 3 && s[0] == 0x25 && hex_value(s[1]) is Some && hex_value(s[2]) is Some
}

/// The bytes that an escaped sequence stands for.
pub open spec fn decode_bytes(s: Seq<u8>) -> Seq<u8>
    decreases s.len(),
{
    if s.len() == 0 {
        seq![]
    } else if starts_with_escape(s) {
        seq![(hex_value(s[1])->0 * 16 + hex_value(s[2])->0) as u8] + decode_bytes(s.skip(3))
    } else {
        seq![s[0]] + decode_bytes(s.drop_first())
    }
}

/// The text whose characters are the given ASCII bytes.
pub open spec fn ascii_text(bytes: Seq<u8>) -> Seq<char> {
    Seq::new(bytes.len(), |i: int| bytes[i] as char)
}

/// The escaped form of a path.
pub open spec fn encoded_path(path: Seq<char>) -> Seq<char> {
    ascii_text(encode_bytes(encode_utf8(path)))
}

/// The path that an escaped text stands for, where its bytes are UTF-8.
pub open spec fn decoded_path(text: Seq<char>) -> Option<Seq<char>> {
    let bytes = decode_bytes(encode_utf8(text));
    if valid_utf8(bytes) {
        Some(decode_utf8(bytes))
    } else {
        None
    }
}

/// The escaped text did not stand for UTF-8.
#[derive(Debug, Clone, Copy, PartialEq, Eq)]
pub struct InvalidUtf8;

/// Trusted: makes `core::str::Utf8Error` known as a type of which nothing
/// is read; it is only handed on.
#[verifier::external_type_specification]
#[verifier::external_body]
pub struct ExUtf8Error(core::str::Utf8Error);

/// The escape of one byte.
///
/// Trusted: stands for `percent_encoding::percent_encode_byte`, which returns
/// `%` followed by the byte's value as two upper-case hexadecimal digits.
#[verifier::external_body]
fn percent_encode_byte(b: u8) -> (r: &'static str)
    ensures
        r@ == ascii_text(escape_of(b)),
{
    percent_encoding::percent_encode_byte(b)
}

/// Undoes the escaping of `text` and reads the bytes as UTF-8.
///
/// Trusted: stands for `percent_encoding::percent_decode_str` followed by
/// `PercentDecode::decode_utf8`. The first replaces each `%` that two
/// hexadecimal digits follow by the byte they write and keeps every other
/// byte; the second returns the text of those bytes where they are
/// well-formed UTF-8 and an error where they are not.
#[verifier::external_body]
fn percent_decode_utf8(text: &str) -> (r: Result<String, core::str::Utf8Error>)
    ensures
        r is Ok == decoded_path(text@) is Some,
        r matches Ok(path) ==> path@ == decoded_path(text@)->0,
{
    match percent_encoding::percent_decode_str(text).decode_utf8() {
        Ok(path) => Ok(path.into_owned()),
        Err(e) => Err(e),
    }
}

/// Whether the byte is written as an escape.
pub fn should_escape(b: u8) -> (r: bool)
    ensures
        r == is_escaped_byte(b),
{
    b <= 0x1f || b >= 0x7f || b == 0x20 || b == 0x22 || b == 0x23 || b == 0x25 || b == 0x3c || b
        == 0x3e || b == 0x5c || b == 0x5e || b == 0x60 || b == 0x7b || b == 0x7c || b == 0x7d
}

/// Escaping works piece by piece.
pub proof fn lemma_encode_bytes_concat(a: Seq<u8>, b: Seq<u8>)
    ensures
        encode_bytes(a + b) == encode_bytes(a) + encode_bytes(b),
    decreases a.len(),
{
    if a.len() == 0 {
        assert(a + b == b);
    } else {
        assert((a + b).drop_first() == a.drop_first() + b);
        lemma_encode_bytes_concat(a.drop_first(), b);
    }
}

/// No escaped byte sequence holds a control byte.
pub proof fn lemma_encode_bytes_printable(s: Seq<u8>)
    ensures
        forall|i: int|
            0 <= i < encode_bytes(s).len() ==> 0x20 < #[trigger] encode_bytes(s)[i]
                && encode_bytes(s)[i] < 0x7f,
    decreases s.len(),
{
    if s.len() > 0 {
        let head = encode_byte(s[0]);
        let rest = encode_bytes(s.drop_first());
        lemma_encode_bytes_printable(s.drop_first());
        assert forall|i: int| 0 <= i < encode_bytes(s).len() implies 0x20
            < #[trigger] encode_bytes(s)[i] && encode_bytes(s)[i] < 0x7f by {
            if i < head.len() {
                assert(encode_bytes(s)[i] == head[i]);
            } else {
                assert(encode_bytes(s)[i] == rest[i - head.len()]);
            }
        }
    }
}

/// An escaped path is a single line.
pub proof fn lemma_encoded_path_single_line(path: Seq<char>)
    ensures
        is_single_line(encoded_path(path)),
{
    let bytes = encode_bytes(encode_utf8(path));
    lemma_encode_bytes_printable(encode_utf8(path));
    assert forall|i: int| 0 <= i < encoded_path(path).len() implies encoded_path(path)[i] != '\n'
        && encoded_path(path)[i] != '\r' by {
        assert(encoded_path(path)[i] == bytes[i] as char);
        assert(0x20 < bytes[i] && bytes[i] < 0x7f);
    }
}

/// Reading an escaped sequence gives back the bytes that were written.
pub proof fn lemma_decode_encode_bytes(s: Seq<u8>)
    ensures
        decode_bytes(encode_bytes(s)) == s,
    decreases s.len(),
{
    if s.len() > 0 {
        let b = s[0];
        let rest = encode_bytes(s.drop_first());
        let all = encode_bytes(s);
        lemma_decode_encode_bytes(s.drop_first());
        if is_escaped_byte(b) {
            assert(hex_value(hex_digit(b / 16)) == Some(b / 16));
            assert(hex_value(hex_digit(b % 16)) == Some(b % 16));
            assert(starts_with_escape(all));
            assert(all.skip(3) == rest);
            assert(((b / 16) * 16 + b % 16) as u8 == b);
        } else {
            assert(!starts_with_escape(all));
            assert(all.drop_first() == rest);
        }
        assert(s == seq![b] + s.drop_first());
    }
}

/// The UTF-8 form of a text of ASCII bytes is those bytes.
pub proof fn lemma_ascii_text_bytes(bytes: Seq<u8>)
    requires
        forall|i: int| 0 <= i < bytes.len() ==> bytes[i] < 0x80,
    ensures
        encode_utf8(ascii_text(bytes)) == bytes,
{
    let text = ascii_text(bytes);
    assert(is_ascii_chars(text));
    is_ascii_chars_encode_utf8(text);
    assert forall|i: int| 0 <= i < bytes.len() implies encode_utf8(text)[i] == bytes[i] by {
        assert(text[i] as u8 == encode_utf8(text)[i]);
        assert(text[i] == bytes[i] as char);
    }
    assert(encode_utf8(text) =~= bytes);
}

/// Writing a path and reading it back gives the path, whatever characters it
/// holds.
pub proof fn lemma_decode_encode_round_trip(path: Seq<char>)
    ensures
        decoded_path(encoded_path(path)) == Some(path),
{
    let raw = encode_utf8(path);
    lemma_encode_bytes_printable(raw);
    lemma_ascii_text_bytes(encode_bytes(raw));
    lemma_decode_encode_bytes(raw);
    encode_utf8_valid_utf8(path);
    encode_utf8_decode_utf8(path);
}

/// The UTF-8 form of a text is the UTF-8 forms of its parts, in order.
pub proof fn lemma_encode_utf8_concat(a: Seq<char>, b: Seq<char>)
    ensures
        encode_utf8(a + b) == encode_utf8(a) + encode_utf8(b),
    decreases a.len(),
{
    if a.len() == 0 {
        assert(a + b == b);
    } else {
        assert((a + b).drop_first() == a.drop_first() + b);
        lemma_encode_utf8_concat(a.drop_first(), b);
    }
}

/// The escaped form of a text is the escaped forms of its parts, in order.
pub proof fn lemma_encoded_path_concat(a: Seq<char>, b: Seq<char>)
    ensures
        encoded_path(a + b) == encoded_path(a) + encoded_path(b),
{
    lemma_encode_utf8_concat(a, b);
    lemma_encode_bytes_concat(encode_utf8(a), encode_utf8(b));
    assert(ascii_text(encode_bytes(encode_utf8(a)) + encode_bytes(encode_utf8(b)))
        == ascii_text(encode_bytes(encode_utf8(a))) + ascii_text(encode_bytes(encode_utf8(b))));
}

/// Whether the character stands for itself in an escaped path.
pub open spec fn is_plain_char(c: char) -> bool {
    '\0' <= c <= '\u{7f}' && !is_escaped_byte(c as u8)
}

/// A text of characters that stand for themselves is its own escaped form.
pub proof fn lemma_encode_plain(path: Seq<char>)
    requires
        forall|i: int| 0 <= i < path.len() ==> is_plain_char(#[trigger] path[i]),
    ensures
        encoded_path(path) == path,
    decreases path.len(),
{
    if path.len() == 0 {
        assert(encoded_path(path) =~= path);
    } else {
        let head = seq![path[0]];
        let rest = path.drop_first();
        assert(path == head + rest);
        assert(is_plain_char(path[0]));
        assert forall|i: int| 0 <= i < rest.len() implies is_plain_char(#[trigger] rest[i]) by {
            assert(rest[i] == path[i + 1]);
        }
        lemma_encode_plain(rest);
        lemma_encoded_path_concat(head, rest);
        assert(is_ascii_chars(head)) by {
            assert forall|i: int| 0 <= i < head.len() implies '\0' <= #[trigger] head[i]
                <= '\u{7f}' by {
                assert(head[i] == path[0]);
            }
        }
        is_ascii_chars_encode_utf8(head);
        let raw = encode_utf8(head);
        assert(raw.len() == 1);
        assert(raw[0] == head[0] as u8);
        assert(raw.drop_first() == Seq::<u8>::empty());
        assert(encode_bytes(Seq::<u8>::empty()) == Seq::<u8>::empty());
        assert(encode_bytes(raw) == encode_byte(raw[0]) + Seq::<u8>::empty());
        assert(encode_bytes(raw) == seq![raw[0]]);
        assert(ascii_text(seq![raw[0]]) == seq![raw[0] as char]);
        assert(raw[0] as char == path[0]);
        assert(encoded_path(head) == head);
    }
}

/// A `/` is never escaped: the escaped form of two parts joined by `/` is
/// their escaped forms joined by `/`.
pub proof fn lemma_encode_keeps_slash(a: Seq<char>, b: Seq<char>)
    ensures
        encoded_path(a + seq!['/'] + b) == encoded_path(a) + seq!['/'] + encoded_path(b),
{
    let slash = seq!['/'];
    assert(is_plain_char(slash[0]));
    lemma_encode_plain(slash);
    lemma_encoded_path_concat(a, slash);
    lemma_encoded_path_concat(a + slash, b);
}

/// The escaped form of `path`.
pub fn trash_spec_url_encode(path: &str) -> (r: String)
    ensures
        r@ == encoded_path(path@),
{
    let bytes = path.as_bytes();
    let mut out = String::new();
    let mut i: usize = 0;
    while i < bytes.len()
        invariant
            i <= bytes.len(),
            bytes@ == encode_utf8(path@),
            out@ == ascii_text(encode_bytes(bytes@.take(i as int))),
        decreases bytes.len() - i,
    {
        let b = bytes[i];
        proof {
            let done = bytes@.take(i as int);
            assert(bytes@.take(i + 1) == done + seq![b]);
            lemma_encode_bytes_concat(done, seq![b]);
            assert(seq![b].drop_first() == Seq::<u8>::empty());
            assert(encode_bytes(Seq::<u8>::empty()) == Seq::<u8>::empty());
            assert(encode_bytes(seq![b]) == encode_byte(b) + Seq::<u8>::empty());
            assert(encode_bytes(seq![b]) == encode_byte(b));
            assert(ascii_text(encode_bytes(done) + encode_byte(b)) == ascii_text(
                encode_bytes(done),
            ) + ascii_text(encode_byte(b)));
        }
        if should_escape(b) {
            out.append(percent_encode_byte(b));
        } else {
            proof {
                assert(ascii_text(seq![b]) == seq![b as char]);
                assert(out@.push(b as char) == out@ + seq![b as char]);
            }
            crate::text::push_char(&mut out, b as char);
        }
        i += 1;
    }
    assert(bytes@.take(bytes.len() as int) == bytes@);
    out
}

/// The path that the escaped `encoded_path` stands for.
///
/// Fails only where the bytes that come out are not UTF-8; a `%` that no two
/// hexadecimal digits follow is kept as it stands.
pub fn trash_spec_url_decode(encoded_path: &str) -> (r: Result<String, InvalidUtf8>)
    ensures
        r is Ok == decoded_path(encoded_path@) is Some,
        r matches Ok(path) ==> path@ == decoded_path(encoded_path@)->0,
{
    match percent_decode_utf8(encoded_path) {
        Ok(path) => Ok(path),
        Err(_) => Err(InvalidUtf8),
    }
}

} // verus!
