//! The message codec: wire bytes to lowercase hexadecimal text and back.
use vstd::prelude::*;
use vstd::utf8::{
    char_is_scalar, encode_scalar, encode_utf8, has_width_1_encoding, is_ascii_chars,
    is_ascii_chars_encode_utf8,
};
use openmls::prelude::{KeyPackage, KeyPackageIn, MlsMessageOut, Welcome};
use crate::engine;
use crate::engine::{holds_welcome, key_package_fault, message_fault};
use crate::error::{lift, ErrorKind, MlsError};
use crate::text::detail_text;

verus! {

/// The sixteen digits, in order of their value.
pub open spec fn hex_alphabet() -> Seq<char> {
    seq!['0', '1', '2', '3', '4', '5', '6', '7', '8', '9', 'a', 'b', 'c', 'd', 'e', 'f']
}

/// The text of a byte sequence: two lowercase digits for each byte, the high
/// half first.
pub open spec fn hex_text(bytes: Seq<u8>) -> Seq<char> {
    Seq::new(
        2 * bytes.len(),
        |i: int|
            if i % 2 == 0 {
                hex_alphabet()[bytes[i / 2] as int / 16]
            } else {
                hex_alphabet()[bytes[i / 2] as int % 16]
            },
    )
}

/// The value of a digit, of either case; -1 for a character that is no digit.
pub open spec fn char_value(c: char) -> int {
    if '0' <= c <= '9' {
        c as u8 - 48
    } else if 'a' <= c <= 'f' {
        c as u8 - 87
    } else if 'A' <= c <= 'F' {
        c as u8 - 55
    } else {
        -1
    }
}

/// True for text that stands for a byte sequence: an even number of digits
/// and nothing else.
pub open spec fn is_hex(text: Seq<char>) -> bool {
    &&& text.len() % 2 == 0
    &&& forall|i: int| 0 <= i < text.len() ==> char_value(#[trigger] text[i]) >= 0
}

/// The byte sequence that well-formed text stands for.
pub open spec fn hex_bytes(text: Seq<char>) -> Seq<u8> {
    Seq::new(
        text.len() / 2,
        |i: int| (char_value(text[2 * i]) * 16 + char_value(text[2 * i + 1])) as u8,
    )
}

/// True for text as the codec writes it: well-formed, with lowercase digits.
pub open spec fn is_wire_text(text: Seq<char>) -> bool {
    &&& is_hex(text)
    &&& forall|i: int| 0 <= i < text.len() ==> !('A' <= #[trigger] text[i] <= 'F')
}

/// The value of a digit given as a byte of text, of either case; -1 for a
/// byte that is no digit.
pub open spec fn digit_value(b: u8) -> int {
    if 48 <= b <= 57 {
        b - 48
    } else if 97 <= b <= 102 {
        b - 87
    } else if 65 <= b <= 70 {
        b - 55
    } else {
        -1
    }
}

/// True for the bytes of well-formed text: an even number of them, each a
/// digit.
pub open spec fn is_hex_raw(raw: Seq<u8>) -> bool {
    &&& raw.len() % 2 == 0
    &&& forall|i: int| 0 <= i < raw.len() ==> digit_value(#[trigger] raw[i]) >= 0
}

/// The byte sequence that the bytes of well-formed text stand for.
pub open spec fn raw_bytes(raw: Seq<u8>) -> Seq<u8> {
    Seq::new(
        raw.len() / 2,
        |i: int| (digit_value(raw[2 * i]) * 16 + digit_value(raw[2 * i + 1])) as u8,
    )
}

/// The words with which `hex::decode` refuses the given bytes of text: the
/// debug rendering of its error. It is a function of the bytes alone; which
/// words they are is not stated here.
pub uninterp spec fn hex_fault(raw: Seq<u8>) -> Seq<char>;

/// The detail of the failure for text that is not well-formed: the attempt
/// that the caller names, then the words of the refusal.
pub open spec fn refusal(text: Seq<char>, context: Seq<char>) -> Seq<char> {
    detail_text(context, hex_fault(encode_utf8(text)))
}

/// Each digit of the alphabet is a lowercase digit whose value is its place
/// in the alphabet.
pub proof fn lemma_digit_value(k: int)
    requires
        0 <= k < 16,
    ensures
        char_value(hex_alphabet()[k]) == k,
        !('A' <= hex_alphabet()[k] <= 'F'),
{
}

/// A character whose number is below 128 is a plain character.
proof fn lemma_plain_char(c: char)
    requires
        c as u32 <= 0x7f,
    ensures
        '\0' <= c <= '\u{7f}',
{
}

/// Text whose UTF-8 bytes are all below 128 is made of plain characters.
proof fn lemma_low_bytes_are_plain(text: Seq<char>)
    requires
        forall|i: int| 0 <= i < encode_utf8(text).len() ==> #[trigger] encode_utf8(text)[i] < 128,
    ensures
        is_ascii_chars(text),
    decreases text.len(),
{
    if text.len() > 0 {
        char_is_scalar(text[0]);
        let c = text[0] as u32;
        let head = encode_scalar(c);
        let rest = encode_utf8(text.drop_first());
        assert(encode_utf8(text) == head + rest);
        assert(encode_utf8(text)[0] == head[0]);
        if !has_width_1_encoding(c) {
            let x = head[0];
            assert(x >= 128) by {
                let a = ((c >> 6) & 0x1F) as u8;
                let b = ((c >> 12) & 0x0F) as u8;
                let d = ((c >> 18) & 0x7) as u8;
                assert(0xC0u8 | a >= 128) by (bit_vector);
                assert(0xE0u8 | b >= 128) by (bit_vector);
                assert(0xF0u8 | d >= 128) by (bit_vector);
            }
        }
        assert(head.len() == 1);
        assert forall|i: int| 0 <= i < rest.len() implies #[trigger] rest[i] < 128 by {
            assert(encode_utf8(text)[i + 1] == rest[i]);
        }
        lemma_low_bytes_are_plain(text.drop_first());
        assert forall|i: int| 0 <= i < text.len() implies '\0' <= #[trigger] text[i]
            <= '\u{7f}' by {
            if i > 0 {
                assert(text[i] == text.drop_first()[i - 1]);
            } else {
                lemma_plain_char(text[0]);
            }
        }
    }
}

/// Text is well-formed exactly when its UTF-8 bytes are, and then both stand
/// for the same byte sequence.
pub proof fn lemma_hex_by_chars(text: Seq<char>)
    ensures
        is_hex(text) <==> is_hex_raw(encode_utf8(text)),
        is_hex(text) ==> hex_bytes(text) == raw_bytes(encode_utf8(text)),
{
    let raw = encode_utf8(text);
    if is_hex(text) {
        assert forall|i: int| 0 <= i < text.len() implies '\0' <= #[trigger] text[i]
            <= '\u{7f}' by {
            assert(char_value(text[i]) >= 0);
        }
    }
    if is_hex_raw(raw) {
        assert forall|i: int| 0 <= i < raw.len() implies #[trigger] raw[i] < 128 by {
            assert(digit_value(raw[i]) >= 0);
        }
        lemma_low_bytes_are_plain(text);
    }
    if is_ascii_chars(text) {
        is_ascii_chars_encode_utf8(text);
        assert forall|i: int| 0 <= i < text.len() implies char_value(#[trigger] text[i])
            == digit_value(raw[i]) by {
            assert(raw[i] == text[i] as u8);
        }
        if is_hex(text) {
            assert forall|i: int| 0 <= i < raw.len() implies digit_value(#[trigger] raw[i])
                >= 0 by {
                assert(char_value(text[i]) >= 0);
            }
            assert(hex_bytes(text) =~= raw_bytes(raw));
        }
        if is_hex_raw(raw) {
            assert forall|i: int| 0 <= i < text.len() implies char_value(#[trigger] text[i])
                >= 0 by {
                assert(digit_value(raw[i]) >= 0);
            }
        }
    }
}

/// The text of any byte sequence is text as the codec writes it.
pub proof fn lemma_hex_text_is_wire_text(bytes: Seq<u8>)
    ensures
        is_wire_text(hex_text(bytes)),
{
    let t = hex_text(bytes);
    assert forall|i: int| 0 <= i < t.len() implies char_value(#[trigger] t[i]) >= 0 && !('A'
        <= t[i] <= 'F') by {
        let b = bytes[i / 2] as int;
        lemma_digit_value(b / 16);
        lemma_digit_value(b % 16);
    }
}

/// The round trip of the codec: reading the text of any byte sequence gives
/// the bytes back, and writing those again gives the same text, character for
/// character.
pub proof fn lemma_hex_round_trip(bytes: Seq<u8>)
    ensures
        is_hex(hex_text(bytes)),
        hex_bytes(hex_text(bytes)) == bytes,
        hex_text(hex_bytes(hex_text(bytes))) == hex_text(bytes),
{
    lemma_hex_text_is_wire_text(bytes);
    let t = hex_text(bytes);
    let back = hex_bytes(t);
    assert(back.len() == bytes.len());
    assert forall|j: int| 0 <= j < bytes.len() implies back[j] == bytes[j] by {
        let b = bytes[j] as int;
        lemma_digit_value(b / 16);
        lemma_digit_value(b % 16);
        assert((2 * j) / 2 == j && (2 * j + 1) / 2 == j);
        assert((2 * j) % 2 == 0 && (2 * j + 1) % 2 == 1);
        assert(t[2 * j] == hex_alphabet()[b / 16]);
        assert(t[2 * j + 1] == hex_alphabet()[b % 16]);
        assert((b / 16) * 16 + b % 16 == b);
    }
    assert(back =~= bytes);
}

/// Text as the codec writes it is the text of the bytes it stands for: the
/// codec has one text for each byte sequence.
pub proof fn lemma_wire_text_is_canonical(text: Seq<char>)
    requires
        is_wire_text(text),
    ensures
        hex_text(hex_bytes(text)) == text,
{
    let bytes = hex_bytes(text);
    let again = hex_text(bytes);
    assert(again.len() == text.len());
    assert forall|i: int| 0 <= i < text.len() implies again[i] == text[i] by {
        let j = i / 2;
        let hi = char_value(text[2 * j]);
        let lo = char_value(text[2 * j + 1]);
        assert(0 <= hi < 16 && 0 <= lo < 16);
        assert(bytes[j] as int == hi * 16 + lo);
        assert((hi * 16 + lo) / 16 == hi && (hi * 16 + lo) % 16 == lo);
        lemma_digit_value(hi);
        lemma_digit_value(lo);
        lemma_digit_of_value(text[2 * j]);
        lemma_digit_of_value(text[2 * j + 1]);
        if i % 2 == 0 {
            assert(i == 2 * j);
        } else {
            assert(i == 2 * j + 1);
        }
    }
    assert(again =~= text);
}

/// A lowercase digit is the digit of the alphabet at the place of its value.
proof fn lemma_digit_of_value(c: char)
    requires
        char_value(c) >= 0,
        !('A' <= c <= 'F'),
    ensures
        0 <= char_value(c) < 16,
        hex_alphabet()[char_value(c)] == c,
{
}

/// Calls `hex::encode`. Believed of it: the text holds two lowercase digits
/// for each byte, in order, the high half of a byte first.
#[verifier::external_body]
fn encode(bytes: &[u8]) -> (text: String)
    ensures
        text@ == hex_text(bytes@),
{
    hex::encode(bytes)
}

/// Calls `hex::decode` on the text, which it reads as UTF-8 bytes. Believed
/// of it: it succeeds exactly when those bytes are an even number of digits of
/// either case, and then returns the bytes they stand for. A failure comes
/// back as the debug rendering of the crate's own error, which the bytes
/// alone decide.
#[verifier::external_body]
fn decode(text: &str) -> (r: Result<Vec<u8>, String>)
    ensures
        r is Ok <==> is_hex_raw(encode_utf8(text@)),
        r matches Ok(bytes) ==> bytes@ == raw_bytes(encode_utf8(text@)),
        r matches Err(fault) ==> fault@ == hex_fault(encode_utf8(text@)),
{
    match hex::decode(text) {
        Ok(bytes) => Ok(bytes),
        Err(e) => Err(format!("{:?}", e)),
    }
}

/// Renders wire bytes as text.
pub fn wire_text(bytes: &[u8]) -> (text: String)
    ensures
        text@ == hex_text(bytes@),
        is_wire_text(text@),
{
    proof {
        lemma_hex_text_is_wire_text(bytes@);
    }
    encode(bytes)
}

/// Reads wire bytes from text. Text that is not an even number of digits is a
/// serialization failure whose detail opens with `context`.
pub fn wire_bytes(text: &str, context: &str) -> (r: Result<Vec<u8>, MlsError>)
    ensures
        r is Ok <==> is_hex(text@),
        r matches Ok(bytes) ==> bytes@ == hex_bytes(text@),
        r matches Err(e) ==> e.is(ErrorKind::Serialization, refusal(text@, context@))
            && e.reports(ErrorKind::Serialization, context@),
{
    proof {
        lemma_hex_by_chars(text@);
    }
    lift(decode(text), ErrorKind::Serialization, context)
}

/// Writes a message of the engine as wire text. A message that the engine
/// cannot encode is a serialization failure for the attempt `context`.
pub fn message_text(message: &MlsMessageOut, context: &str) -> (r: Result<String, MlsError>)
    ensures
        r matches Ok(text) ==> is_wire_text(text@) && text@.len() > 0,
        r matches Err(e) ==> e.reports(ErrorKind::Serialization, context@),
{
    encoded(engine::message_to_wire(message), context)
}

/// Writes a key package as wire text.
pub fn key_package_text(key_package: &KeyPackage) -> (r: Result<String, MlsError>)
    ensures
        r matches Ok(text) ==> is_wire_text(text@) && text@.len() > 0,
        r matches Err(e) ==> e.reports(
            ErrorKind::Serialization,
            "Failed to serialize key package"@,
        ),
{
    encoded(engine::key_package_to_wire(key_package), "Failed to serialize key package")
}

/// True for text that stands for bytes which the engine takes apart as a
/// message.
pub open spec fn is_message_text(text: Seq<char>) -> bool {
    is_hex(text) && message_fault(hex_bytes(text)) is None
}

/// The detail of the failure for text that is no message text: text that is
/// not well-formed fails for the attempt `decoding`, bytes that the engine
/// does not take apart fail for the attempt `parsing`, with the engine's words.
pub open spec fn message_refusal(text: Seq<char>, decoding: Seq<char>, parsing: Seq<char>) -> Seq<
    char,
> {
    if !is_hex(text) {
        refusal(text, decoding)
    } else {
        detail_text(parsing, message_fault(hex_bytes(text))->Some_0)
    }
}

/// True for text that stands for a welcome.
pub open spec fn is_welcome_text(text: Seq<char>) -> bool {
    is_message_text(text) && holds_welcome(hex_bytes(text))
}

/// True for text that stands for bytes which the engine takes apart as a key
/// package.
pub open spec fn is_key_package_text(text: Seq<char>) -> bool {
    is_hex(text) && key_package_fault(hex_bytes(text)) is None
}

/// The detail of the failure for text that is no key package text.
pub open spec fn key_package_refusal(text: Seq<char>) -> Seq<char> {
    if !is_hex(text) {
        refusal(text, "Failed to decode key package hex"@)
    } else {
        detail_text(
            "Failed to deserialize key package"@,
            key_package_fault(hex_bytes(text))->Some_0,
        )
    }
}

/// Reads a welcome from wire text. Text that is no message text is a
/// serialization failure; a message that is no welcome is a generic failure.
pub fn read_welcome(text: &str) -> (r: Result<Welcome, MlsError>)
    ensures
        r is Ok <==> is_welcome_text(text@),
        !is_message_text(text@) ==> r is Err && r->Err_0.is(
            ErrorKind::Serialization,
            message_refusal(
                text@,
                "Failed to decode welcome hex"@,
                "Failed to deserialize welcome"@,
            ),
        ),
        is_message_text(text@) && !holds_welcome(hex_bytes(text@)) ==> r is Err && r->Err_0.is(
            ErrorKind::Generic,
            "Expected Welcome message, got different type"@,
        ),
        r matches Err(e) ==> {
            ||| e.reports(ErrorKind::Serialization, "Failed to decode welcome hex"@)
            ||| e.reports(ErrorKind::Serialization, "Failed to deserialize welcome"@)
            ||| e.is(ErrorKind::Generic, "Expected Welcome message, got different type"@)
        },
{
    let bytes = match wire_bytes(text, "Failed to decode welcome hex") {
        Err(e) => { return Err(e); },
        Ok(bytes) => bytes,
    };
    match lift(
        engine::welcome_from_wire(bytes.as_slice()),
        ErrorKind::Serialization,
        "Failed to deserialize welcome",
    ) {
        Err(e) => Err(e),
        Ok(None) => Err(
            MlsError::generic(String::from_str("Expected Welcome message, got different type")),
        ),
        Ok(Some(welcome)) => Ok(welcome),
    }
}

/// Reads a key package, not yet validated, from wire text.
pub fn read_key_package(text: &str) -> (r: Result<KeyPackageIn, MlsError>)
    ensures
        r is Ok <==> is_key_package_text(text@),
        r matches Err(e) ==> e.is(ErrorKind::Serialization, key_package_refusal(text@)),
        r matches Err(e) ==> e.reports(
            ErrorKind::Serialization,
            "Failed to decode key package hex"@,
        ) || e.reports(ErrorKind::Serialization, "Failed to deserialize key package"@),
{
    match wire_bytes(text, "Failed to decode key package hex") {
        Err(e) => Err(e),
        Ok(bytes) => lift(
            engine::key_package_from_wire(bytes.as_slice()),
            ErrorKind::Serialization,
            "Failed to deserialize key package",
        ),
    }
}

/// Hands out what the engine made of an encoding: bytes come back as their
/// wire text, a fault as the serialization failure of the attempt `context`.
pub fn encoded(outcome: Result<Vec<u8>, String>, context: &str) -> (r: Result<String, MlsError>)
    ensures
        outcome matches Ok(bytes) ==> r is Ok && r->Ok_0@ == hex_text(bytes@) && is_wire_text(
            r->Ok_0@,
        ),
        outcome matches Err(fault) ==> r is Err && r->Err_0.is(
            ErrorKind::Serialization,
            detail_text(context@, fault@),
        ) && r->Err_0.reports(ErrorKind::Serialization, context@),
{
    match lift(outcome, ErrorKind::Serialization, context) {
        Ok(bytes) => Ok(wire_text(bytes.as_slice())),
        Err(e) => Err(e),
    }
}

} // verus!
