//! Base64 and percent-encoding.

use base64::DecodeError;
use percent_encoding::{utf8_percent_encode, CONTROLS};
use vstd::prelude::*;
use vstd::string::*;

verus! {

/// `DecodeError`, the error of a text that is no Base64.
#[verifier::external_type_specification]
#[verifier::external_body]
pub struct ExDecodeError(DecodeError);

/// The standard Base64 text of `bytes`, padded.
pub uninterp spec fn base64_text(bytes: Seq<u8>) -> Seq<char>;

/// The bytes that the standard, padded Base64 text `input` stands for, if it
/// is such a text.
pub uninterp spec fn base64_bytes(input: Seq<u8>) -> Option<Seq<u8>>;

/// A character of Base64 text: a letter or digit of ASCII, `+`, `/`, or the
/// padding `=`.
pub open spec fn is_base64_char(c: char) -> bool {
    ('A' <= c <= 'Z') || ('a' <= c <= 'z') || ('0' <= c <= '9') || c == '+' || c == '/' || c
        == '='
}

/// The longest input that can be handed to the Base64 decoder.
pub open spec fn base64_input_limit() -> int {
    isize::MAX as int
}

/// `base64::encode`: the text of `bytes` in the standard alphabet, padded, so
/// made of the characters of `is_base64_char`. It fails on an input so long
/// that its text, four characters for every three bytes, cannot be allocated;
/// `requires` leaves such inputs out.
#[verifier::external_body]
pub(crate) fn base64_encode(bytes: &[u8]) -> (text: String)
    requires
        bytes@.len() <= usize::MAX / 4,
    ensures
        text@ == base64_text(bytes@),
        forall|i: int| 0 <= i < text@.len() ==> is_base64_char(#[trigger] text@[i]),
{
    base64::encode(bytes)
}

/// `base64::decode`. It fails on an input so long that the buffer for its
/// bytes, three for every four of the input, cannot be allocated; `requires`
/// leaves such inputs out.
#[verifier::external_body]
pub(crate) fn base64_decode(input: &[u8]) -> (decoded: Result<Vec<u8>, DecodeError>)
    requires
        input@.len() <= base64_input_limit(),
    ensures
        decoded is Ok <==> base64_bytes(input@) is Some,
        decoded is Ok ==> base64_bytes(input@) == Some(decoded->Ok_0@),
{
    base64::decode(input)
}

/// The character of the hexadecimal digit `digit`, in upper case.
pub open spec fn hex_digit_upper(digit: nat) -> char
    recommends
        digit < 16,
{
    if digit < 10 {
        crate::text::digit_char(digit)
    } else if digit == 10 {
        'A'
    } else if digit == 11 {
        'B'
    } else if digit == 12 {
        'C'
    } else if digit == 13 {
        'D'
    } else if digit == 14 {
        'E'
    } else {
        'F'
    }
}

/// Whether `byte` is percent-encoded: a control character, the delete
/// character, or a byte beyond ASCII.
pub open spec fn is_percent_encoded_byte(byte: u8) -> bool {
    byte < 0x20 || byte >= 0x7f
}

/// What stands for `byte` in percent-encoded text.
pub open spec fn percent_encoded_byte(byte: u8) -> Seq<char> {
    if is_percent_encoded_byte(byte) {
        seq!['%', hex_digit_upper((byte / 16) as nat), hex_digit_upper((byte % 16) as nat)]
    } else {
        seq![byte as char]
    }
}

/// The percent-encoded text of `bytes`.
pub open spec fn percent_encoded_bytes(bytes: Seq<u8>) -> Seq<char>
    decreases bytes.len(),
{
    if bytes.len() == 0 {
        Seq::empty()
    } else {
        percent_encoded_byte(bytes[0]) + percent_encoded_bytes(bytes.drop_first())
    }
}

/// The percent-encoded text of the UTF-8 form of `text`.
pub open spec fn percent_encoded(text: Seq<char>) -> Seq<char> {
    percent_encoded_bytes(vstd::utf8::encode_utf8(text))
}

/// `utf8_percent_encode` with the set `CONTROLS`, written out: each byte of
/// the UTF-8 form of `text` that is below 0x20, or 0x7F, or beyond ASCII
/// becomes `%` and its two upper-case hexadecimal digits; every other byte
/// stays.
#[verifier::external_body]
pub(crate) fn percent_encode_controls(text: &str) -> (encoded: String)
    ensures
        encoded@ == percent_encoded(text@),
{
    utf8_percent_encode(text, CONTROLS).to_string()
}

} // verus!
