//! Hexadecimal text: the form in which addresses and keys cross the binding
//! boundary.

use crate::text::{char_debug, char_debug_text, decimal_text, join, owned, with_number};
use vstd::prelude::*;

verus! {

/// The lower-case digit that stands for `n`, for `n` below sixteen.
pub open spec fn nibble_char(n: int) -> char {
    if n < 10 {
        ('0' as u8 + n) as u8 as char
    } else {
        ('a' as u8 + (n - 10)) as u8 as char
    }
}

/// The hexadecimal text of `bytes`: two lower-case digits for each byte, the
/// high half first.
pub open spec fn hex_encoding(bytes: Seq<u8>) -> Seq<char> {
    Seq::new(
        2 * bytes.len(),
        |i: int|
            if i % 2 == 0 {
                nibble_char(bytes[i / 2] as int / 16)
            } else {
                nibble_char(bytes[i / 2] as int % 16)
            },
    )
}

/// The value of the digit `c`, in either case; `None` for any other byte.
pub open spec fn digit_value(c: u8) -> Option<int> {
    if '0' as u8 <= c <= '9' as u8 {
        Some(c - '0' as u8)
    } else if 'a' as u8 <= c <= 'f' as u8 {
        Some(c - 'a' as u8 + 10)
    } else if 'A' as u8 <= c <= 'F' as u8 {
        Some(c - 'A' as u8 + 10)
    } else {
        None
    }
}

/// Whether `text` is an even number of hexadecimal digits.
pub open spec fn is_hex_text(text: Seq<u8>) -> bool {
    &&& text.len() % 2 == 0
    &&& forall|i: int| 0 <= i < text.len() ==> digit_value(#[trigger] text[i]) is Some
}

/// The bytes that the hexadecimal text `text` stands for.
pub open spec fn hex_decoding(text: Seq<u8>) -> Seq<u8> {
    Seq::new(
        text.len() / 2,
        |i: int|
            (16 * digit_value(text[2 * i]).unwrap() + digit_value(text[2 * i + 1]).unwrap()) as u8,
    )
}

/// Whether `index` is the place of the first byte of `text` that is no digit.
pub open spec fn is_first_bad_digit(text: Seq<u8>, index: int) -> bool {
    &&& 0 <= index < text.len()
    &&& digit_value(text[index]) is None
    &&& forall|j: int| 0 <= j < index ==> digit_value(#[trigger] text[j]) is Some
}

/// The bytes of a text, which are what a decoder reads.
pub open spec fn text_bytes(text: Seq<char>) -> Seq<u8> {
    vstd::utf8::encode_utf8(text)
}

/// Why a text is no hexadecimal encoding.
#[derive(Clone, Copy, Debug)]
pub enum HexError {
    /// The byte at `index`, read as the character `c`, is no digit.
    InvalidHexCharacter { c: char, index: usize },
    /// The text has an odd number of bytes.
    OddLength,
    /// The text stands for another number of bytes than was asked for.
    InvalidStringLength,
}

/// What `decode` owes for `text`.
pub open spec fn decode_outcome(text: Seq<u8>, r: Result<Seq<u8>, HexError>) -> bool {
    match r {
        Ok(bytes) => is_hex_text(text) && bytes == hex_decoding(text),
        Err(HexError::OddLength) => text.len() % 2 == 1,
        Err(HexError::InvalidHexCharacter { c, index }) => {
            &&& text.len() % 2 == 0
            &&& is_first_bad_digit(text, index as int)
            &&& c == text[index as int] as char
        },
        Err(HexError::InvalidStringLength) => false,
    }
}

/// What `decode_exact` owes for `text` and the number `len` of bytes asked
/// for.
pub open spec fn decode_exact_outcome(text: Seq<u8>, len: int, r: Result<Seq<u8>, HexError>) -> bool {
    match r {
        Ok(bytes) => is_hex_text(text) && text.len() / 2 == len && bytes == hex_decoding(text),
        Err(HexError::OddLength) => text.len() % 2 == 1,
        Err(HexError::InvalidStringLength) => text.len() % 2 == 0 && text.len() / 2 != len,
        Err(HexError::InvalidHexCharacter { c, index }) => {
            &&& text.len() % 2 == 0
            &&& text.len() / 2 == len
            &&& is_first_bad_digit(text, index as int)
            &&& c == text[index as int] as char
        },
    }
}

/// The text that describes `e`.
pub open spec fn describe_text(e: HexError) -> Seq<char> {
    match e {
        HexError::InvalidHexCharacter { c, index } => "Invalid character "@ + char_debug_text(c)
            + " at position "@ + decimal_text(index as nat),
        HexError::OddLength => "Odd number of digits"@,
        HexError::InvalidStringLength => "Invalid string length"@,
    }
}

/// The reason given for a text that `e` rules out.
pub open spec fn parse_reason(e: HexError) -> Seq<char> {
    "Failed to parse hex: "@ + describe_text(e)
}

/// Whether `text` is the hexadecimal encoding of the `len` bytes `bytes`, in
/// digits of either case.
pub open spec fn hex_spells(text: Seq<char>, len: int, bytes: Seq<u8>) -> bool {
    decode_exact_outcome(text_bytes(text), len, Ok(bytes))
}

/// Whether `text` is no hexadecimal encoding of `len` bytes, and `reason` says
/// why not.
pub open spec fn hex_refused(text: Seq<char>, len: int, reason: Seq<char>) -> bool {
    exists|e: HexError|
        decode_exact_outcome(text_bytes(text), len, Err(e)) && reason == parse_reason(e)
}

/// Whether `text` is the hexadecimal encoding of `bytes`, however many they
/// are.
pub open spec fn hex_spells_any(text: Seq<char>, bytes: Seq<u8>) -> bool {
    decode_outcome(text_bytes(text), Ok(bytes))
}

/// Whether `text` is no hexadecimal encoding at all, and `reason` says why
/// not.
pub open spec fn hex_refused_any(text: Seq<char>, reason: Seq<char>) -> bool {
    exists|e: HexError| decode_outcome(text_bytes(text), Err(e)) && reason == parse_reason(e)
}

/// A digit that `nibble_char` gives is a plain character, and stands for the
/// value it was made of.
pub proof fn lemma_nibble_char(n: int)
    requires
        0 <= n < 16,
    ensures
        '\0' <= nibble_char(n) <= '\u{7f}',
        digit_value(nibble_char(n) as u8) == Some(n),
{
}

/// Decoding undoes encoding: the hexadecimal text of `bytes` spells `bytes`
/// and nothing else, and no decoder refuses it.
pub proof fn lemma_encoding_round_trip(bytes: Seq<u8>)
    ensures
        hex_spells_any(hex_encoding(bytes), bytes),
        hex_spells(hex_encoding(bytes), bytes.len() as int, bytes),
        forall|other: Seq<u8>|
            hex_spells_any(hex_encoding(bytes), other) ==> other == bytes,
        forall|reason: Seq<char>| !hex_refused_any(hex_encoding(bytes), reason),
        forall|reason: Seq<char>| !hex_refused(hex_encoding(bytes), bytes.len() as int, reason),
{
    let text = hex_encoding(bytes);
    let raw = text_bytes(text);
    assert forall|i: int| 0 <= i < text.len() implies '\0' <= #[trigger] text[i] <= '\u{7f}' by {
        lemma_nibble_char(bytes[i / 2] as int / 16);
        lemma_nibble_char(bytes[i / 2] as int % 16);
    }
    vstd::utf8::is_ascii_chars_encode_utf8(text);
    assert(raw.len() == 2 * bytes.len());
    assert forall|i: int| 0 <= i < raw.len() implies digit_value(#[trigger] raw[i]) is Some by {
        lemma_nibble_char(bytes[i / 2] as int / 16);
        lemma_nibble_char(bytes[i / 2] as int % 16);
        assert(raw[i] == text[i] as u8);
    }
    assert(is_hex_text(raw));
    assert forall|k: int| 0 <= k < bytes.len() implies hex_decoding(raw)[k] == bytes[k] by {
        lemma_nibble_char(bytes[k] as int / 16);
        lemma_nibble_char(bytes[k] as int % 16);
        assert(raw[2 * k] == text[2 * k] as u8);
        assert(raw[2 * k + 1] == text[2 * k + 1] as u8);
        assert((2 * k) / 2 == k && (2 * k) % 2 == 0);
        assert((2 * k + 1) / 2 == k && (2 * k + 1) % 2 == 1);
    }
    assert(hex_decoding(raw) =~= bytes);
    assert forall|reason: Seq<char>| !hex_refused_any(text, reason) by {
        assert forall|e: HexError| !decode_outcome(raw, Err(e)) by {
            if let HexError::InvalidHexCharacter { c, index } = e {
                if is_first_bad_digit(raw, index as int) {
                    assert(digit_value(raw[index as int]) is Some);
                }
            }
        }
    }
    assert forall|reason: Seq<char>| !hex_refused(text, bytes.len() as int, reason) by {
        assert forall|e: HexError| !decode_exact_outcome(raw, bytes.len() as int, Err(e)) by {
            if let HexError::InvalidHexCharacter { c, index } = e {
                if is_first_bad_digit(raw, index as int) {
                    assert(digit_value(raw[index as int]) is Some);
                }
            }
        }
    }
}

/// No two byte strings have the same hexadecimal text.
pub proof fn lemma_encoding_is_injective(a: Seq<u8>, b: Seq<u8>)
    requires
        hex_encoding(a) == hex_encoding(b),
    ensures
        a == b,
{
    lemma_encoding_round_trip(a);
    lemma_encoding_round_trip(b);
    assert(hex_spells_any(hex_encoding(a), b));
}

impl HexError {
    /// The reason to give for a text that this error rules out.
    pub fn parse_failure(&self) -> (reason: String)
        ensures
            reason@ == parse_reason(*self),
    {
        let cause = self.describe();
        join("Failed to parse hex: ", cause.as_str())
    }

    /// A sentence that says what is wrong with the text.
    pub fn describe(&self) -> (text: String)
        ensures
            text@ == describe_text(*self),
    {
        match self {
            HexError::InvalidHexCharacter { c, index } => {
                let quoted = char_debug(*c);
                let head = join("Invalid character ", quoted.as_str());
                let head = join(head.as_str(), " at position ");
                let text = with_number(head.as_str(), *index);
                assert(text@ =~= describe_text(*self));
                text
            },
            HexError::OddLength => owned("Odd number of digits"),
            HexError::InvalidStringLength => owned("Invalid string length"),
        }
    }
}

/// `hex::encode` on a byte vector. The contract restates the crate's
/// documentation: every byte becomes two lower-case digits, high half first.
#[verifier::external_body]
pub(crate) fn encode(bytes: &Vec<u8>) -> (text: String)
    ensures
        text@ == hex_encoding(bytes@),
{
    hex::encode(bytes)
}

/// `hex::decode` on a string, with the crate's error carried over variant by
/// variant. The contract follows the crate's source: the text is read byte by
/// byte; an odd number of bytes is refused first; otherwise the first byte
/// that is no digit of either case is reported with its place; otherwise each
/// pair of digits gives one byte, high half first.
#[verifier::external_body]
pub(crate) fn decode(text: &str) -> (r: Result<Vec<u8>, HexError>)
    ensures
        decode_outcome(
            text_bytes(text@),
            match r {
                Ok(bytes) => Ok(bytes@),
                Err(e) => Err(e),
            },
        ),
{
    match hex::decode(text) {
        Ok(bytes) => Ok(bytes),
        Err(hex::FromHexError::InvalidHexCharacter { c, index }) => Err(
            HexError::InvalidHexCharacter { c, index },
        ),
        Err(hex::FromHexError::OddLength) => Err(HexError::OddLength),
        Err(hex::FromHexError::InvalidStringLength) => Err(HexError::InvalidStringLength),
    }
}

/// `hex::decode_to_slice` into a buffer of `len` bytes, with the crate's error
/// carried over variant by variant. The contract follows the crate's source:
/// an odd number of bytes is refused first, then a text that stands for
/// another number of bytes than `len`, then the first byte that is no digit;
/// otherwise each pair of digits gives one byte.
#[verifier::external_body]
pub(crate) fn decode_exact(text: &str, len: usize) -> (r: Result<Vec<u8>, HexError>)
    ensures
        decode_exact_outcome(
            text_bytes(text@),
            len as int,
            match r {
                Ok(bytes) => Ok(bytes@),
                Err(e) => Err(e),
            },
        ),
{
    let mut out = vec![0u8; len];
    match hex::decode_to_slice(text, &mut out) {
        Ok(()) => Ok(out),
        Err(hex::FromHexError::InvalidHexCharacter { c, index }) => Err(
            HexError::InvalidHexCharacter { c, index },
        ),
        Err(hex::FromHexError::OddLength) => Err(HexError::OddLength),
        Err(hex::FromHexError::InvalidStringLength) => Err(HexError::InvalidStringLength),
    }
}

} // verus!
