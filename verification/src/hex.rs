//! The hexadecimal text of an address, as a model on bytes.
//!
//! An address is written as forty hexadecimal digits, in either case, with
//! an optional `0x` or `0X` in front. The functions here say which byte
//! strings are such a text, which twenty bytes a text spells, and what is
//! wrong with a string that is none.

use vstd::prelude::*;
use vstd::utf8::{encode_utf8, is_ascii_chars, is_ascii_chars_encode_utf8};

verus! {

/// Why a string is not the hexadecimal text of an address.
#[derive(Debug, Clone, Copy, PartialEq, Eq, Structural)]
pub enum HexError {
    /// A byte that is no hexadecimal digit, read as a character, and its
    /// position among the digits (the prefix is not counted).
    InvalidHexCharacter { c: char, index: usize },
    /// The string has an odd number of bytes.
    OddLength,
    /// The digits do not make up exactly twenty bytes.
    InvalidStringLength,
}

/// Number of bytes in an address.
pub const ADDRESS_LEN: usize = 20;

/// The value of the ASCII hexadecimal digit `b`, in either case.
pub open spec fn hex_value(b: u8) -> Option<u8> {
    if 0x30 <= b <= 0x39 {
        Some((b - 0x30) as u8)
    } else if 0x41 <= b <= 0x46 {
        Some((b - 0x41 + 10) as u8)
    } else if 0x61 <= b <= 0x66 {
        Some((b - 0x61 + 10) as u8)
    } else {
        None
    }
}

/// `input` without a leading `0x` or `0X`.
pub open spec fn strip_prefix(input: Seq<u8>) -> Seq<u8> {
    if input.len() >= 2 && input[0] == 0x30 && (input[1] == 0x78 || input[1] == 0x58) {
        input.skip(2)
    } else {
        input
    }
}

/// `index` is the position of the first byte of `digits` that is no
/// hexadecimal digit.
pub open spec fn first_invalid_at(digits: Seq<u8>, index: int) -> bool {
    &&& 0 <= index < digits.len()
    &&& hex_value(digits[index]) is None
    &&& forall|j: int| 0 <= j < index ==> hex_value(#[trigger] digits[j]) is Some
}

/// The byte that the digits at `2 * i` and `2 * i + 1` spell, high digit
/// first.
pub open spec fn byte_at(digits: Seq<u8>, i: int) -> u8 {
    (16 * hex_value(digits[2 * i]).unwrap() + hex_value(digits[2 * i + 1]).unwrap()) as u8
}

/// The address that the bytes `input` spell, or what is wrong with them.
///
/// The length is judged first, on the whole input and then on the digits;
/// only then are the digits looked at, and the first bad one is reported.
pub open spec fn decode_address(input: Seq<u8>) -> Result<Seq<u8>, HexError> {
    let digits = strip_prefix(input);
    if input.len() % 2 != 0 {
        Err(HexError::OddLength)
    } else if digits.len() != 2 * ADDRESS_LEN {
        Err(HexError::InvalidStringLength)
    } else if exists|i: int| first_invalid_at(digits, i) {
        let index = choose|i: int| first_invalid_at(digits, i);
        Err(HexError::InvalidHexCharacter { c: digits[index] as char, index: index as usize })
    } else {
        Ok(Seq::new(ADDRESS_LEN as nat, |i: int| byte_at(digits, i)))
    }
}

/// `c` is an ASCII hexadecimal digit.
pub open spec fn is_hex_char(c: char) -> bool {
    ('0' <= c <= '9') || ('a' <= c <= 'f') || ('A' <= c <= 'F')
}

/// `s` is `0x` followed by exactly forty hexadecimal digits.
pub open spec fn is_address_literal(s: Seq<char>) -> bool {
    &&& s.len() == 2 + 2 * ADDRESS_LEN
    &&& s[0] == '0'
    &&& s[1] == 'x'
    &&& forall|i: int| 2 <= i < s.len() ==> is_hex_char(#[trigger] s[i])
}

/// The twenty bytes that the address literal `s` spells.
pub open spec fn literal_bytes(s: Seq<char>) -> Seq<u8> {
    Seq::new(
        ADDRESS_LEN as nat,
        |i: int|
            (16 * hex_value(s[2 + 2 * i] as u8).unwrap() + hex_value(
                s[3 + 2 * i] as u8,
            ).unwrap()) as u8,
    )
}

/// An address literal always decodes, and to the bytes that its digits
/// spell.
pub proof fn lemma_literal_decodes(s: Seq<char>)
    requires
        is_address_literal(s),
    ensures
        decode_address(encode_utf8(s)) == Ok::<Seq<u8>, HexError>(literal_bytes(s)),
        literal_bytes(s).len() == ADDRESS_LEN,
{
    assert(is_ascii_chars(s)) by {
        assert forall|i: int| 0 <= i < s.len() implies '\0' <= #[trigger] s[i] <= '\u{7f}' by {
            if i >= 2 {
                assert(is_hex_char(s[i]));
            }
        }
    }
    is_ascii_chars_encode_utf8(s);
    let input = encode_utf8(s);
    assert(input[0] == s[0] as u8);
    assert(input[1] == s[1] as u8);
    let digits = strip_prefix(input);
    assert(digits == input.skip(2));
    assert forall|i: int| 0 <= i < digits.len() implies hex_value(#[trigger] digits[i]) is Some
        && digits[i] == s[i + 2] as u8 by {
        assert(digits[i] == input[i + 2]);
        assert(input[i + 2] == s[i + 2] as u8);
        assert(is_hex_char(s[i + 2]));
    }
    assert(!exists|i: int| first_invalid_at(digits, i));
    let decoded = Seq::new(ADDRESS_LEN as nat, |i: int| byte_at(digits, i));
    assert(decoded =~= literal_bytes(s)) by {
        assert forall|i: int| 0 <= i < ADDRESS_LEN implies decoded[i] == literal_bytes(s)[i] by {
            assert(digits[2 * i] == s[2 * i + 2] as u8);
            assert(digits[2 * i + 1] == s[2 * i + 1 + 2] as u8);
        }
    }
}

} // verus!
