//! The primitives crate's address type, and the calls that make and
//! describe one.

use crate::hex::{decode_address, HexError};
use alloy_primitives::hex::FromHexError;
use alloy_primitives::Address;
use std::str::FromStr;
use vstd::prelude::*;
use vstd::string::StringSliceAdditionalSpecFns;

verus! {

/// `alloy_primitives::Address`. Nothing inside a value is visible here;
/// what it holds is spoken of as `address_bytes`.
#[verifier::external_type_specification]
#[verifier::external_body]
pub struct ExAddress(Address);

/// The twenty bytes that `address` holds, first byte first.
pub uninterp spec fn address_bytes(address: Address) -> Seq<u8>;

/// The text that `FromHexError`'s `Display` writes for an invalid character
/// `c` at position `index`.
pub uninterp spec fn invalid_character_text(c: char, index: usize) -> Seq<char>;

/// The text that `FromHexError`'s `Display` writes for the error that `e`
/// stands for.
pub open spec fn hex_error_text(e: HexError) -> Seq<char> {
    match e {
        HexError::InvalidHexCharacter { c, index } => invalid_character_text(c, index),
        HexError::OddLength => "odd number of digits"@,
        HexError::InvalidStringLength => "invalid string length"@,
    }
}

/// Calls `Address::from_str`, which hands the string's bytes to the hex
/// crate's `decode_to_array`, and copies the error, variant by variant.
///
/// Believed, not proved: the call succeeds exactly on the strings that
/// `decode_address` accepts, the address then holds the bytes it gives, and
/// on every other string the error is the one it gives.
#[verifier::external_body]
pub(crate) fn address_from_str(s: &str) -> (r: Result<Address, HexError>)
    ensures
        match decode_address(s.spec_bytes()) {
            Ok(bytes) => r matches Ok(a) && address_bytes(a) == bytes,
            Err(e) => r == Err::<Address, HexError>(e),
        },
{
    match Address::from_str(s) {
        Ok(address) => Ok(address),
        Err(FromHexError::InvalidHexCharacter { c, index }) => Err(
            HexError::InvalidHexCharacter { c, index },
        ),
        Err(FromHexError::OddLength) => Err(HexError::OddLength),
        Err(FromHexError::InvalidStringLength) => Err(HexError::InvalidStringLength),
    }
}

/// Calls `to_string` on the `FromHexError` that `e` stands for.
///
/// Believed, not proved: the two fixed messages, as the hex crate's
/// `Display` impl writes them; the third is only given a name.
#[verifier::external_body]
pub(crate) fn hex_error_string(e: HexError) -> (text: String)
    ensures
        match e {
            HexError::InvalidHexCharacter { c, index } => text@ == invalid_character_text(c, index),
            HexError::OddLength => text@ == "odd number of digits"@,
            HexError::InvalidStringLength => text@ == "invalid string length"@,
        },
{
    let outside = match e {
        HexError::InvalidHexCharacter { c, index } => FromHexError::InvalidHexCharacter { c, index },
        HexError::OddLength => FromHexError::OddLength,
        HexError::InvalidStringLength => FromHexError::InvalidStringLength,
    };
    outside.to_string()
}

} // verus!
