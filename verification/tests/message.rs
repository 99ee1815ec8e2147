use alloy_chains::NamedChain;
use usdshe::{parse_address, HexError, Usdc, UsdcError};

#[test]
fn an_unsupported_chain_is_named_in_the_message() {
    let e = NamedChain::Gnosis.usdc_address().unwrap_err();
    assert_eq!(e.message(), "USDC address not available for chain: Gnosis");
    let e = UsdcError::UnsupportedChain(NamedChain::OptimismSepolia);
    assert_eq!(e.message(), "USDC address not available for chain: OptimismSepolia");
}

#[test]
fn a_parse_error_shows_the_text_and_the_cause() {
    let e = parse_address("0x123").unwrap_err();
    assert_eq!(e.message(), "Failed to parse address string '0x123': odd number of digits");
    let e = parse_address("0x1234").unwrap_err();
    assert_eq!(e.message(), "Failed to parse address string '0x1234': invalid string length");
    let e = parse_address("0xA0b86991c6218b36c1d19D4a2e9Eb0cE3606eB4z").unwrap_err();
    assert_eq!(
        e.message(),
        "Failed to parse address string '0xA0b86991c6218b36c1d19D4a2e9Eb0cE3606eB4z': \
         invalid character 'z' at position 39"
    );
}

#[test]
fn a_hand_made_error_renders_like_a_returned_one() {
    let e = UsdcError::AddressParseError {
        address_str: String::from("nope"),
        source: HexError::InvalidHexCharacter { c: '\n', index: 5 },
    };
    assert_eq!(
        e.message(),
        "Failed to parse address string 'nope': invalid character '\\n' at position 5"
    );
    let e = UsdcError::AddressParseError {
        address_str: String::new(),
        source: HexError::InvalidStringLength,
    };
    assert_eq!(e.message(), "Failed to parse address string '': invalid string length");
}

#[test]
fn the_two_kinds_of_error_read_differently() {
    let unsupported = NamedChain::Gnosis.usdc_address().unwrap_err().message();
    let malformed = parse_address("Gnosis").unwrap_err().message();
    assert_ne!(unsupported, malformed);
    assert!(unsupported.contains("Gnosis"));
    assert!(malformed.contains("'Gnosis'"));
}
