use usdshe::chain::{
    ARBITRUM, ARBITRUM_SEPOLIA, AVALANCHE, BASE, BASE_SEPOLIA, BINANCE_SMART_CHAIN, FANTOM,
    FRAXTAL, LINEA, MAINNET, MANTLE, MODE, OPTIMISM, POLYGON, SCROLL, SEPOLIA, SONIC, ZKSYNC,
};
use usdshe::directory::{
    find_usdc_constant, ARBITRUM_SEPOLIA_USDC, ARBITRUM_USDC, AVALANCHE_USDC, BASE_SEPOLIA_USDC,
    BASE_USDC, BSC_USDC, ETHEREUM_SEPOLIA_USDC, ETHEREUM_USDC, FANTOM_USDC, FRAXTAL_USDC,
    LINEA_USDC, MANTLE_USDC, MODE_USDC, OPTIMISM_USDC, POLYGON_USDC, SCROLL_USDC, SONIC_USDC,
    ZKSYNC_USDC,
};
use usdshe::hex::ADDRESS_LEN;
use usdshe::parse_address;

const ENTRIES: [(u64, &str); 18] = [
    (ARBITRUM, ARBITRUM_USDC),
    (ARBITRUM_SEPOLIA, ARBITRUM_SEPOLIA_USDC),
    (AVALANCHE, AVALANCHE_USDC),
    (BASE, BASE_USDC),
    (BASE_SEPOLIA, BASE_SEPOLIA_USDC),
    (BINANCE_SMART_CHAIN, BSC_USDC),
    (FANTOM, FANTOM_USDC),
    (FRAXTAL, FRAXTAL_USDC),
    (SEPOLIA, ETHEREUM_SEPOLIA_USDC),
    (LINEA, LINEA_USDC),
    (MAINNET, ETHEREUM_USDC),
    (MANTLE, MANTLE_USDC),
    (MODE, MODE_USDC),
    (OPTIMISM, OPTIMISM_USDC),
    (POLYGON, POLYGON_USDC),
    (SCROLL, SCROLL_USDC),
    (SONIC, SONIC_USDC),
    (ZKSYNC, ZKSYNC_USDC),
];

#[test]
fn the_directory_holds_the_text_of_each_supported_chain() {
    for (chain_id, text) in ENTRIES {
        assert_eq!(find_usdc_constant(chain_id), Some(text), "{}", chain_id);
    }
    assert_eq!(find_usdc_constant(1), Some("0xA0b86991c6218b36c1d19D4a2e9Eb0cE3606eB48"));
    assert_eq!(find_usdc_constant(137), Some("0x3c499c542cEF5E3811e1192ce70d8cC03d5c3359"));
    assert_eq!(find_usdc_constant(43114), Some("0xb97ef9ef8734c71904d8002f8b6bc66dd9c48a6e"));
}

#[test]
fn the_directory_holds_nothing_else() {
    for chain_id in [0, 2, 100, 136, 138, 8452, 11155110, 11155420, u64::MAX] {
        assert_eq!(find_usdc_constant(chain_id), None, "{}", chain_id);
    }
    let mut found = 0;
    for chain_id in 0..600_000u64 {
        if find_usdc_constant(chain_id).is_some() {
            found += 1;
        }
    }
    // all but Sepolia lie below 600000
    assert_eq!(found, 17);
}

#[test]
fn each_text_is_a_prefix_and_forty_hexadecimal_digits() {
    for (chain_id, text) in ENTRIES {
        assert_eq!(text.len(), 42, "{}", chain_id);
        assert!(text.starts_with("0x"), "{}", chain_id);
        assert!(text[2..].bytes().all(|b| b.is_ascii_hexdigit()), "{}", chain_id);
        assert_eq!(text[2..].len(), 2 * ADDRESS_LEN);
    }
}

#[test]
fn each_text_parses_to_twenty_bytes() {
    for (chain_id, text) in ENTRIES {
        let address = parse_address(text).unwrap();
        assert_eq!(address.as_slice().len(), ADDRESS_LEN, "{}", chain_id);
    }
}

#[test]
fn the_texts_differ_from_one_another() {
    for (i, (a, first)) in ENTRIES.iter().enumerate() {
        for (b, second) in ENTRIES.iter().skip(i + 1) {
            assert_ne!(a, b);
            assert_ne!(first.to_lowercase(), second.to_lowercase(), "{} and {}", a, b);
        }
    }
}
