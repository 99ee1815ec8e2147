//! The directory: which chains have a USDC contract on record, and under
//! which address text.

use crate::chain::{
    ARBITRUM, ARBITRUM_SEPOLIA, AVALANCHE, BASE, BASE_SEPOLIA, BINANCE_SMART_CHAIN, FANTOM,
    FRAXTAL, LINEA, MAINNET, MANTLE, MODE, OPTIMISM, POLYGON, SCROLL, SEPOLIA, SONIC, ZKSYNC,
};
use crate::hex::{is_address_literal, literal_bytes};
use vstd::prelude::*;

verus! {

pub const ARBITRUM_USDC: &'static str = "0xaf88d065e77c8cC2239327C5EDb3A432268e5831";

pub const ARBITRUM_SEPOLIA_USDC: &'static str = "0x75faf114eafb1BDbe2F0316DF893fd58CE46AA4d";

/// <https://debank.com/token/avax/0xb97ef9ef8734c71904d8002f8b6bc66dd9c48a6e/overview>
pub const AVALANCHE_USDC: &'static str = "0xb97ef9ef8734c71904d8002f8b6bc66dd9c48a6e";

pub const BASE_USDC: &'static str = "0x833589fCD6eDb6E08f4c7C32D4f71b54bdA02913";

/// <https://base-sepolia.blockscout.com/address/0x036CbD53842c5426634e7929541eC2318f3dCF7e>
pub const BASE_SEPOLIA_USDC: &'static str = "0x036CbD53842c5426634e7929541eC2318f3dCF7e";

pub const BSC_USDC: &'static str = "0x8AC76a51cc950d9822D68b83fE1Ad97B32Cd580d";

pub const ETHEREUM_USDC: &'static str = "0xA0b86991c6218b36c1d19D4a2e9Eb0cE3606eB48";

/// <https://sepolia.etherscan.io/address/0x1c7D4B196Cb0C7B01d743Fbc6116a902379C7238>
pub const ETHEREUM_SEPOLIA_USDC: &'static str = "0x1c7D4B196Cb0C7B01d743Fbc6116a902379C7238";

/// <https://www.oklink.com/fantom/token/0x04068da6c83afcfa0e13ba15a6696662335d5b75>
pub const FANTOM_USDC: &'static str = "0x04068da6c83afcfa0e13ba15a6696662335d5b75";

pub const FRAXTAL_USDC: &'static str = "0xDcc0F2D8F90FDe85b10aC1c8Ab57dc0AE946A543";

pub const LINEA_USDC: &'static str = "0x176211869cA2b568f2A7D4EE941E073a821EE1ff";

/// <http://mantlescan.xyz/token/0x09bc4e0d864854c6afb6eb9a9cdf58ac190d0df9>
pub const MANTLE_USDC: &'static str = "0x09Bc4E0D864854c6aFB6eB9A9cdF58aC190D0dF9";

pub const MODE_USDC: &'static str = "0xd988097fb8612cc24eeC14542bC03424c656005f";

pub const OPTIMISM_USDC: &'static str = "0x0b2C639c533813f4Aa9D7837CAf62653d097Ff85";

pub const POLYGON_USDC: &'static str = "0x3c499c542cEF5E3811e1192ce70d8cC03d5c3359";

pub const SCROLL_USDC: &'static str = "0x06eFdBFf2a14a7c8E15944D1F4A48F9F95F663A4";

pub const SONIC_USDC: &'static str = "0x29219dd400f2Bf60E5a23d13Be72B486D4038894";

pub const ZKSYNC_USDC: &'static str = "0x1d17CBcF0D6D143135aE902365D2E5e2A16538D4";

/// The directory as a map: from the number of each supported chain to the
/// address text on record for it.
pub open spec fn usdc_table() -> Map<u64, Seq<char>> {
    map![
        ARBITRUM => ARBITRUM_USDC@,
        ARBITRUM_SEPOLIA => ARBITRUM_SEPOLIA_USDC@,
        AVALANCHE => AVALANCHE_USDC@,
        BASE => BASE_USDC@,
        BASE_SEPOLIA => BASE_SEPOLIA_USDC@,
        BINANCE_SMART_CHAIN => BSC_USDC@,
        FANTOM => FANTOM_USDC@,
        FRAXTAL => FRAXTAL_USDC@,
        SEPOLIA => ETHEREUM_SEPOLIA_USDC@,
        LINEA => LINEA_USDC@,
        MAINNET => ETHEREUM_USDC@,
        MANTLE => MANTLE_USDC@,
        MODE => MODE_USDC@,
        OPTIMISM => OPTIMISM_USDC@,
        POLYGON => POLYGON_USDC@,
        SCROLL => SCROLL_USDC@,
        SONIC => SONIC_USDC@,
        ZKSYNC => ZKSYNC_USDC@,
    ]
}

/// The directory has an entry for the chain with this number.
pub open spec fn is_supported(chain_id: u64) -> bool {
    usdc_table().contains_key(chain_id)
}

/// The address text on record for the chain with this number, if any.
pub open spec fn usdc_constant(chain_id: u64) -> Option<Seq<char>> {
    if is_supported(chain_id) {
        Some(usdc_table()[chain_id])
    } else {
        None
    }
}

/// The testnet on record that belongs to the mainnet with this number, if
/// the directory holds both.
pub open spec fn testnet_of(chain_id: u64) -> Option<u64> {
    if chain_id == MAINNET {
        Some(SEPOLIA)
    } else if chain_id == BASE {
        Some(BASE_SEPOLIA)
    } else if chain_id == ARBITRUM {
        Some(ARBITRUM_SEPOLIA)
    } else {
        None
    }
}

/// Looks the chain up in the directory.
pub fn find_usdc_constant(chain_id: u64) -> (r: Option<&'static str>)
    ensures
        r is Some <==> is_supported(chain_id),
        r matches Some(s) ==> usdc_constant(chain_id) == Some(s@),
{
    match chain_id {
        ARBITRUM => Some(ARBITRUM_USDC),
        ARBITRUM_SEPOLIA => Some(ARBITRUM_SEPOLIA_USDC),
        AVALANCHE => Some(AVALANCHE_USDC),
        BASE => Some(BASE_USDC),
        BASE_SEPOLIA => Some(BASE_SEPOLIA_USDC),
        BINANCE_SMART_CHAIN => Some(BSC_USDC),
        FANTOM => Some(FANTOM_USDC),
        FRAXTAL => Some(FRAXTAL_USDC),
        SEPOLIA => Some(ETHEREUM_SEPOLIA_USDC),
        LINEA => Some(LINEA_USDC),
        MAINNET => Some(ETHEREUM_USDC),
        MANTLE => Some(MANTLE_USDC),
        MODE => Some(MODE_USDC),
        OPTIMISM => Some(OPTIMISM_USDC),
        POLYGON => Some(POLYGON_USDC),
        SCROLL => Some(SCROLL_USDC),
        SONIC => Some(SONIC_USDC),
        ZKSYNC => Some(ZKSYNC_USDC),
        _ => None,
    }
}

/// What the address texts hold, read off the literals: each is well formed,
/// and no two spell the same first byte.
proof fn lemma_constants()
    ensures
        is_address_literal(ARBITRUM_USDC@) && literal_bytes(ARBITRUM_USDC@)[0] == 0xaf,
        is_address_literal(ARBITRUM_SEPOLIA_USDC@) && literal_bytes(ARBITRUM_SEPOLIA_USDC@)[0]
            == 0x75,
        is_address_literal(AVALANCHE_USDC@) && literal_bytes(AVALANCHE_USDC@)[0] == 0xb9,
        is_address_literal(BASE_USDC@) && literal_bytes(BASE_USDC@)[0] == 0x83,
        is_address_literal(BASE_SEPOLIA_USDC@) && literal_bytes(BASE_SEPOLIA_USDC@)[0] == 0x03,
        is_address_literal(BSC_USDC@) && literal_bytes(BSC_USDC@)[0] == 0x8a,
        is_address_literal(ETHEREUM_USDC@) && literal_bytes(ETHEREUM_USDC@)[0] == 0xa0,
        is_address_literal(ETHEREUM_SEPOLIA_USDC@) && literal_bytes(ETHEREUM_SEPOLIA_USDC@)[0]
            == 0x1c,
        is_address_literal(FANTOM_USDC@) && literal_bytes(FANTOM_USDC@)[0] == 0x04,
        is_address_literal(FRAXTAL_USDC@) && literal_bytes(FRAXTAL_USDC@)[0] == 0xdc,
        is_address_literal(LINEA_USDC@) && literal_bytes(LINEA_USDC@)[0] == 0x17,
        is_address_literal(MANTLE_USDC@) && literal_bytes(MANTLE_USDC@)[0] == 0x09,
        is_address_literal(MODE_USDC@) && literal_bytes(MODE_USDC@)[0] == 0xd9,
        is_address_literal(OPTIMISM_USDC@) && literal_bytes(OPTIMISM_USDC@)[0] == 0x0b,
        is_address_literal(POLYGON_USDC@) && literal_bytes(POLYGON_USDC@)[0] == 0x3c,
        is_address_literal(SCROLL_USDC@) && literal_bytes(SCROLL_USDC@)[0] == 0x06,
        is_address_literal(SONIC_USDC@) && literal_bytes(SONIC_USDC@)[0] == 0x29,
        is_address_literal(ZKSYNC_USDC@) && literal_bytes(ZKSYNC_USDC@)[0] == 0x1d,
{
    reveal_strlit("0xaf88d065e77c8cC2239327C5EDb3A432268e5831");
    reveal_strlit("0x75faf114eafb1BDbe2F0316DF893fd58CE46AA4d");
    reveal_strlit("0xb97ef9ef8734c71904d8002f8b6bc66dd9c48a6e");
    reveal_strlit("0x833589fCD6eDb6E08f4c7C32D4f71b54bdA02913");
    reveal_strlit("0x036CbD53842c5426634e7929541eC2318f3dCF7e");
    reveal_strlit("0x8AC76a51cc950d9822D68b83fE1Ad97B32Cd580d");
    reveal_strlit("0xA0b86991c6218b36c1d19D4a2e9Eb0cE3606eB48");
    reveal_strlit("0x1c7D4B196Cb0C7B01d743Fbc6116a902379C7238");
    reveal_strlit("0x04068da6c83afcfa0e13ba15a6696662335d5b75");
    reveal_strlit("0xDcc0F2D8F90FDe85b10aC1c8Ab57dc0AE946A543");
    reveal_strlit("0x176211869cA2b568f2A7D4EE941E073a821EE1ff");
    reveal_strlit("0x09Bc4E0D864854c6aFB6eB9A9cdF58aC190D0dF9");
    reveal_strlit("0xd988097fb8612cc24eeC14542bC03424c656005f");
    reveal_strlit("0x0b2C639c533813f4Aa9D7837CAf62653d097Ff85");
    reveal_strlit("0x3c499c542cEF5E3811e1192ce70d8cC03d5c3359");
    reveal_strlit("0x06eFdBFf2a14a7c8E15944D1F4A48F9F95F663A4");
    reveal_strlit("0x29219dd400f2Bf60E5a23d13Be72B486D4038894");
    reveal_strlit("0x1d17CBcF0D6D143135aE902365D2E5e2A16538D4");
}

/// Every address text on record is `0x` followed by exactly forty
/// hexadecimal digits.
pub proof fn lemma_constants_are_well_formed(chain_id: u64)
    requires
        is_supported(chain_id),
    ensures
        is_address_literal(usdc_table()[chain_id]),
{
    lemma_constants();
}

/// The chain whose address on record starts with the byte `b`.
spec fn chain_starting_with(b: u8) -> u64 {
    if b == 0xaf {
        ARBITRUM
    } else if b == 0x75 {
        ARBITRUM_SEPOLIA
    } else if b == 0xb9 {
        AVALANCHE
    } else if b == 0x83 {
        BASE
    } else if b == 0x03 {
        BASE_SEPOLIA
    } else if b == 0x8a {
        BINANCE_SMART_CHAIN
    } else if b == 0xa0 {
        MAINNET
    } else if b == 0x1c {
        SEPOLIA
    } else if b == 0x04 {
        FANTOM
    } else if b == 0xdc {
        FRAXTAL
    } else if b == 0x17 {
        LINEA
    } else if b == 0x09 {
        MANTLE
    } else if b == 0xd9 {
        MODE
    } else if b == 0x0b {
        OPTIMISM
    } else if b == 0x3c {
        POLYGON
    } else if b == 0x06 {
        SCROLL
    } else if b == 0x29 {
        SONIC
    } else {
        ZKSYNC
    }
}

/// The first byte of an address on record is enough to tell its chain.
proof fn lemma_first_byte_tells_chain(chain_id: u64)
    requires
        is_supported(chain_id),
    ensures
        chain_starting_with(literal_bytes(usdc_table()[chain_id])[0]) == chain_id,
{
    lemma_constants();
}

/// No two chains on record share an address: their texts differ, and so do
/// the bytes that the texts spell.
pub proof fn lemma_constants_are_distinct(a: u64, b: u64)
    requires
        is_supported(a),
        is_supported(b),
        a != b,
    ensures
        usdc_table()[a] != usdc_table()[b],
        literal_bytes(usdc_table()[a]) != literal_bytes(usdc_table()[b]),
{
    lemma_first_byte_tells_chain(a);
    lemma_first_byte_tells_chain(b);
}

} // verus!
