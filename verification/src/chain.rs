//! The chain registry's identifiers, as far as the directory reads them.

use alloy_chains::NamedChain;
use vstd::prelude::*;

verus! {

/// `alloy_chains::NamedChain`, the registry's name for a chain. Nothing
/// inside a value is visible here; it is carried through and handed back.
#[verifier::external_type_specification]
#[verifier::external_body]
pub struct ExNamedChain(NamedChain);

// The chains that the directory knows, each by its EIP-155 number.

/// Ethereum mainnet.
pub const MAINNET: u64 = 1;

/// OP Mainnet.
pub const OPTIMISM: u64 = 10;

/// BNB Smart Chain.
pub const BINANCE_SMART_CHAIN: u64 = 56;

/// Polygon PoS.
pub const POLYGON: u64 = 137;

/// Sonic.
pub const SONIC: u64 = 146;

/// Fantom Opera.
pub const FANTOM: u64 = 250;

/// Fraxtal.
pub const FRAXTAL: u64 = 252;

/// ZKsync Era.
pub const ZKSYNC: u64 = 324;

/// Mantle.
pub const MANTLE: u64 = 5000;

/// Base.
pub const BASE: u64 = 8453;

/// Mode.
pub const MODE: u64 = 34443;

/// Arbitrum One.
pub const ARBITRUM: u64 = 42161;

/// Avalanche C-Chain.
pub const AVALANCHE: u64 = 43114;

/// Linea.
pub const LINEA: u64 = 59144;

/// Base Sepolia, the testnet of Base.
pub const BASE_SEPOLIA: u64 = 84532;

/// Arbitrum Sepolia, the testnet of Arbitrum One.
pub const ARBITRUM_SEPOLIA: u64 = 421614;

/// Scroll.
pub const SCROLL: u64 = 534352;

/// Sepolia, the testnet of Ethereum.
pub const SEPOLIA: u64 = 11155111;

/// The EIP-155 number of `chain`: the value of `u64::from(chain)`, which is
/// the discriminant that the registry declares for the variant.
pub uninterp spec fn chain_id(chain: NamedChain) -> u64;

/// The text that `NamedChain`'s `Debug` writes for `chain`.
pub uninterp spec fn chain_debug(chain: NamedChain) -> Seq<char>;

/// Calls `u64::from` on a `NamedChain`. Nothing is proved of it: the result
/// is only given its name, `chain_id`.
#[verifier::external_body]
pub(crate) fn chain_id_of(chain: NamedChain) -> (id: u64)
    ensures
        id == chain_id(chain),
{
    u64::from(chain)
}

/// Formats a `NamedChain` with its `Debug` impl. Nothing is proved of it:
/// the result is only given its name, `chain_debug`.
#[verifier::external_body]
pub(crate) fn chain_debug_string(chain: &NamedChain) -> (text: String)
    ensures
        text@ == chain_debug(*chain),
{
    format!("{:?}", chain)
}

} // verus!
