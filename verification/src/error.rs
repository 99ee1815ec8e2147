//! What a lookup reports when it yields no address.

use crate::address::{hex_error_string, hex_error_text};
use crate::chain::{chain_debug, chain_debug_string};
use crate::hex::HexError;
use alloy_chains::NamedChain;
use vstd::prelude::*;
use vstd::string::StringExecFns;

verus! {

/// Why no USDC address was returned.
#[derive(Debug)]
pub enum UsdcError {
    /// The directory has no address for the chain.
    UnsupportedChain(NamedChain),
    /// The directory has an entry for the chain, but its text is not the
    /// hexadecimal form of an address.
    AddressParseError {
        /// The text that failed to parse.
        address_str: String,
        /// What is wrong with it.
        source: HexError,
    },
}

/// A `UsdcError` as plain data.
pub enum UsdcErrorView {
    UnsupportedChain(NamedChain),
    AddressParseError { address_str: Seq<char>, source: HexError },
}

impl View for UsdcError {
    type V = UsdcErrorView;

    open spec fn view(&self) -> UsdcErrorView {
        match *self {
            UsdcError::UnsupportedChain(chain) => UsdcErrorView::UnsupportedChain(chain),
            UsdcError::AddressParseError { address_str, source } => {
                UsdcErrorView::AddressParseError { address_str: address_str@, source }
            },
        }
    }
}

/// The message that describes `e` to a reader.
pub open spec fn message_text(e: UsdcErrorView) -> Seq<char> {
    match e {
        UsdcErrorView::UnsupportedChain(chain) => {
            "USDC address not available for chain: "@ + chain_debug(chain)
        },
        UsdcErrorView::AddressParseError { address_str, source } => {
            "Failed to parse address string '"@ + address_str + "': "@ + hex_error_text(source)
        },
    }
}

impl UsdcError {
    /// Renders the error for display or logging: which chain was asked
    /// for, or which text is malformed and why.
    pub fn message(&self) -> (text: String)
        ensures
            text@ == message_text(self@),
    {
        match self {
            UsdcError::UnsupportedChain(chain) => {
                let name = chain_debug_string(chain);
                "USDC address not available for chain: ".to_owned().concat(name.as_str())
            },
            UsdcError::AddressParseError { address_str, source } => {
                let cause = hex_error_string(*source);
                "Failed to parse address string '".to_owned().concat(address_str.as_str()).concat(
                    "': ",
                ).concat(cause.as_str())
            },
        }
    }
}

} // verus!
