//! Resolving a chain to the address of its USDC contract.

use crate::address::{address_bytes, address_from_str};
use crate::chain::{chain_id, chain_id_of};
use crate::directory::{
    find_usdc_constant, is_supported, lemma_constants_are_distinct,
    lemma_constants_are_well_formed, testnet_of, usdc_constant, usdc_table,
};
use crate::error::{UsdcError, UsdcErrorView};
use crate::hex::{decode_address, lemma_literal_decodes, literal_bytes, ADDRESS_LEN};
use alloy_chains::NamedChain;
use alloy_primitives::Address;
use vstd::prelude::*;
use vstd::utf8::encode_utf8;

verus! {

/// What a lookup returned, as plain data: the bytes of the address, or the
/// error.
pub open spec fn outcome(r: Result<Address, UsdcError>) -> Result<Seq<u8>, UsdcErrorView> {
    match r {
        Ok(address) => Ok(address_bytes(address)),
        Err(e) => Err(e@),
    }
}

/// What parsing the address text `s` yields: the bytes it spells, or a parse
/// error that carries the text and what is wrong with it.
pub open spec fn parsed(s: Seq<char>) -> Result<Seq<u8>, UsdcErrorView> {
    match decode_address(encode_utf8(s)) {
        Ok(bytes) => Ok(bytes),
        Err(e) => Err(UsdcErrorView::AddressParseError { address_str: s, source: e }),
    }
}

/// What looking up the chain with number `chain_id` yields: the parsed
/// address text on record for the number, or, if nothing is on record, an
/// error that carries `chain`.
pub open spec fn resolved_by_id(chain: NamedChain, chain_id: u64) -> Result<
    Seq<u8>,
    UsdcErrorView,
> {
    match usdc_constant(chain_id) {
        Some(s) => parsed(s),
        None => Err(UsdcErrorView::UnsupportedChain(chain)),
    }
}

/// What looking `chain` up yields.
pub open spec fn resolved(chain: NamedChain) -> Result<Seq<u8>, UsdcErrorView> {
    resolved_by_id(chain, chain_id(chain))
}

/// Parses an address text. A text that is no address is reported together
/// with the reason; nothing is assumed of the text beforehand.
pub fn parse_address(address_s: &str) -> (r: Result<Address, UsdcError>)
    ensures
        outcome(r) == parsed(address_s@),
        r matches Ok(address) ==> address_bytes(address).len() == ADDRESS_LEN,
{
    match address_from_str(address_s) {
        Ok(address) => Ok(address),
        Err(e) => Err(UsdcError::AddressParseError { address_str: address_s.to_owned(), source: e }),
    }
}

/// Looks up the chain whose number is `chain_id` and parses the address
/// text on record for it. `chain` is not consulted: it is what the error
/// carries when nothing is on record for the number.
pub fn resolve_by_id(chain: NamedChain, chain_id: u64) -> (r: Result<Address, UsdcError>)
    ensures
        outcome(r) == resolved_by_id(chain, chain_id),
        r is Ok <==> is_supported(chain_id),
        r matches Ok(address) ==> address_bytes(address) == literal_bytes(usdc_table()[chain_id])
            && address_bytes(address).len() == ADDRESS_LEN,
        r matches Err(e) ==> e@ == UsdcErrorView::UnsupportedChain(chain),
{
    match find_usdc_constant(chain_id) {
        Some(address_s) => {
            proof {
                lemma_constants_are_well_formed(chain_id);
                lemma_literal_decodes(address_s@);
            }
            parse_address(address_s)
        },
        None => Err(UsdcError::UnsupportedChain(chain)),
    }
}

/// Anything that can tell the address of the USDC contract that belongs to
/// it.
pub trait Usdc {
    /// The address text on record for this context, if there is one.
    spec fn address_text(&self) -> Option<Seq<char>>;

    /// Returns the USDC contract address for this context: the parsed
    /// address text where one is on record, `UnsupportedChain` where none
    /// is.
    fn usdc_address(&self) -> (r: Result<Address, UsdcError>)
        ensures
            match self.address_text() {
                Some(s) => outcome(r) == parsed(s),
                None => r matches Err(UsdcError::UnsupportedChain(_)),
            },
    ;
}

impl Usdc for NamedChain {
    open spec fn address_text(&self) -> Option<Seq<char>> {
        usdc_constant(chain_id(*self))
    }

    /// Looks the chain up in the directory and parses the address text
    /// found there. A supported chain always gets its address; any other
    /// chain is handed back in the error.
    fn usdc_address(&self) -> (r: Result<Address, UsdcError>)
        ensures
            outcome(r) == resolved(*self),
            r is Ok <==> is_supported(chain_id(*self)),
            r matches Ok(address) ==> address_bytes(address) == literal_bytes(
                usdc_table()[chain_id(*self)],
            ) && address_bytes(address).len() == ADDRESS_LEN,
            r matches Err(e) ==> e@ == UsdcErrorView::UnsupportedChain(*self),
    {
        resolve_by_id(*self, chain_id_of(*self))
    }
}

/// Every supported chain resolves, and to the twenty bytes that its address
/// text spells.
pub proof fn lemma_supported_chain_resolves(chain: NamedChain)
    requires
        is_supported(chain_id(chain)),
    ensures
        resolved(chain) == Ok::<Seq<u8>, UsdcErrorView>(
            literal_bytes(usdc_table()[chain_id(chain)]),
        ),
        literal_bytes(usdc_table()[chain_id(chain)]).len() == ADDRESS_LEN,
{
    lemma_constants_are_well_formed(chain_id(chain));
    lemma_literal_decodes(usdc_table()[chain_id(chain)]);
}

/// Every chain that is not supported is reported as such, and the error
/// carries that very chain.
pub proof fn lemma_unsupported_chain_is_reported(chain: NamedChain)
    requires
        !is_supported(chain_id(chain)),
    ensures
        resolved(chain) == Err::<Seq<u8>, UsdcErrorView>(UsdcErrorView::UnsupportedChain(chain)),
{
}

/// Two lookups of one chain have the same outcome, byte for byte.
pub proof fn lemma_lookup_is_deterministic(
    chain: NamedChain,
    first: Result<Address, UsdcError>,
    second: Result<Address, UsdcError>,
)
    requires
        outcome(first) == resolved(chain),
        outcome(second) == resolved(chain),
    ensures
        outcome(first) == outcome(second),
{
}

/// A mainnet and the testnet that belongs to it never resolve to one
/// another's address: both resolve, and to different bytes, from different
/// address texts.
pub proof fn lemma_mainnet_and_testnet_differ(mainnet: NamedChain, testnet: NamedChain)
    requires
        testnet_of(chain_id(mainnet)) == Some(chain_id(testnet)),
    ensures
        resolved(mainnet) is Ok,
        resolved(testnet) is Ok,
        resolved(mainnet) != resolved(testnet),
        usdc_constant(chain_id(mainnet)) != usdc_constant(chain_id(testnet)),
{
    lemma_supported_chain_resolves(mainnet);
    lemma_supported_chain_resolves(testnet);
    lemma_constants_are_distinct(chain_id(mainnet), chain_id(testnet));
}

} // verus!
