//! USDC contract addresses, by chain.
//!
//! The directory maps the chains it supports to the address of the USDC
//! contract on each. [`Usdc::usdc_address`] looks a chain up and parses the
//! address text on record; it is implemented for the chain registry's
//! `NamedChain`.

pub mod address;
pub mod chain;
pub mod directory;
pub mod error;
pub mod hex;
pub mod usdc;

pub use error::UsdcError;
pub use hex::HexError;
pub use usdc::{parse_address, resolve_by_id, Usdc};
