//! Addresses of the smart contracts that a rollup node talks to.
//!
//! [`ContractsConfig`] holds the contracts of one chain and
//! [`EcosystemContracts`] those shared by all chains of an ecosystem. Every
//! slot is an address or a hash of `zksync_basic_types`; [`primitives`] says
//! what the contracts in this crate assume of those types.

pub mod contracts;
pub mod primitives;

pub use contracts::{ContractsConfig, EcosystemContracts};
