//! Proof assembly and storage-key derivation for a bridge between a
//! data-availability chain and Ethereum.
//!
//! The crate holds the decisions of the bridge service as verified functions on
//! plain values: how storage keys are derived, how raw storage values are
//! decoded, how the answers of the upstream services are merged into proof
//! bundles, and how results are shaped into responses. Network access, clocks
//! and serialisation are left to the caller.

pub mod beacon;
pub mod config;
pub mod data_proof;
pub mod error;
pub mod eth_proof;
pub mod hashing;
pub mod head;
pub mod hex;
pub mod range;
pub mod response;
pub mod scale;
pub mod storage_key;
pub mod uint256;
