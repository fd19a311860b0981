//! Miner-identity registry for a storage network: address derivation for
//! sequential miner ids, and the authorization state machine that governs
//! owner, worker and controller changes of each miner.
pub mod address;
pub mod common;
pub mod miner;
pub mod pns;
pub mod power;
pub mod registered_proof;
pub mod rpc;
pub mod scale;
pub mod store;
