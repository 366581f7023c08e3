//! Network parameters of a Bitcoin-derived chain, the genesis blocks, the
//! activation heights of the on-chain protocols, and the reconciliation of the
//! inscription location index with a wallet's unspent outputs.

pub mod chain;
pub mod encoding;
pub mod genesis;
pub mod address;
pub mod sat_point;
pub mod inscriptions;
