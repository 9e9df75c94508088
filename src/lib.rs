//! Offline backup, rollback and recovery of a blockchain node's stores.
pub mod codec;
pub mod config;
pub mod crypto;
pub mod error;
pub mod export;
pub mod ledger;
pub mod proto;
pub mod state;
pub mod utxo;
