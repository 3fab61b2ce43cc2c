//! A thin, verified binding surface over an external Bitcoin wallet engine.
//!
//! The engine (the `bdk` crate) performs descriptor parsing, key derivation,
//! chain synchronization, coin selection and signing. This crate holds the
//! binding's own logic — plain value types, configuration narrowing, the
//! immutable transaction builder, and the decisions taken on engine results —
//! and verifies that logic against explicit contracts. Every call into the
//! engine stands behind a trusted item whose contract states only what the
//! engine's source shows.

pub mod builder;
pub mod engine;
pub mod error;
pub mod keys;
pub mod psbt;
pub mod types;
pub mod wallet;

pub use builder::{to_script_pubkey, TxBuilder};
pub use error::{Error, ErrorKind};
pub use keys::{generate_extended_key, restore_extended_key};
pub use psbt::PartiallySignedBitcoinTransaction;
pub use types::{
    AddressIndex, AddressInfo, Balance, BlockTime, BlockchainConfig, DatabaseConfig,
    ElectrumConfig, EsploraConfig, ExtendedKeyInfo, KeychainKind, Network, ScriptAmount,
    SledDbConfiguration, SqliteDbConfiguration, Transaction, TransactionDetails, WordCount,
};
pub use wallet::{finalize_outcome, stop_gap_to_platform, Wallet};
