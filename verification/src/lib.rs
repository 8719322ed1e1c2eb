//! Verified core of an event-to-transaction pipeline for a public blockchain.
//!
//! The library watches decoded transaction records for the initialization of a
//! liquidity pool paired with the chain's wrapped native asset, derives the
//! account set needed to trade against that pool, deterministically assembles
//! the purchase transaction, and prepares the wire payloads for several relay
//! backends.  All decisions and byte-level formats are verified; network I/O,
//! signing and third-party encodings are reached through a small set of
//! trusted wrappers.

pub mod bench;
pub mod builder;
pub mod chain;
pub mod config;
pub mod detect;
pub mod ids;
pub mod instr;
pub mod swap;
pub mod wire;

pub use ids::AccountId;
pub use ids::BlockHash;
