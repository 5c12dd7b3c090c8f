//! Hierarchical key derivation and confidential-balance reconstruction for a
//! privacy-preserving account system.
//!
//! A single 32-byte seed (random, or recovered from a BIP-39 phrase) is the
//! root of a strict derivation chain: proof-generation key, then decryption
//! key, then encryption key, each serialized to 32 bytes. Independently, a
//! decryption key together with two ciphertext slots fetched from ledger
//! storage is reconstructed into a plaintext balance, with exact handling of
//! the ledger's "no value" sentinel and its fixed structural prefix.
//!
//! The curve/pairing engine, the proof system, the SS58 address codec and the
//! chain RPC client are outside collaborators: this crate holds the decision
//! logic around them and receives their outputs as plain values.

pub mod balance;
pub mod errors;
pub mod hexcodec;
pub mod keys;
pub mod scalar;
pub mod seed;

pub use balance::BalanceQuery;
pub use errors::Error;
pub use errors::ErrorKind;
pub use keys::PrintKeys;
