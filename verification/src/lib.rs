//! Confidential mix-and-settle core.
//!
//! The library validates a batch of encrypted deposits, recovers each
//! depositor's address from a signature over a domain-separated typed hash,
//! decrypts each depositor's intended payout address under an ECDH-derived
//! shared key, reorders the payout list deterministically, and derives a
//! content-addressed identifier for the batch that the settlement step is
//! keyed by.

pub mod bytes;
pub mod types;
pub mod hashing;
pub mod ecc;
pub mod aead;
pub mod encoding;
pub mod shuffle;
pub mod contract;
