//! Hashing, signing and receipt construction.

pub mod base64;
pub mod ed25519;
pub mod hashing;
pub mod hex;
pub mod receipts;
