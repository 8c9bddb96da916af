//! Governance receipt chain for revocable pointers to stored subject data.
//!
//! Every lifecycle operation on a pointer (create, resolve, orphan) is
//! recorded as a signed receipt that embeds the digest of the receipt before
//! it, so the history of a pointer cannot be rewritten without detection.

pub mod text;
pub mod ident;
pub mod clock;
pub mod config;
pub mod json;
pub mod metadata;
pub mod ledger;
pub mod crypto;
pub mod db;
pub mod enforcement;
pub mod api;
