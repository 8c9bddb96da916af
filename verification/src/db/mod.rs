//! The records that the persistence layer stores.

pub mod models;
