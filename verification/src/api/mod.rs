//! The operations that the transport layer calls, and their errors.

pub mod errors;
pub mod handlers;
