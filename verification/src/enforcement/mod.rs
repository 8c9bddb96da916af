//! The access check that is consulted before a pointer is resolved.

pub mod pointer_guard;
