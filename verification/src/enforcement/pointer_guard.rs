//! Orphaned pointers cannot be resolved.

use vstd::prelude::*;
use crate::db::models::{Pointer, PointerStatus};

verus! {

/// Why access was denied.
#[derive(Clone, Copy, Debug, PartialEq, Eq, Structural)]
pub enum AccessError {
    /// The pointer has been orphaned; it will never be resolved again.
    PointerOrphaned,
}

/// The words in which a denial is reported.
pub open spec fn denial_text() -> Seq<char> {
    "pointer_orphaned: This pointer has been orphaned and cannot be resolved"@
}

impl AccessError {
    /// The words in which the denial is reported.
    pub fn message(&self) -> (r: String)
        ensures
            r@ == denial_text(),
    {
        "pointer_orphaned: This pointer has been orphaned and cannot be resolved".to_owned()
    }
}

/// Whether a pointer in state `status` may be resolved.
pub open spec fn accessible(status: PointerStatus) -> bool {
    status == PointerStatus::Active
}

/// Allows access to an active pointer and denies it to an orphaned one.
pub fn enforce_pointer_access(pointer: &Pointer) -> (r: Result<(), AccessError>)
    ensures
        r is Ok <==> accessible(pointer.status),
        r is Err ==> r == Err::<(), AccessError>(AccessError::PointerOrphaned),
{
    match pointer.status {
        PointerStatus::Active => Ok(()),
        PointerStatus::Orphaned => Err(AccessError::PointerOrphaned),
    }
}

/// Whether the pointer may be resolved.
pub fn is_pointer_accessible(pointer: &Pointer) -> (r: bool)
    ensures
        r == accessible(pointer.status),
{
    match pointer.status {
        PointerStatus::Active => true,
        PointerStatus::Orphaned => false,
    }
}

} // verus!
