//! Pointers, stored data, receipts and audit events, as they are persisted.

use vstd::prelude::*;
use crate::clock::{Timestamp, TimestampView};
use crate::ident::Uuid;
use crate::metadata::{EntryView, Metadata};
use crate::text::{opt_view, owned, owned_opt};

verus! {

/// Lifecycle state of a pointer: `Active` until it is orphaned, `Orphaned`
/// for ever after.
#[derive(Clone, Copy, Debug, PartialEq, Eq, Structural)]
pub enum PointerStatus {
    Active,
    Orphaned,
}

/// The lower-case name of a status.
pub open spec fn status_text(status: PointerStatus) -> Seq<char> {
    match status {
        PointerStatus::Active => "active"@,
        PointerStatus::Orphaned => "orphaned"@,
    }
}

impl PointerStatus {
    /// The lower-case name of the status.
    pub fn as_str(&self) -> (r: &'static str)
        ensures
            r@ == status_text(*self),
    {
        match self {
            PointerStatus::Active => "active",
            PointerStatus::Orphaned => "orphaned",
        }
    }
}

/// The operation that a receipt records.
#[derive(Clone, Copy, Debug, PartialEq, Eq, Structural)]
pub enum ReceiptOperation {
    Create,
    Resolve,
    Orphan,
}

/// The lower-case name of an operation.
pub open spec fn operation_text(operation: ReceiptOperation) -> Seq<char> {
    match operation {
        ReceiptOperation::Create => "create"@,
        ReceiptOperation::Resolve => "resolve"@,
        ReceiptOperation::Orphan => "orphan"@,
    }
}

impl ReceiptOperation {
    /// The lower-case name of the operation.
    pub fn as_str(&self) -> (r: &'static str)
        ensures
            r@ == operation_text(*self),
    {
        match self {
            ReceiptOperation::Create => "create",
            ReceiptOperation::Resolve => "resolve",
            ReceiptOperation::Orphan => "orphan",
        }
    }
}

/// The content of an optional timestamp.
pub open spec fn opt_time_view(t: Option<Timestamp>) -> Option<TimestampView> {
    match t {
        Some(x) => Some(x@),
        None => None,
    }
}

/// The content of an optional identifier.
pub open spec fn opt_id_view(id: Option<Uuid>) -> Option<Seq<u8>> {
    match id {
        Some(x) => Some(x@),
        None => None,
    }
}

/// The content of optional bytes.
pub open spec fn opt_bytes_view(b: Option<Vec<u8>>) -> Option<Seq<u8>> {
    match b {
        Some(x) => Some(x@),
        None => None,
    }
}

/// A copy of an optional timestamp.
pub fn copy_opt_time(t: &Option<Timestamp>) -> (r: Option<Timestamp>)
    ensures
        opt_time_view(r) == opt_time_view(*t),
{
    match t {
        Some(x) => Some(x.clone()),
        None => None,
    }
}

/// A copy of optional bytes.
pub fn copy_opt_bytes(b: &Option<Vec<u8>>) -> (r: Option<Vec<u8>>)
    ensures
        opt_bytes_view(r) == opt_bytes_view(*b),
{
    match b {
        Some(x) => Some(x.clone()),
        None => None,
    }
}

/// An organization that owns pointers and stored data.
#[derive(Clone, Debug, PartialEq, Eq)]
pub struct Organization {
    pub org_id: Uuid,
    pub name: String,
    pub created_at: Timestamp,
    pub updated_at: Timestamp,
    pub metadata: Metadata,
}

/// The content of a [`DataStore`] record.
pub struct DataStoreView {
    pub data_id: Seq<u8>,
    pub org_id: Seq<u8>,
    pub subject_id: Seq<char>,
    pub content_hash: Seq<char>,
    pub encrypted_payload: Option<Seq<u8>>,
    pub created_at: TimestampView,
    pub metadata: Seq<EntryView>,
}

/// A write-once record of stored subject data. The payload is opaque.
#[derive(Debug, PartialEq, Eq)]
pub struct DataStore {
    pub data_id: Uuid,
    pub org_id: Uuid,
    pub subject_id: String,
    pub content_hash: String,
    pub encrypted_payload: Option<Vec<u8>>,
    pub created_at: Timestamp,
    pub metadata: Metadata,
}

impl View for DataStore {
    type V = DataStoreView;

    open spec fn view(&self) -> DataStoreView {
        DataStoreView {
            data_id: self.data_id@,
            org_id: self.org_id@,
            subject_id: self.subject_id@,
            content_hash: self.content_hash@,
            encrypted_payload: opt_bytes_view(self.encrypted_payload),
            created_at: self.created_at@,
            metadata: self.metadata.entries(),
        }
    }
}

impl Clone for DataStore {
    fn clone(&self) -> (r: DataStore)
        ensures
            r@ == self@,
    {
        DataStore {
            data_id: self.data_id,
            org_id: self.org_id,
            subject_id: owned(self.subject_id.as_str()),
            content_hash: owned(self.content_hash.as_str()),
            encrypted_payload: copy_opt_bytes(&self.encrypted_payload),
            created_at: self.created_at.clone(),
            metadata: self.metadata.clone(),
        }
    }
}

/// The content of a [`Pointer`].
pub struct PointerView {
    pub pointer_id: Seq<u8>,
    pub org_id: Seq<u8>,
    pub data_id: Seq<u8>,
    pub subject_id: Seq<char>,
    pub status: PointerStatus,
    pub created_at: TimestampView,
    pub orphaned_at: Option<TimestampView>,
    pub orphan_reason: Option<Seq<char>>,
    pub metadata: Seq<EntryView>,
}

/// A revocable reference that binds a subject to stored data.
#[derive(Debug, PartialEq, Eq)]
pub struct Pointer {
    pub pointer_id: Uuid,
    pub org_id: Uuid,
    pub data_id: Uuid,
    pub subject_id: String,
    pub status: PointerStatus,
    pub created_at: Timestamp,
    pub orphaned_at: Option<Timestamp>,
    pub orphan_reason: Option<String>,
    pub metadata: Metadata,
}

impl View for Pointer {
    type V = PointerView;

    open spec fn view(&self) -> PointerView {
        PointerView {
            pointer_id: self.pointer_id@,
            org_id: self.org_id@,
            data_id: self.data_id@,
            subject_id: self.subject_id@,
            status: self.status,
            created_at: self.created_at@,
            orphaned_at: opt_time_view(self.orphaned_at),
            orphan_reason: opt_view(self.orphan_reason),
            metadata: self.metadata.entries(),
        }
    }
}

impl Clone for Pointer {
    fn clone(&self) -> (r: Pointer)
        ensures
            r@ == self@,
    {
        Pointer {
            pointer_id: self.pointer_id,
            org_id: self.org_id,
            data_id: self.data_id,
            subject_id: owned(self.subject_id.as_str()),
            status: self.status,
            created_at: self.created_at.clone(),
            orphaned_at: copy_opt_time(&self.orphaned_at),
            orphan_reason: owned_opt(&self.orphan_reason),
            metadata: self.metadata.clone(),
        }
    }
}

impl PointerView {
    /// The orphan time is present exactly when the pointer is orphaned, and
    /// an orphan reason is present only then.
    pub open spec fn wf(self) -> bool {
        &&& (self.status == PointerStatus::Orphaned) == self.orphaned_at.is_some()
        &&& self.orphan_reason.is_some() ==> self.status == PointerStatus::Orphaned
    }
}

/// The content of a [`GovernanceReceipt`].
pub struct GovernanceReceiptView {
    pub receipt_id: Seq<u8>,
    pub pointer_id: Seq<u8>,
    pub org_id: Seq<u8>,
    pub operation: ReceiptOperation,
    pub receipt_json: Seq<char>,
    pub receipt_hash: Seq<char>,
    pub signature: Seq<u8>,
    pub signature_algorithm: Seq<char>,
    pub prev_hash: Option<Seq<char>>,
    pub timestamp: TimestampView,
    pub metadata: Seq<EntryView>,
}

/// One link of the append-only receipt chain of a pointer.
#[derive(Debug, PartialEq, Eq)]
pub struct GovernanceReceipt {
    pub receipt_id: Uuid,
    pub pointer_id: Uuid,
    pub org_id: Uuid,
    pub operation: ReceiptOperation,
    /// The canonical document, as it was encoded when the receipt was made.
    pub receipt_json: String,
    /// The digest of `receipt_json`: 128 lower-case hexadecimal characters.
    pub receipt_hash: String,
    /// The signature over the characters of `receipt_hash`.
    pub signature: Vec<u8>,
    pub signature_algorithm: String,
    /// The digest of the receipt before this one; absent for the first.
    pub prev_hash: Option<String>,
    pub timestamp: Timestamp,
    /// The operation-specific members of the canonical document.
    pub metadata: Metadata,
}

impl View for GovernanceReceipt {
    type V = GovernanceReceiptView;

    open spec fn view(&self) -> GovernanceReceiptView {
        GovernanceReceiptView {
            receipt_id: self.receipt_id@,
            pointer_id: self.pointer_id@,
            org_id: self.org_id@,
            operation: self.operation,
            receipt_json: self.receipt_json@,
            receipt_hash: self.receipt_hash@,
            signature: self.signature@,
            signature_algorithm: self.signature_algorithm@,
            prev_hash: opt_view(self.prev_hash),
            timestamp: self.timestamp@,
            metadata: self.metadata.entries(),
        }
    }
}

impl Clone for GovernanceReceipt {
    fn clone(&self) -> (r: GovernanceReceipt)
        ensures
            r@ == self@,
    {
        GovernanceReceipt {
            receipt_id: self.receipt_id,
            pointer_id: self.pointer_id,
            org_id: self.org_id,
            operation: self.operation,
            receipt_json: owned(self.receipt_json.as_str()),
            receipt_hash: owned(self.receipt_hash.as_str()),
            signature: self.signature.clone(),
            signature_algorithm: owned(self.signature_algorithm.as_str()),
            prev_hash: owned_opt(&self.prev_hash),
            timestamp: self.timestamp.clone(),
            metadata: self.metadata.clone(),
        }
    }
}

/// The content of an [`AuditLog`] entry.
pub struct AuditLogView {
    pub log_id: Seq<u8>,
    pub org_id: Option<Seq<u8>>,
    pub pointer_id: Option<Seq<u8>>,
    pub receipt_id: Option<Seq<u8>>,
    pub event_type: Seq<char>,
    pub event_data: Seq<EntryView>,
    pub actor_id: Option<Seq<char>>,
    pub ip_address: Option<Seq<char>>,
    pub user_agent: Option<Seq<char>>,
    pub timestamp: TimestampView,
}

/// An informational audit event. It is not part of any chain and carries no
/// signature.
#[derive(Debug, PartialEq, Eq)]
pub struct AuditLog {
    pub log_id: Uuid,
    pub org_id: Option<Uuid>,
    pub pointer_id: Option<Uuid>,
    pub receipt_id: Option<Uuid>,
    pub event_type: String,
    pub event_data: Metadata,
    pub actor_id: Option<String>,
    /// The textual form of the caller's address, if it was recorded.
    pub ip_address: Option<String>,
    pub user_agent: Option<String>,
    pub timestamp: Timestamp,
}

impl View for AuditLog {
    type V = AuditLogView;

    open spec fn view(&self) -> AuditLogView {
        AuditLogView {
            log_id: self.log_id@,
            org_id: opt_id_view(self.org_id),
            pointer_id: opt_id_view(self.pointer_id),
            receipt_id: opt_id_view(self.receipt_id),
            event_type: self.event_type@,
            event_data: self.event_data.entries(),
            actor_id: opt_view(self.actor_id),
            ip_address: opt_view(self.ip_address),
            user_agent: opt_view(self.user_agent),
            timestamp: self.timestamp@,
        }
    }
}

impl Clone for AuditLog {
    fn clone(&self) -> (r: AuditLog)
        ensures
            r@ == self@,
    {
        AuditLog {
            log_id: self.log_id,
            org_id: self.org_id,
            pointer_id: self.pointer_id,
            receipt_id: self.receipt_id,
            event_type: owned(self.event_type.as_str()),
            event_data: self.event_data.clone(),
            actor_id: owned_opt(&self.actor_id),
            ip_address: owned_opt(&self.ip_address),
            user_agent: owned_opt(&self.user_agent),
            timestamp: self.timestamp.clone(),
        }
    }
}

} // verus!
