//! The operations on pointers: create, resolve, orphan, and the two
//! read-only projections. Each takes the records that the persistence layer
//! has read, decides, and returns what is to be stored and answered.

use vstd::prelude::*;
use vstd::utf8::encode_utf8;
use crate::api::errors::{ApiError, ErrorKind};
use crate::clock::Timestamp;
use crate::crypto::base64::{base64_text, decode_text, decoded_text, STANDARD};
use crate::crypto::ed25519::{ed25519_valid, Ed25519Keypair};
use crate::db::models::{
    operation_text, opt_bytes_view, opt_id_view, status_text, AuditLog, DataStore,
    DataStoreView, GovernanceReceipt, GovernanceReceiptView, Pointer, PointerStatus, PointerView,
    ReceiptOperation,
};
use crate::enforcement::pointer_guard::{denial_text, enforce_pointer_access};
use crate::ident::Uuid;
use crate::ledger::{
    appended_as, create_metadata, integrity, orphan_metadata, receipt_views, resolve_metadata,
    LedgerView, PointerLedger,
};
use crate::metadata::{entries_map, sorted_keys, EntryView, Metadata};
use crate::text::{opt_view, owned, owned_opt, push_text};

verus! {

/// A request to create a pointer.
#[derive(Clone, Debug, PartialEq, Eq)]
pub struct CreatePointerRequest {
    pub subject_id: String,
    /// The caller's fingerprint of the original content.
    pub content_hash: String,
    /// The opaque payload in padded base64, if there is one.
    pub encrypted_payload: Option<String>,
}

/// What a response tells of a receipt.
pub struct ReceiptInfoView {
    pub receipt_hash: Seq<char>,
    pub signature: Seq<char>,
    pub signature_algorithm: Seq<char>,
    pub timestamp: Seq<char>,
}

/// What a response tells of a receipt. The signature is in padded base64.
#[derive(Clone, Debug, PartialEq, Eq)]
pub struct ReceiptInfo {
    pub receipt_hash: String,
    pub signature: String,
    pub signature_algorithm: String,
    pub timestamp: String,
}

impl View for ReceiptInfo {
    type V = ReceiptInfoView;

    open spec fn view(&self) -> ReceiptInfoView {
        ReceiptInfoView {
            receipt_hash: self.receipt_hash@,
            signature: self.signature@,
            signature_algorithm: self.signature_algorithm@,
            timestamp: self.timestamp@,
        }
    }
}

/// The answer to a successful create.
#[derive(Clone, Debug, PartialEq, Eq)]
pub struct CreatePointerResponse {
    pub pointer_id: Uuid,
    pub data_id: Uuid,
    pub status: String,
    pub receipt: ReceiptInfo,
}

/// The answer to a successful resolve.
#[derive(Clone, Debug, PartialEq, Eq)]
pub struct ResolvePointerResponse {
    pub pointer_id: Uuid,
    pub data_id: Uuid,
    pub subject_id: String,
    pub content_hash: String,
    pub status: String,
    pub created_at: String,
    pub receipt: ReceiptInfo,
}

/// A request to orphan a pointer.
#[derive(Clone, Debug, PartialEq, Eq)]
pub struct OrphanPointerRequest {
    pub pointer_id: Uuid,
    pub reason: Option<String>,
}

/// The answer to a successful orphan.
#[derive(Clone, Debug, PartialEq, Eq)]
pub struct OrphanPointerResponse {
    pub pointer_id: Uuid,
    pub status: String,
    pub orphaned_at: String,
    pub receipt: ReceiptInfo,
}

/// One receipt of a chain, as it is listed.
pub struct ReceiptSummaryView {
    pub operation: Seq<char>,
    pub receipt_hash: Seq<char>,
    pub signature: Seq<char>,
    pub prev_hash: Option<Seq<char>>,
    pub timestamp: Seq<char>,
}

/// One receipt of a chain, as it is listed. The signature is in padded
/// base64.
#[derive(Clone, Debug, PartialEq, Eq)]
pub struct ReceiptSummary {
    pub operation: String,
    pub receipt_hash: String,
    pub signature: String,
    pub prev_hash: Option<String>,
    pub timestamp: String,
}

impl View for ReceiptSummary {
    type V = ReceiptSummaryView;

    open spec fn view(&self) -> ReceiptSummaryView {
        ReceiptSummaryView {
            operation: self.operation@,
            receipt_hash: self.receipt_hash@,
            signature: self.signature@,
            prev_hash: opt_view(self.prev_hash),
            timestamp: self.timestamp@,
        }
    }
}

/// The receipt chain of a pointer, oldest receipt first.
#[derive(Clone, Debug, PartialEq, Eq)]
pub struct GetReceiptsResponse {
    pub pointer_id: Uuid,
    pub receipts: Vec<ReceiptSummary>,
}

/// One audit event, as it is listed.
pub struct AuditEventSummaryView {
    pub event_type: Seq<char>,
    pub timestamp: Seq<char>,
    pub pointer_id: Option<Seq<u8>>,
    pub event_data: Seq<EntryView>,
}

/// One audit event, as it is listed.
#[derive(Clone, Debug, PartialEq, Eq)]
pub struct AuditEventSummary {
    pub event_type: String,
    pub timestamp: String,
    pub pointer_id: Option<Uuid>,
    pub event_data: Metadata,
}

impl View for AuditEventSummary {
    type V = AuditEventSummaryView;

    open spec fn view(&self) -> AuditEventSummaryView {
        AuditEventSummaryView {
            event_type: self.event_type@,
            timestamp: self.timestamp@,
            pointer_id: opt_id_view(self.pointer_id),
            event_data: self.event_data.entries(),
        }
    }
}

/// The pointers of a subject by state, and the audit events of those
/// pointers.
#[derive(Clone, Debug, PartialEq, Eq)]
pub struct GetAuditTrailResponse {
    pub subject_id: String,
    pub total_pointers: usize,
    pub active_pointers: usize,
    pub orphaned_pointers: usize,
    pub audit_events: Vec<AuditEventSummary>,
}

/// The identifiers that a create assigns.
#[derive(Clone, Copy, Debug, PartialEq, Eq)]
pub struct NewPointerIds {
    pub pointer_id: Uuid,
    pub data_id: Uuid,
    pub receipt_id: Uuid,
    pub log_id: Uuid,
}

/// The identifiers that an orphan assigns.
#[derive(Clone, Copy, Debug, PartialEq, Eq)]
pub struct OrphanIds {
    pub receipt_id: Uuid,
    pub log_id: Uuid,
}

/// What a successful create leaves to be stored and answered.
#[derive(Debug, PartialEq, Eq)]
pub struct CreatedPointer {
    /// The new pointer, its data, and its chain of one receipt.
    pub ledger: PointerLedger,
    /// The audit event that records the create.
    pub audit: AuditLog,
    pub response: CreatePointerResponse,
}

/// What a successful resolve leaves to be stored and answered.
#[derive(Debug, PartialEq, Eq)]
pub struct ResolvedPointer {
    /// The ledger with the resolve receipt appended.
    pub ledger: PointerLedger,
    pub response: ResolvePointerResponse,
}

/// What a successful orphan leaves to be stored and answered.
#[derive(Debug, PartialEq, Eq)]
pub struct OrphanedPointer {
    /// The ledger with the pointer orphaned and the orphan receipt
    /// appended.
    pub ledger: PointerLedger,
    /// The audit event that records the orphaning.
    pub audit: AuditLog,
    pub response: OrphanPointerResponse,
}

/// What a response tells of the receipt `r`, stamped with `timestamp`.
pub open spec fn receipt_info(r: GovernanceReceiptView, timestamp: Seq<char>) -> ReceiptInfoView {
    ReceiptInfoView {
        receipt_hash: r.receipt_hash,
        signature: base64_text(r.signature),
        signature_algorithm: r.signature_algorithm,
        timestamp,
    }
}

/// How the receipt `r` is listed.
pub open spec fn receipt_summary(r: GovernanceReceiptView) -> ReceiptSummaryView {
    ReceiptSummaryView {
        operation: operation_text(r.operation),
        receipt_hash: r.receipt_hash,
        signature: base64_text(r.signature),
        prev_hash: r.prev_hash,
        timestamp: r.timestamp.text,
    }
}

/// Whether `s` begins with `prefix`.
pub open spec fn starts_with(s: Seq<char>, prefix: Seq<char>) -> bool {
    prefix.len() <= s.len() && s.subrange(0, prefix.len() as int) == prefix
}

/// The payload of a create event.
pub open spec fn created_event_data(subject_id: Seq<char>, content_hash: Seq<char>) -> Map<
    Seq<char>,
    Option<Seq<char>>,
> {
    Map::<Seq<char>, Option<Seq<char>>>::empty().insert("subject_id"@, Some(subject_id)).insert(
        "content_hash"@,
        Some(content_hash),
    )
}

/// The payload of an orphan event.
pub open spec fn orphaned_event_data(subject_id: Seq<char>, reason: Option<Seq<char>>) -> Map<
    Seq<char>,
    Option<Seq<char>>,
> {
    Map::<Seq<char>, Option<Seq<char>>>::empty().insert("subject_id"@, Some(subject_id)).insert(
        "reason"@,
        reason,
    )
}

/// Whether `audit` is the event of type `event_type` that records an
/// operation on `pointer` at `now` with the payload `event_data`.
pub open spec fn audit_records(
    audit: crate::db::models::AuditLogView,
    log_id: Seq<u8>,
    pointer: PointerView,
    event_type: Seq<char>,
    event_data: Map<Seq<char>, Option<Seq<char>>>,
    now: crate::clock::TimestampView,
) -> bool {
    &&& audit.log_id == log_id
    &&& audit.org_id == Some(pointer.org_id)
    &&& audit.pointer_id == Some(pointer.pointer_id)
    &&& audit.receipt_id is None
    &&& audit.event_type == event_type
    &&& sorted_keys(audit.event_data)
    &&& entries_map(audit.event_data) == event_data
    &&& audit.actor_id is None
    &&& audit.ip_address is None
    &&& audit.user_agent is None
    &&& audit.timestamp == now
}

/// What a response tells of `receipt`, stamped with `now`.
fn make_receipt_info(receipt: &GovernanceReceipt, now: &Timestamp) -> (r: ReceiptInfo)
    requires
        receipt@.signature.len() == 64,
    ensures
        r@ == receipt_info(receipt@, now@.text),
{
    ReceiptInfo {
        receipt_hash: owned(receipt.receipt_hash.as_str()),
        signature: STANDARD.encode(receipt.signature.as_slice()),
        signature_algorithm: owned(receipt.signature_algorithm.as_str()),
        timestamp: now.to_rfc3339(),
    }
}

/// The bytes of the payload of a request: nothing where the request has no
/// payload, the decoded bytes where it has one.
pub fn decode_payload(encrypted_payload: &Option<String>) -> (r: Result<Option<Vec<u8>>, ApiError>)
    ensures
        match *encrypted_payload {
            None => r matches Ok(bytes) && bytes is None,
            Some(text) => match decoded_text(text@) {
                Some(decoded) => r matches Ok(bytes) && opt_bytes_view(bytes) == Some(decoded),
                None => r matches Err(e) && e.kind() == ErrorKind::BadRequest && starts_with(
                    e.text(),
                    "Invalid base64 payload: "@,
                ),
            },
        },
{
    match encrypted_payload {
        None => Ok(None),
        Some(text) => match decode_text(text.as_str()) {
            Ok(bytes) => Ok(Some(bytes)),
            Err(detail) => {
                let mut message = owned("Invalid base64 payload: ");
                push_text(&mut message, detail.as_str());
                assert(message@.subrange(0, "Invalid base64 payload: "@.len() as int)
                    =~= "Invalid base64 payload: "@);
                Err(ApiError::BadRequest(message))
            },
        },
    }
}

/// Creates a pointer for the subject of the request. The request is
/// refused only where its payload is not valid base64, and then before
/// anything else is done. Otherwise the pointer is active, the data holds
/// the decoded payload, and the chain holds one create receipt that links
/// to nothing.
pub fn create_pointer(
    req: &CreatePointerRequest,
    org_id: Uuid,
    ids: &NewPointerIds,
    keypair: &Ed25519Keypair,
    now: &Timestamp,
) -> (r: Result<CreatedPointer, ApiError>)
    ensures
        r is Err <==> (req.encrypted_payload matches Some(text) && decoded_text(text@) is None),
        r matches Err(e) ==> e.kind() == ErrorKind::BadRequest && starts_with(
            e.text(),
            "Invalid base64 payload: "@,
        ),
        r matches Ok(out) ==> {
            &&& out.ledger@.wf()
            &&& out.ledger@.signed_by(keypair.public_key())
            &&& out.ledger@.pointer == (PointerView {
                pointer_id: ids.pointer_id@,
                org_id: org_id@,
                data_id: ids.data_id@,
                subject_id: req.subject_id@,
                status: PointerStatus::Active,
                created_at: now@,
                orphaned_at: None,
                orphan_reason: None,
                metadata: Seq::empty(),
            })
            &&& out.ledger@.data == (DataStoreView {
                data_id: ids.data_id@,
                org_id: org_id@,
                subject_id: req.subject_id@,
                content_hash: req.content_hash@,
                encrypted_payload: match req.encrypted_payload {
                    Some(text) => decoded_text(text@),
                    None => None,
                },
                created_at: now@,
                metadata: Seq::empty(),
            })
            &&& out.ledger@.receipts.len() == 1
            &&& appended_as(
                out.ledger@.receipts[0],
                ReceiptOperation::Create,
                None,
                create_metadata(req.content_hash@),
                ids.receipt_id@,
                now@,
                keypair.seed(),
            )
            &&& audit_records(
                out.audit@,
                ids.log_id@,
                out.ledger@.pointer,
                "pointer_created"@,
                created_event_data(req.subject_id@, req.content_hash@),
                now@,
            )
            &&& out.response.pointer_id@ == ids.pointer_id@
            &&& out.response.data_id@ == ids.data_id@
            &&& out.response.status@ == status_text(PointerStatus::Active)
            &&& out.response.receipt@ == receipt_info(out.ledger@.receipts[0], now@.text)
        },
{
    let payload = match decode_payload(&req.encrypted_payload) {
        Ok(bytes) => bytes,
        Err(e) => {
            return Err(e);
        },
    };
    let ledger = PointerLedger::create(
        ids.pointer_id,
        ids.data_id,
        org_id,
        req.subject_id.as_str(),
        req.content_hash.as_str(),
        payload,
        ids.receipt_id,
        keypair,
        now,
    );
    let mut event_data = Metadata::new();
    event_data.insert("subject_id", Some(req.subject_id.as_str()));
    event_data.insert("content_hash", Some(req.content_hash.as_str()));
    proof {
        use_type_invariant(&event_data);
    }
    let audit = AuditLog {
        log_id: ids.log_id,
        org_id: Some(org_id),
        pointer_id: Some(ids.pointer_id),
        receipt_id: None,
        event_type: owned("pointer_created"),
        event_data,
        actor_id: None,
        ip_address: None,
        user_agent: None,
        timestamp: now.clone(),
    };
    let receipt = ledger.latest_receipt();
    assert(ledger@.receipts.last() == ledger@.receipts[0]);
    let response = CreatePointerResponse {
        pointer_id: ids.pointer_id,
        data_id: ids.data_id,
        status: owned(PointerStatus::Active.as_str()),
        receipt: make_receipt_info(receipt, now),
    };
    Ok(CreatedPointer { ledger, audit, response })
}

/// Why the records of an active pointer do not make a ledger, if they do
/// not, in the words of the error that reports it.
pub open spec fn records_refusal(
    pointer: PointerView,
    data: Option<DataStoreView>,
    receipts: Seq<GovernanceReceiptView>,
) -> Option<(ErrorKind, Seq<char>)> {
    if data is None {
        Some((ErrorKind::Internal, "Data not found for pointer"@))
    } else if integrity(LedgerView { pointer, data: data->0, receipts }) is Some {
        Some((ErrorKind::Internal, "Receipt chain failed verification"@))
    } else {
        None
    }
}

/// Why a resolve is refused, if it is, with the words of the error: the
/// pointer is not known, it is orphaned, its data is missing, or the
/// records contradict each other.
pub open spec fn resolve_refusal(
    pointer: Option<PointerView>,
    data: Option<DataStoreView>,
    receipts: Seq<GovernanceReceiptView>,
) -> Option<(ErrorKind, Seq<char>)> {
    if pointer is None {
        Some((ErrorKind::NotFound, "Pointer not found"@))
    } else if pointer->0.status == PointerStatus::Orphaned {
        Some((ErrorKind::PointerOrphaned, denial_text()))
    } else {
        records_refusal(pointer->0, data, receipts)
    }
}

/// Why an orphan is refused, if it is, with the words of the error: the
/// pointer is not known, it is orphaned already, its data is missing, or
/// the records contradict each other.
pub open spec fn orphan_refusal(
    pointer: Option<PointerView>,
    data: Option<DataStoreView>,
    receipts: Seq<GovernanceReceiptView>,
) -> Option<(ErrorKind, Seq<char>)> {
    if pointer is None {
        Some((ErrorKind::NotFound, "Pointer not found"@))
    } else if pointer->0.status == PointerStatus::Orphaned {
        Some((ErrorKind::Conflict, "Pointer is already orphaned"@))
    } else {
        records_refusal(pointer->0, data, receipts)
    }
}

/// The content of an optional pointer.
pub open spec fn opt_pointer_view(p: Option<Pointer>) -> Option<PointerView> {
    match p {
        Some(x) => Some(x@),
        None => None,
    }
}

/// The content of optional data.
pub open spec fn opt_data_view(d: Option<DataStore>) -> Option<DataStoreView> {
    match d {
        Some(x) => Some(x@),
        None => None,
    }
}

/// The ledger that the records of an active pointer make, or the internal
/// error that reports missing data or records that contradict each other.
fn load_active(pointer: Pointer, data: Option<DataStore>, receipts: Vec<GovernanceReceipt>) -> (r:
    Result<PointerLedger, ApiError>)
    requires
        pointer@.status == PointerStatus::Active,
    ensures
        r matches Err(e) ==> records_refusal(
            pointer@,
            opt_data_view(data),
            receipt_views(receipts@),
        ) == Some((e.kind(), e.text())),
        r is Ok ==> records_refusal(pointer@, opt_data_view(data), receipt_views(receipts@))
            is None,
        r matches Ok(ledger) ==> ledger@.wf() && ledger@ == (LedgerView {
            pointer: pointer@,
            data: opt_data_view(data)->0,
            receipts: receipt_views(receipts@),
        }),
{
    let data = match data {
        Some(d) => d,
        None => {
            return Err(ApiError::Internal(owned("Data not found for pointer")));
        },
    };
    match PointerLedger::load(pointer, data, receipts) {
        Ok(ledger) => Ok(ledger),
        Err(_) => Err(ApiError::Internal(owned("Receipt chain failed verification"))),
    }
}

/// Resolves a pointer. The access check comes first: an orphaned pointer is
/// refused with the orphaned-access condition and nothing is appended. An
/// active pointer whose records are consistent is always resolved, and
/// exactly one resolve receipt is appended to its chain.
pub fn resolve_pointer(
    pointer: Option<Pointer>,
    data: Option<DataStore>,
    receipts: Vec<GovernanceReceipt>,
    receipt_id: Uuid,
    keypair: &Ed25519Keypair,
    now: &Timestamp,
) -> (r: Result<ResolvedPointer, ApiError>)
    ensures
        match r {
            Err(e) => resolve_refusal(
                opt_pointer_view(pointer),
                opt_data_view(data),
                receipt_views(receipts@),
            ) == Some((e.kind(), e.text())),
            Ok(out) => {
                &&& resolve_refusal(
                    opt_pointer_view(pointer),
                    opt_data_view(data),
                    receipt_views(receipts@),
                ) is None
                &&& out.ledger@.wf()
                &&& out.ledger@.pointer == pointer->0@
                &&& out.ledger@.data == data->0@
                &&& out.ledger@.receipts.len() == receipts@.len() + 1
                &&& out.ledger@.receipts.drop_last() == receipt_views(receipts@)
                &&& appended_as(
                    out.ledger@.receipts.last(),
                    ReceiptOperation::Resolve,
                    Some(receipt_views(receipts@).last().receipt_hash),
                    resolve_metadata(data->0@.data_id),
                    receipt_id@,
                    now@,
                    keypair.seed(),
                )
                &&& ed25519_valid(
                    keypair.public_key(),
                    encode_utf8(out.ledger@.latest_hash()),
                    out.ledger@.receipts.last().signature,
                )
                &&& out.response.pointer_id@ == pointer->0@.pointer_id
                &&& out.response.data_id@ == data->0@.data_id
                &&& out.response.subject_id@ == pointer->0@.subject_id
                &&& out.response.content_hash@ == data->0@.content_hash
                &&& out.response.status@ == status_text(PointerStatus::Active)
                &&& out.response.created_at@ == pointer->0@.created_at.text
                &&& out.response.receipt@ == receipt_info(out.ledger@.receipts.last(), now@.text)
            },
        },
{
    let pointer = match pointer {
        Some(p) => p,
        None => {
            return Err(ApiError::NotFound(owned("Pointer not found")));
        },
    };
    match enforce_pointer_access(&pointer) {
        Ok(()) => {},
        Err(e) => {
            return Err(ApiError::from_access_error(e));
        },
    }
    let mut ledger = match load_active(pointer, data, receipts) {
        Ok(ledger) => ledger,
        Err(e) => {
            return Err(e);
        },
    };
    match ledger.resolve(receipt_id, keypair, now) {
        Ok(()) => {},
        Err(e) => {
            return Err(ApiError::from_access_error(e));
        },
    }
    let response = ResolvePointerResponse {
        pointer_id: ledger.pointer().pointer_id,
        data_id: ledger.data().data_id,
        subject_id: owned(ledger.pointer().subject_id.as_str()),
        content_hash: owned(ledger.data().content_hash.as_str()),
        status: owned(ledger.pointer().status.as_str()),
        created_at: ledger.pointer().created_at.to_rfc3339(),
        receipt: make_receipt_info(ledger.latest_receipt(), now),
    };
    Ok(ResolvedPointer { ledger, response })
}

/// Orphans a pointer. A pointer that is orphaned already is refused with
/// the conflict condition and nothing changes. An active pointer whose
/// records are consistent becomes orphaned, and exactly one orphan receipt
/// is appended to its chain; its data stays as it is.
pub fn orphan_pointer(
    pointer: Option<Pointer>,
    data: Option<DataStore>,
    receipts: Vec<GovernanceReceipt>,
    req: &OrphanPointerRequest,
    ids: &OrphanIds,
    keypair: &Ed25519Keypair,
    now: &Timestamp,
) -> (r: Result<OrphanedPointer, ApiError>)
    ensures
        match r {
            Err(e) => orphan_refusal(
                opt_pointer_view(pointer),
                opt_data_view(data),
                receipt_views(receipts@),
            ) == Some((e.kind(), e.text())),
            Ok(out) => {
                &&& orphan_refusal(
                    opt_pointer_view(pointer),
                    opt_data_view(data),
                    receipt_views(receipts@),
                ) is None
                &&& out.ledger@.wf()
                &&& out.ledger@.pointer == (PointerView {
                    status: PointerStatus::Orphaned,
                    orphaned_at: Some(now@),
                    orphan_reason: opt_view(req.reason),
                    ..pointer->0@
                })
                &&& out.ledger@.data == data->0@
                &&& out.ledger@.receipts.len() == receipts@.len() + 1
                &&& out.ledger@.receipts.drop_last() == receipt_views(receipts@)
                &&& appended_as(
                    out.ledger@.receipts.last(),
                    ReceiptOperation::Orphan,
                    Some(receipt_views(receipts@).last().receipt_hash),
                    orphan_metadata(opt_view(req.reason), now@.text),
                    ids.receipt_id@,
                    now@,
                    keypair.seed(),
                )
                &&& ed25519_valid(
                    keypair.public_key(),
                    encode_utf8(out.ledger@.latest_hash()),
                    out.ledger@.receipts.last().signature,
                )
                &&& audit_records(
                    out.audit@,
                    ids.log_id@,
                    out.ledger@.pointer,
                    "pointer_orphaned"@,
                    orphaned_event_data(pointer->0@.subject_id, opt_view(req.reason)),
                    now@,
                )
                &&& out.response.pointer_id@ == pointer->0@.pointer_id
                &&& out.response.status@ == status_text(PointerStatus::Orphaned)
                &&& out.response.orphaned_at@ == now@.text
                &&& out.response.receipt@ == receipt_info(out.ledger@.receipts.last(), now@.text)
            },
        },
{
    let pointer = match pointer {
        Some(p) => p,
        None => {
            return Err(ApiError::NotFound(owned("Pointer not found")));
        },
    };
    match pointer.status {
        PointerStatus::Orphaned => {
            return Err(ApiError::Conflict(owned("Pointer is already orphaned")));
        },
        PointerStatus::Active => {},
    }
    let mut ledger = match load_active(pointer, data, receipts) {
        Ok(ledger) => ledger,
        Err(e) => {
            return Err(e);
        },
    };
    let reason: Option<&str> = match &req.reason {
        Some(text) => Some(text.as_str()),
        None => None,
    };
    match ledger.orphan(reason, ids.receipt_id, keypair, now) {
        Ok(()) => {},
        Err(_) => {
            return Err(ApiError::Conflict(owned("Pointer is already orphaned")));
        },
    }
    let mut event_data = Metadata::new();
    event_data.insert("subject_id", Some(ledger.pointer().subject_id.as_str()));
    event_data.insert("reason", reason);
    proof {
        use_type_invariant(&event_data);
    }
    let audit = AuditLog {
        log_id: ids.log_id,
        org_id: Some(ledger.pointer().org_id),
        pointer_id: Some(ledger.pointer().pointer_id),
        receipt_id: None,
        event_type: owned("pointer_orphaned"),
        event_data,
        actor_id: None,
        ip_address: None,
        user_agent: None,
        timestamp: now.clone(),
    };
    let response = OrphanPointerResponse {
        pointer_id: ledger.pointer().pointer_id,
        status: owned(ledger.pointer().status.as_str()),
        orphaned_at: now.to_rfc3339(),
        receipt: make_receipt_info(ledger.latest_receipt(), now),
    };
    Ok(OrphanedPointer { ledger, audit, response })
}

/// How `receipt` is listed.
fn summarize_receipt(receipt: &GovernanceReceipt) -> (r: ReceiptSummary)
    requires
        receipt@.signature.len() <= usize::MAX / 512,
    ensures
        r@ == receipt_summary(receipt@),
{
    ReceiptSummary {
        operation: owned(receipt.operation.as_str()),
        receipt_hash: owned(receipt.receipt_hash.as_str()),
        signature: STANDARD.encode(receipt.signature.as_slice()),
        prev_hash: owned_opt(&receipt.prev_hash),
        timestamp: receipt.timestamp.to_rfc3339(),
    }
}

/// Whether every signature is short enough to be encoded in one piece.
pub open spec fn signatures_encodable(receipts: Seq<GovernanceReceiptView>) -> bool {
    forall|i: int|
        0 <= i < receipts.len() ==> (#[trigger] receipts[i]).signature.len() <= usize::MAX / 512
}

/// Lists the receipt chain of a pointer in the order given, which is the
/// order of the chain.
pub fn get_receipts(pointer_id: Uuid, receipts: &Vec<GovernanceReceipt>) -> (r: GetReceiptsResponse)
    requires
        signatures_encodable(receipt_views(receipts@)),
    ensures
        r.pointer_id@ == pointer_id@,
        r.receipts@.len() == receipts@.len(),
        forall|i: int|
            0 <= i < receipts@.len() ==> (#[trigger] r.receipts@[i])@ == receipt_summary(
                receipts@[i]@,
            ),
{
    let mut summaries: Vec<ReceiptSummary> = Vec::new();
    let n = receipts.len();
    let mut i: usize = 0;
    while i < n
        invariant
            i <= n,
            n == receipts.len(),
            summaries.len() == i,
            signatures_encodable(receipt_views(receipts@)),
            forall|j: int|
                0 <= j < i ==> (#[trigger] summaries@[j])@ == receipt_summary(receipts@[j]@),
        decreases n - i,
    {
        assert(receipt_views(receipts@)[i as int] == receipts@[i as int]@);
        summaries.push(summarize_receipt(&receipts[i]));
        i += 1;
    }
    GetReceiptsResponse { pointer_id, receipts: summaries }
}

/// The number of pointers in state `status` among `pointers`.
pub open spec fn count_status(pointers: Seq<Pointer>, status: PointerStatus) -> nat
    decreases pointers.len(),
{
    if pointers.len() == 0 {
        0
    } else {
        count_status(pointers.drop_last(), status) + if pointers.last().status == status {
            1nat
        } else {
            0nat
        }
    }
}

/// How `log` is listed.
pub open spec fn audit_summary(log: crate::db::models::AuditLogView) -> AuditEventSummaryView {
    AuditEventSummaryView {
        event_type: log.event_type,
        timestamp: log.timestamp.text,
        pointer_id: log.pointer_id,
        event_data: log.event_data,
    }
}

/// The audit trail of a subject: the numbers of its pointers by state, and
/// the audit events of those pointers in the order given.
pub fn get_audit_trail(subject_id: &str, pointers: &Vec<Pointer>, audit_logs: &Vec<AuditLog>) -> (r:
    GetAuditTrailResponse)
    ensures
        r.subject_id@ == subject_id@,
        r.total_pointers == pointers@.len(),
        r.active_pointers == count_status(pointers@, PointerStatus::Active),
        r.orphaned_pointers == count_status(pointers@, PointerStatus::Orphaned),
        r.active_pointers + r.orphaned_pointers == r.total_pointers,
        r.audit_events@.len() == audit_logs@.len(),
        forall|i: int|
            0 <= i < audit_logs@.len() ==> (#[trigger] r.audit_events@[i])@ == audit_summary(
                audit_logs@[i]@,
            ),
{
    let mut active: usize = 0;
    let mut orphaned: usize = 0;
    let n = pointers.len();
    let mut i: usize = 0;
    while i < n
        invariant
            i <= n,
            n == pointers.len(),
            active == count_status(pointers@.take(i as int), PointerStatus::Active),
            orphaned == count_status(pointers@.take(i as int), PointerStatus::Orphaned),
            active + orphaned == i,
        decreases n - i,
    {
        proof {
            assert(pointers@.take(i as int + 1).drop_last() == pointers@.take(i as int));
            assert(pointers@.take(i as int + 1).last() == pointers@[i as int]);
        }
        match pointers[i].status {
            PointerStatus::Active => {
                active += 1;
            },
            PointerStatus::Orphaned => {
                orphaned += 1;
            },
        }
        i += 1;
    }
    proof {
        assert(pointers@.take(n as int) == pointers@);
    }
    let mut events: Vec<AuditEventSummary> = Vec::new();
    let m = audit_logs.len();
    let mut k: usize = 0;
    while k < m
        invariant
            k <= m,
            m == audit_logs.len(),
            events.len() == k,
            forall|j: int|
                0 <= j < k ==> (#[trigger] events@[j])@ == audit_summary(audit_logs@[j]@),
        decreases m - k,
    {
        let log = &audit_logs[k];
        events.push(
            AuditEventSummary {
                event_type: owned(log.event_type.as_str()),
                timestamp: log.timestamp.to_rfc3339(),
                pointer_id: log.pointer_id,
                event_data: log.event_data.clone(),
            },
        );
        k += 1;
    }
    GetAuditTrailResponse {
        subject_id: owned(subject_id),
        total_pointers: n,
        active_pointers: active,
        orphaned_pointers: orphaned,
        audit_events: events,
    }
}

} // verus!
