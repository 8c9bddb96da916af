use veto_frontier::api::errors::{contains, ApiError, ErrorKind};
use veto_frontier::api::handlers::{
    create_pointer, decode_payload, get_audit_trail, get_receipts, orphan_pointer,
    resolve_pointer, CreatePointerRequest, CreatedPointer, NewPointerIds, OrphanIds,
    OrphanPointerRequest, ReceiptInfo, ReceiptSummary,
};
use veto_frontier::clock::Timestamp;
use veto_frontier::crypto::base64::STANDARD;
use veto_frontier::crypto::ed25519::Ed25519Keypair;
use veto_frontier::db::models::{PointerStatus, ReceiptOperation};
use veto_frontier::enforcement::pointer_guard::AccessError;
use veto_frontier::ident::Uuid;
use veto_frontier::ledger::AppendError;

fn fresh_id() -> Uuid {
    Uuid::from_bytes(*uuid::Uuid::new_v4().as_bytes())
}

fn at(secs: i64) -> Timestamp {
    Timestamp::from_unix(secs, 0).unwrap()
}

fn new_ids() -> NewPointerIds {
    NewPointerIds {
        pointer_id: fresh_id(),
        data_id: fresh_id(),
        receipt_id: fresh_id(),
        log_id: fresh_id(),
    }
}

fn request(payload: Option<&str>) -> CreatePointerRequest {
    CreatePointerRequest {
        subject_id: "user_123".to_string(),
        content_hash: "abc".to_string(),
        encrypted_payload: payload.map(|p| p.to_string()),
    }
}

fn created(keypair: &Ed25519Keypair) -> CreatedPointer {
    create_pointer(&request(Some("AQID")), fresh_id(), &new_ids(), keypair, &at(1_700_000_000))
        .unwrap()
}

#[test]
fn create_answers_active_with_a_receipt() {
    let keypair = Ed25519Keypair::generate();
    let ids = new_ids();
    let org = fresh_id();
    let out = create_pointer(&request(Some("AQID")), org, &ids, &keypair, &at(1_700_000_000))
        .unwrap();
    assert_eq!(out.response.pointer_id, ids.pointer_id);
    assert_eq!(out.response.data_id, ids.data_id);
    assert_eq!(out.response.status, "active");
    let first = &out.ledger.receipts()[0];
    assert_eq!(
        out.response.receipt,
        ReceiptInfo {
            receipt_hash: first.receipt_hash.clone(),
            signature: STANDARD.encode(&first.signature),
            signature_algorithm: "ED25519".to_string(),
            timestamp: "2023-11-14T22:13:20+00:00".to_string(),
        }
    );
    assert_eq!(out.ledger.len(), 1);
    assert_eq!(first.operation, ReceiptOperation::Create);
    assert_eq!(first.prev_hash, None);
    assert_eq!(first.receipt_id, ids.receipt_id);
    assert_eq!(out.ledger.pointer().org_id, org);
    assert_eq!(out.ledger.data().encrypted_payload, Some(vec![1, 2, 3]));
    assert_eq!(out.audit.log_id, ids.log_id);
    assert_eq!(out.audit.event_type, "pointer_created");
    assert_eq!(out.audit.pointer_id, Some(ids.pointer_id));
    assert_eq!(out.audit.org_id, Some(org));
    assert_eq!(
        out.audit.event_data.to_json(),
        "{\"content_hash\":\"abc\",\"subject_id\":\"user_123\"}"
    );
    assert!(out.ledger.verify_signatures(&keypair.public_key_bytes()));
}

#[test]
fn create_without_payload_stores_none() {
    let keypair = Ed25519Keypair::generate();
    let out =
        create_pointer(&request(None), fresh_id(), &new_ids(), &keypair, &at(1_700_000_000))
            .unwrap();
    assert_eq!(out.ledger.data().encrypted_payload, None);
}

#[test]
fn create_refuses_a_payload_that_is_not_base64() {
    let keypair = Ed25519Keypair::generate();
    let refused = create_pointer(
        &request(Some("not base64!")),
        fresh_id(),
        &new_ids(),
        &keypair,
        &at(1_700_000_000),
    )
    .unwrap_err();
    assert_eq!(refused.error_kind(), ErrorKind::BadRequest);
    assert_eq!(refused.status_code(), 400);
    assert!(refused.message().starts_with("Invalid base64 payload: "));
    assert!(refused.message().len() > "Invalid base64 payload: ".len());
    assert_eq!(decode_payload(&None), Ok(None));
    assert_eq!(decode_payload(&Some("AQID".to_string())), Ok(Some(vec![1, 2, 3])));
}

#[test]
fn resolve_appends_one_receipt_and_answers_the_data() {
    let keypair = Ed25519Keypair::generate();
    let c = created(&keypair);
    let pointer = c.ledger.pointer().clone();
    let data = c.ledger.data().clone();
    let receipts = c.ledger.receipts().clone();
    let receipt_id = fresh_id();
    let out = resolve_pointer(
        Some(pointer.clone()),
        Some(data.clone()),
        receipts.clone(),
        receipt_id,
        &keypair,
        &at(1_700_000_010),
    )
    .unwrap();
    assert_eq!(out.ledger.len(), 2);
    assert_eq!(out.ledger.receipts()[0], receipts[0]);
    let link = &out.ledger.receipts()[1];
    assert_eq!(link.operation, ReceiptOperation::Resolve);
    assert_eq!(link.receipt_id, receipt_id);
    assert_eq!(link.prev_hash.as_deref(), Some(receipts[0].receipt_hash.as_str()));
    assert_eq!(
        link.metadata.to_json(),
        format!("{{\"data_id\":\"{}\"}}", data.data_id.to_hyphenated())
    );
    assert_eq!(out.response.pointer_id, pointer.pointer_id);
    assert_eq!(out.response.data_id, data.data_id);
    assert_eq!(out.response.subject_id, "user_123");
    assert_eq!(out.response.content_hash, "abc");
    assert_eq!(out.response.status, "active");
    assert_eq!(out.response.created_at, "2023-11-14T22:13:20+00:00");
    assert_eq!(out.response.receipt.receipt_hash, link.receipt_hash);
    assert_eq!(out.response.receipt.signature, STANDARD.encode(&link.signature));
    assert_eq!(out.response.receipt.timestamp, "2023-11-14T22:13:30+00:00");
    assert_eq!(*out.ledger.pointer(), pointer);
    assert_eq!(*out.ledger.data(), data);
}

#[test]
fn resolve_refusals() {
    let keypair = Ed25519Keypair::generate();
    let c = created(&keypair);
    let pointer = c.ledger.pointer().clone();
    let data = c.ledger.data().clone();
    let receipts = c.ledger.receipts().clone();
    let now = at(1_700_000_010);

    let unknown =
        resolve_pointer(None, None, Vec::new(), fresh_id(), &keypair, &now).unwrap_err();
    assert_eq!(unknown, ApiError::NotFound("Pointer not found".to_string()));
    assert_eq!(unknown.status_code(), 404);

    let no_data =
        resolve_pointer(Some(pointer.clone()), None, receipts.clone(), fresh_id(), &keypair, &now)
            .unwrap_err();
    assert_eq!(no_data, ApiError::Internal("Data not found for pointer".to_string()));
    assert_eq!(no_data.status_code(), 500);

    let mut forged = receipts.clone();
    forged[0].receipt_json.push(' ');
    let broken = resolve_pointer(
        Some(pointer.clone()),
        Some(data.clone()),
        forged,
        fresh_id(),
        &keypair,
        &now,
    )
    .unwrap_err();
    assert_eq!(broken.error_kind(), ErrorKind::Internal);

    let mut orphaned = pointer.clone();
    orphaned.status = PointerStatus::Orphaned;
    let denied = resolve_pointer(Some(orphaned), None, Vec::new(), fresh_id(), &keypair, &now)
        .unwrap_err();
    assert_eq!(denied.error_kind(), ErrorKind::PointerOrphaned);
    assert_eq!(denied.status_code(), 403);
    assert_eq!(denied.message(), AccessError::PointerOrphaned.message());
}

#[test]
fn orphan_then_everything_is_refused() {
    let keypair = Ed25519Keypair::generate();
    let c = created(&keypair);
    let pointer = c.ledger.pointer().clone();
    let data = c.ledger.data().clone();
    let receipts = c.ledger.receipts().clone();
    let ids = OrphanIds { receipt_id: fresh_id(), log_id: fresh_id() };
    let req = OrphanPointerRequest {
        pointer_id: pointer.pointer_id,
        reason: Some("consent_revoked".to_string()),
    };
    let out = orphan_pointer(
        Some(pointer.clone()),
        Some(data.clone()),
        receipts.clone(),
        &req,
        &ids,
        &keypair,
        &at(1_700_000_020),
    )
    .unwrap();
    assert_eq!(out.response.pointer_id, pointer.pointer_id);
    assert_eq!(out.response.status, "orphaned");
    assert_eq!(out.response.orphaned_at, "2023-11-14T22:13:40+00:00");
    assert_eq!(out.ledger.len(), 2);
    assert_eq!(out.ledger.pointer().status, PointerStatus::Orphaned);
    assert_eq!(out.ledger.pointer().orphan_reason.as_deref(), Some("consent_revoked"));
    assert_eq!(*out.ledger.data(), data);
    let link = out.ledger.latest_receipt();
    assert_eq!(link.operation, ReceiptOperation::Orphan);
    assert_eq!(link.receipt_id, ids.receipt_id);
    assert_eq!(link.prev_hash.as_deref(), Some(receipts[0].receipt_hash.as_str()));
    assert_eq!(out.response.receipt.receipt_hash, link.receipt_hash);
    assert_eq!(out.audit.event_type, "pointer_orphaned");
    assert_eq!(out.audit.log_id, ids.log_id);
    assert_eq!(
        out.audit.event_data.to_json(),
        "{\"reason\":\"consent_revoked\",\"subject_id\":\"user_123\"}"
    );

    let stored_pointer = out.ledger.pointer().clone();
    let stored_receipts = out.ledger.receipts().clone();

    // orphaning an orphaned pointer is a conflict
    let again = orphan_pointer(
        Some(stored_pointer.clone()),
        Some(data.clone()),
        stored_receipts.clone(),
        &req,
        &ids,
        &keypair,
        &at(1_700_000_030),
    )
    .unwrap_err();
    assert_eq!(again, ApiError::Conflict("Pointer is already orphaned".to_string()));
    assert_eq!(again.status_code(), 409);

    // resolving an orphaned pointer is denied
    let denied = resolve_pointer(
        Some(stored_pointer),
        Some(data),
        stored_receipts,
        fresh_id(),
        &keypair,
        &at(1_700_000_030),
    )
    .unwrap_err();
    assert_eq!(denied.error_kind(), ErrorKind::PointerOrphaned);
}

#[test]
fn orphan_without_reason_and_refusals() {
    let keypair = Ed25519Keypair::generate();
    let c = created(&keypair);
    let pointer = c.ledger.pointer().clone();
    let data = c.ledger.data().clone();
    let receipts = c.ledger.receipts().clone();
    let ids = OrphanIds { receipt_id: fresh_id(), log_id: fresh_id() };
    let req = OrphanPointerRequest { pointer_id: pointer.pointer_id, reason: None };
    let now = at(1_700_000_020);

    let unknown = orphan_pointer(None, None, Vec::new(), &req, &ids, &keypair, &now).unwrap_err();
    assert_eq!(unknown, ApiError::NotFound("Pointer not found".to_string()));
    let no_data =
        orphan_pointer(Some(pointer.clone()), None, receipts.clone(), &req, &ids, &keypair, &now)
            .unwrap_err();
    assert_eq!(no_data.error_kind(), ErrorKind::Internal);

    let out =
        orphan_pointer(Some(pointer), Some(data), receipts, &req, &ids, &keypair, &now).unwrap();
    assert_eq!(out.ledger.pointer().orphan_reason, None);
    assert_eq!(
        out.ledger.latest_receipt().metadata.to_json(),
        "{\"orphaned_at\":\"2023-11-14T22:13:40+00:00\",\"reason\":\"user_consent_revoked\"}"
    );
    assert_eq!(out.audit.event_data.to_json(), "{\"reason\":null,\"subject_id\":\"user_123\"}");
}

#[test]
fn receipts_are_listed_in_chain_order() {
    let keypair = Ed25519Keypair::generate();
    let mut ledger = created(&keypair).ledger;
    ledger.resolve(fresh_id(), &keypair, &at(1_700_000_010)).unwrap();
    ledger.orphan(None, fresh_id(), &keypair, &at(1_700_000_020)).unwrap();
    let id = ledger.pointer().pointer_id;
    let listed = get_receipts(id, ledger.receipts());
    assert_eq!(listed.pointer_id, id);
    assert_eq!(listed.receipts.len(), 3);
    let operations: Vec<&str> = listed.receipts.iter().map(|r| r.operation.as_str()).collect();
    assert_eq!(operations, vec!["create", "resolve", "orphan"]);
    let second = &ledger.receipts()[1];
    assert_eq!(
        listed.receipts[1],
        ReceiptSummary {
            operation: "resolve".to_string(),
            receipt_hash: second.receipt_hash.clone(),
            signature: STANDARD.encode(&second.signature),
            prev_hash: Some(ledger.receipts()[0].receipt_hash.clone()),
            timestamp: "2023-11-14T22:13:30+00:00".to_string(),
        }
    );
    assert_eq!(listed.receipts[0].prev_hash, None);
    assert!(get_receipts(id, &Vec::new()).receipts.is_empty());
}

#[test]
fn audit_trail_counts_pointers_by_state() {
    let keypair = Ed25519Keypair::generate();
    let a = created(&keypair);
    let b = created(&keypair);
    let mut c = created(&keypair);
    c.ledger.orphan(None, fresh_id(), &keypair, &at(1_700_000_020)).unwrap();
    let pointers = vec![
        a.ledger.pointer().clone(),
        c.ledger.pointer().clone(),
        b.ledger.pointer().clone(),
    ];
    let logs = vec![c.audit.clone(), a.audit.clone()];
    let trail = get_audit_trail("user_123", &pointers, &logs);
    assert_eq!(trail.subject_id, "user_123");
    assert_eq!(trail.total_pointers, 3);
    assert_eq!(trail.active_pointers, 2);
    assert_eq!(trail.orphaned_pointers, 1);
    assert_eq!(trail.audit_events.len(), 2);
    assert_eq!(trail.audit_events[0].event_type, "pointer_created");
    assert_eq!(trail.audit_events[0].pointer_id, c.audit.pointer_id);
    assert_eq!(trail.audit_events[0].timestamp, "2023-11-14T22:13:20+00:00");
    assert_eq!(trail.audit_events[0].event_data, c.audit.event_data);
    assert_eq!(trail.audit_events[1].pointer_id, a.audit.pointer_id);

    let empty = get_audit_trail("nobody", &Vec::new(), &Vec::new());
    assert_eq!(empty.total_pointers, 0);
    assert_eq!(empty.active_pointers, 0);
    assert_eq!(empty.orphaned_pointers, 0);
    assert!(empty.audit_events.is_empty());
}

#[test]
fn errors_are_classified_by_their_words() {
    let denied = ApiError::from_message(
        "pointer_orphaned: This pointer has been orphaned and cannot be resolved".to_string(),
    );
    assert_eq!(denied.error_kind(), ErrorKind::PointerOrphaned);
    assert_eq!(denied.status_code(), 403);
    let inner = ApiError::from_message("wrapped: pointer_orphaned".to_string());
    assert_eq!(inner.error_kind(), ErrorKind::PointerOrphaned);
    let other = ApiError::from_message("pointer_orphane".to_string());
    assert_eq!(other, ApiError::Internal("pointer_orphane".to_string()));
    assert_eq!(other.status_code(), 500);
    assert_eq!(
        ApiError::from_access_error(AccessError::PointerOrphaned),
        denied
    );
    assert_eq!(
        ApiError::database("connection refused"),
        ApiError::Internal("Database error: connection refused".to_string())
    );
    assert_eq!(ApiError::BadRequest("x".to_string()).status_code(), 400);
    assert_eq!(ApiError::Conflict("x".to_string()).message(), "x");
}

#[test]
fn append_errors_are_reported_by_kind() {
    let stale = ApiError::from_append_error(AppendError::Stale);
    assert_eq!(stale, ApiError::Conflict("Receipt chain has a newer latest receipt".to_string()));
    assert_eq!(stale.status_code(), 409);
    assert_eq!(
        ApiError::from_append_error(AppendError::Orphaned),
        ApiError::from_access_error(AccessError::PointerOrphaned)
    );
    assert_eq!(
        ApiError::from_append_error(AppendError::NotResolve).error_kind(),
        ErrorKind::BadRequest
    );
    assert_eq!(
        ApiError::from_append_error(AppendError::Unsealed),
        ApiError::BadRequest("Receipt is not sealed for this pointer".to_string())
    );
}

#[test]
fn contains_finds_substrings() {
    assert!(contains("abcabd", "abd"));
    assert!(contains("abc", ""));
    assert!(contains("", ""));
    assert!(contains("é✓x", "✓"));
    assert!(!contains("abc", "abcd"));
    assert!(!contains("aab", "aba"));
    assert!(!contains("", "a"));
}
