use veto_frontier::clock::Timestamp;
use veto_frontier::crypto::ed25519::Ed25519Keypair;
use veto_frontier::crypto::hashing::sha3_512_hash_str;
use veto_frontier::db::models::{Pointer, PointerStatus, ReceiptOperation};
use veto_frontier::enforcement::pointer_guard::{
    enforce_pointer_access, is_pointer_accessible, AccessError,
};
use veto_frontier::ident::Uuid;
use veto_frontier::ledger::{seal, AppendError, IntegrityError, LifecycleError, PointerLedger};
use veto_frontier::metadata::Metadata;

fn fresh_id() -> Uuid {
    Uuid::from_bytes(*uuid::Uuid::new_v4().as_bytes())
}

fn at(secs: i64) -> Timestamp {
    Timestamp::from_unix(secs, 0).unwrap()
}

fn create_test_pointer(status: PointerStatus) -> Pointer {
    Pointer {
        pointer_id: fresh_id(),
        org_id: fresh_id(),
        data_id: fresh_id(),
        subject_id: "test_user".to_string(),
        status,
        created_at: Timestamp::now(),
        orphaned_at: None,
        orphan_reason: None,
        metadata: Metadata::new(),
    }
}

fn new_ledger(keypair: &Edkey) -> PointerLedger {
    PointerLedger::create(
        fresh_id(),
        fresh_id(),
        fresh_id(),
        "user_123",
        "abc",
        Some(vec![1, 2, 3]),
        fresh_id(),
        keypair,
        &at(1_700_000_000),
    )
}

type Edkey = Ed25519Keypair;

#[test]
fn test_active_pointer_accessible() {
    let pointer = create_test_pointer(PointerStatus::Active);
    assert!(enforce_pointer_access(&pointer).is_ok());
    assert!(is_pointer_accessible(&pointer));
}

#[test]
fn test_orphaned_pointer_blocked() {
    let pointer = create_test_pointer(PointerStatus::Orphaned);
    assert!(enforce_pointer_access(&pointer).is_err());
    assert!(!is_pointer_accessible(&pointer));
}

#[test]
fn denial_names_the_orphaned_pointer() {
    let pointer = create_test_pointer(PointerStatus::Orphaned);
    let denied = enforce_pointer_access(&pointer).unwrap_err();
    assert_eq!(denied, AccessError::PointerOrphaned);
    assert_eq!(
        denied.message(),
        "pointer_orphaned: This pointer has been orphaned and cannot be resolved"
    );
}

#[test]
fn create_resolve_orphan_resolve() {
    let keypair = Ed25519Keypair::generate();
    let mut ledger = new_ledger(&keypair);

    // create: chain length 1, operation create, prev_hash absent
    assert_eq!(ledger.len(), 1);
    assert_eq!(ledger.receipts()[0].operation, ReceiptOperation::Create);
    assert_eq!(ledger.receipts()[0].prev_hash, None);
    assert_eq!(ledger.receipts()[0].metadata.to_json(), "{\"content_hash\":\"abc\"}");
    assert_eq!(ledger.pointer().status, PointerStatus::Active);
    assert_eq!(ledger.pointer().subject_id, "user_123");
    assert_eq!(ledger.data().content_hash, "abc");

    // resolve: chain length 2, second link's prev_hash equals first link's digest
    assert_eq!(ledger.resolve(fresh_id(), &keypair, &at(1_700_000_010)), Ok(()));
    assert_eq!(ledger.len(), 2);
    assert_eq!(ledger.receipts()[1].operation, ReceiptOperation::Resolve);
    assert_eq!(
        ledger.receipts()[1].prev_hash.as_deref(),
        Some(ledger.receipts()[0].receipt_hash.as_str())
    );
    assert_eq!(
        ledger.receipts()[0].receipt_hash,
        sha3_512_hash_str(&ledger.receipts()[0].receipt_json)
    );

    // orphan: chain length 3, state orphaned
    let data_before = ledger.data().clone();
    assert_eq!(
        ledger.orphan(Some("consent_revoked"), fresh_id(), &keypair, &at(1_700_000_020)),
        Ok(())
    );
    assert_eq!(ledger.len(), 3);
    assert_eq!(ledger.pointer().status, PointerStatus::Orphaned);
    assert_eq!(ledger.pointer().orphaned_at, Some(at(1_700_000_020)));
    assert_eq!(ledger.pointer().orphan_reason.as_deref(), Some("consent_revoked"));
    assert_eq!(ledger.receipts()[2].operation, ReceiptOperation::Orphan);
    assert_eq!(
        ledger.receipts()[2].prev_hash.as_deref(),
        Some(ledger.receipts()[1].receipt_hash.as_str())
    );
    assert_eq!(
        ledger.receipts()[2].metadata.to_json(),
        "{\"orphaned_at\":\"2023-11-14T22:13:40+00:00\",\"reason\":\"consent_revoked\"}"
    );
    assert_eq!(*ledger.data(), data_before);

    // resolve again: rejected with orphaned-access, chain length remains 3
    assert_eq!(
        ledger.resolve(fresh_id(), &keypair, &at(1_700_000_030)),
        Err(AccessError::PointerOrphaned)
    );
    assert_eq!(ledger.len(), 3);
    assert!(ledger.verify_signatures(&keypair.public_key_bytes()));
    assert_eq!(ledger.latest_receipt().operation, ReceiptOperation::Orphan);
}

#[test]
fn orphan_twice_is_refused() {
    let keypair = Ed25519Keypair::generate();
    let mut ledger = new_ledger(&keypair);
    assert_eq!(ledger.orphan(None, fresh_id(), &keypair, &at(1_700_000_020)), Ok(()));
    assert_eq!(ledger.len(), 2);
    assert_eq!(ledger.pointer().orphan_reason, None);
    assert_eq!(
        ledger.receipts()[1].metadata.to_json(),
        "{\"orphaned_at\":\"2023-11-14T22:13:40+00:00\",\"reason\":\"user_consent_revoked\"}"
    );
    let pointer_before = ledger.pointer().clone();
    assert_eq!(
        ledger.orphan(Some("again"), fresh_id(), &keypair, &at(1_700_000_030)),
        Err(LifecycleError::AlreadyOrphaned)
    );
    assert_eq!(ledger.len(), 2);
    assert_eq!(*ledger.pointer(), pointer_before);
}

#[test]
fn two_resolves_extend_the_chain_linearly() {
    let keypair = Ed25519Keypair::generate();
    let mut ledger = new_ledger(&keypair);
    assert_eq!(ledger.resolve(fresh_id(), &keypair, &at(1_700_000_010)), Ok(()));
    assert_eq!(ledger.resolve(fresh_id(), &keypair, &at(1_700_000_010)), Ok(()));
    assert_eq!(ledger.len(), 3);
    let c = ledger.receipts();
    assert_eq!(c[1].prev_hash.as_deref(), Some(c[0].receipt_hash.as_str()));
    assert_eq!(c[2].prev_hash.as_deref(), Some(c[1].receipt_hash.as_str()));
    assert_ne!(c[1].prev_hash, c[2].prev_hash);
    assert_ne!(c[1].receipt_hash, c[2].receipt_hash);
}

fn resolve_receipt_for(
    ledger: &PointerLedger,
    keypair: &Ed25519Keypair,
    secs: i64,
) -> veto_frontier::db::models::GovernanceReceipt {
    let mut metadata = Metadata::new();
    metadata.insert("data_id", Some(ledger.data().data_id.to_hyphenated().as_str()));
    seal(
        ledger.pointer(),
        ReceiptOperation::Resolve,
        Some(ledger.latest_receipt().receipt_hash.clone()),
        metadata,
        fresh_id(),
        keypair,
        &at(secs),
    )
}

#[test]
fn two_writers_on_one_snapshot_do_not_fork_the_chain() {
    let keypair = Ed25519Keypair::generate();
    let mut ledger = new_ledger(&keypair);
    let head = ledger.latest_receipt().receipt_hash.clone();

    // both writers read the same latest receipt
    let first = resolve_receipt_for(&ledger, &keypair, 1_700_000_010);
    let second = resolve_receipt_for(&ledger, &keypair, 1_700_000_011);
    assert_eq!(first.prev_hash, second.prev_hash);

    assert_eq!(ledger.append_resolve(first.clone()), Ok(()));
    assert_eq!(ledger.append_resolve(second), Err(AppendError::Stale));
    assert_eq!(ledger.len(), 2);

    // the loser builds its receipt again, on the new latest receipt
    let retried = resolve_receipt_for(&ledger, &keypair, 1_700_000_012);
    assert_eq!(ledger.append_resolve(retried.clone()), Ok(()));
    assert_eq!(ledger.len(), 3);
    let c = ledger.receipts();
    assert_eq!(c[1], first);
    assert_eq!(c[2], retried);
    assert_eq!(c[1].prev_hash.as_deref(), Some(head.as_str()));
    assert_eq!(c[2].prev_hash.as_deref(), Some(c[1].receipt_hash.as_str()));
    assert_ne!(c[2].prev_hash.as_deref(), Some(head.as_str()));
    let again =
        PointerLedger::load(ledger.pointer().clone(), ledger.data().clone(), c.clone()).unwrap();
    assert_eq!(again, ledger);
}

#[test]
fn receipts_built_beforehand_are_checked() {
    let keypair = Ed25519Keypair::generate();
    let mut ledger = new_ledger(&keypair);
    let good = resolve_receipt_for(&ledger, &keypair, 1_700_000_010);

    let mut forged = good.clone();
    forged.receipt_hash = "0".repeat(128);
    assert_eq!(ledger.append_resolve(forged), Err(AppendError::Unsealed));

    let other = new_ledger(&keypair);
    let foreign = resolve_receipt_for(&other, &keypair, 1_700_000_010);
    assert_eq!(ledger.append_resolve(foreign), Err(AppendError::Unsealed));

    let orphan = seal(
        ledger.pointer(),
        ReceiptOperation::Orphan,
        Some(ledger.latest_receipt().receipt_hash.clone()),
        Metadata::new(),
        fresh_id(),
        &keypair,
        &at(1_700_000_010),
    );
    assert_eq!(ledger.append_resolve(orphan), Err(AppendError::NotResolve));
    assert_eq!(ledger.len(), 1);

    ledger.orphan(None, fresh_id(), &keypair, &at(1_700_000_020)).unwrap();
    assert_eq!(ledger.append_resolve(good), Err(AppendError::Orphaned));
    assert_eq!(ledger.len(), 2);
}

#[test]
fn chain_order_is_time_order_while_the_clock_moves_forward() {
    let keypair = Ed25519Keypair::generate();
    let mut ledger = new_ledger(&keypair);
    assert!(ledger.is_time_ordered());
    ledger.resolve(fresh_id(), &keypair, &at(1_700_000_000)).unwrap();
    ledger.resolve(fresh_id(), &keypair, &at(1_700_000_005)).unwrap();
    assert!(ledger.is_time_ordered());
    ledger.resolve(fresh_id(), &keypair, &at(1_600_000_000)).unwrap();
    assert!(!ledger.is_time_ordered());
    assert_eq!(ledger.len(), 4);
}

#[test]
fn every_receipt_verifies_under_the_signing_key() {
    let keypair = Ed25519Keypair::generate();
    let other = Ed25519Keypair::generate();
    let mut ledger = new_ledger(&keypair);
    ledger.resolve(fresh_id(), &keypair, &at(1_700_000_010)).unwrap();
    ledger.orphan(None, fresh_id(), &keypair, &at(1_700_000_020)).unwrap();
    assert!(ledger.verify_signatures(&keypair.public_key_bytes()));
    assert!(!ledger.verify_signatures(&other.public_key_bytes()));
}

#[test]
fn loaded_records_are_checked() {
    let keypair = Ed25519Keypair::generate();
    let mut ledger = new_ledger(&keypair);
    ledger.resolve(fresh_id(), &keypair, &at(1_700_000_010)).unwrap();
    ledger.orphan(Some("r"), fresh_id(), &keypair, &at(1_700_000_020)).unwrap();
    let pointer = ledger.pointer().clone();
    let data = ledger.data().clone();
    let receipts = ledger.receipts().clone();

    let again = PointerLedger::load(pointer.clone(), data.clone(), receipts.clone()).unwrap();
    assert_eq!(again, ledger);

    // pointer fields that contradict the status
    let mut p = pointer.clone();
    p.orphaned_at = None;
    assert_eq!(
        PointerLedger::load(p, data.clone(), receipts.clone()).err(),
        Some(IntegrityError::Pointer)
    );
    let mut p = pointer.clone();
    p.status = PointerStatus::Active;
    assert_eq!(
        PointerLedger::load(p, data.clone(), receipts.clone()).err(),
        Some(IntegrityError::Pointer)
    );

    // data of another pointer
    let mut d = data.clone();
    d.data_id = fresh_id();
    assert_eq!(
        PointerLedger::load(pointer.clone(), d, receipts.clone()).err(),
        Some(IntegrityError::Data)
    );
    let mut d = data.clone();
    d.subject_id = "someone_else".to_string();
    assert_eq!(
        PointerLedger::load(pointer.clone(), d, receipts.clone()).err(),
        Some(IntegrityError::Data)
    );

    // an empty chain
    assert_eq!(
        PointerLedger::load(pointer.clone(), data.clone(), Vec::new()).err(),
        Some(IntegrityError::Chain)
    );

    // a rewritten document
    let mut c = receipts.clone();
    c[1].receipt_json = c[1].receipt_json.replace("resolve", "Resolve");
    assert_eq!(
        PointerLedger::load(pointer.clone(), data.clone(), c).err(),
        Some(IntegrityError::Chain)
    );

    // a rewritten digest
    let mut c = receipts.clone();
    c[0].receipt_hash = "0".repeat(128);
    assert_eq!(
        PointerLedger::load(pointer.clone(), data.clone(), c).err(),
        Some(IntegrityError::Chain)
    );

    // a removed link
    let mut c = receipts.clone();
    c.remove(1);
    assert_eq!(
        PointerLedger::load(pointer.clone(), data.clone(), c).err(),
        Some(IntegrityError::Chain)
    );

    // a chain that does not end in the orphan of an orphaned pointer
    let mut c = receipts.clone();
    c.pop();
    assert_eq!(
        PointerLedger::load(pointer.clone(), data.clone(), c).err(),
        Some(IntegrityError::Chain)
    );

    // a changed time
    let mut c = receipts.clone();
    c[2].timestamp = at(1_700_000_021);
    assert_eq!(
        PointerLedger::load(pointer.clone(), data.clone(), c).err(),
        Some(IntegrityError::Chain)
    );

    // a truncated signature
    let mut c = receipts.clone();
    c[2].signature.pop();
    assert_eq!(PointerLedger::load(pointer, data, c).err(), Some(IntegrityError::Chain));
}
