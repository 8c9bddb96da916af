//! The receipt chain of one pointer, kept together with the pointer and the
//! data it refers to.
//!
//! A ledger is changed only by appending a receipt whose `prev_hash` is the
//! digest of the receipt that was last, so that reading the latest digest
//! and appending its successor are one step.

use vstd::prelude::*;
use vstd::utf8::encode_utf8;
use crate::clock::{Timestamp, TimestampView};
use crate::crypto::ed25519::{
    ed25519_signature, ed25519_valid, verify_signature, Ed25519Keypair, Signature,
};
use crate::crypto::hashing::sha3_512_hash_str;
use crate::crypto::receipts::{
    canonical_json, encode_canonical, receipt_digest, ReceiptData, ReceiptDataView,
};
use crate::db::models::{
    DataStore, DataStoreView, GovernanceReceipt, GovernanceReceiptView, Pointer, PointerStatus,
    PointerView, ReceiptOperation,
};
use crate::enforcement::pointer_guard::{enforce_pointer_access, AccessError};
use crate::ident::{uuid_text, Uuid};
use crate::metadata::{entries_map, sorted_keys, Metadata};
use crate::text::{opt_view, owned, same_text};

verus! {

/// The logical fields that the canonical document of a persisted receipt
/// was encoded from.
pub open spec fn receipt_document(
    r: GovernanceReceiptView,
    subject_id: Seq<char>,
) -> ReceiptDataView {
    ReceiptDataView {
        pointer_id: r.pointer_id,
        operation: r.operation,
        timestamp: r.timestamp,
        subject_id,
        prev_hash: r.prev_hash,
        metadata: r.metadata,
    }
}

/// Whether a receipt belongs to the pointer, carries the canonical document
/// of its own fields and the digest of that document, and has the shape of
/// an Ed25519 signature.
pub open spec fn sealed(
    r: GovernanceReceiptView,
    pointer_id: Seq<u8>,
    org_id: Seq<u8>,
    subject_id: Seq<char>,
) -> bool {
    &&& r.pointer_id == pointer_id
    &&& r.org_id == org_id
    &&& r.receipt_json == canonical_json(receipt_document(r, subject_id))
    &&& r.receipt_hash == receipt_digest(r.receipt_json)
    &&& r.signature_algorithm == "ED25519"@
    &&& r.signature.len() == 64
}

/// The `prev_hash` that the receipt at position `i` must carry: nothing for
/// the first, the digest of the receipt before it for every other.
pub open spec fn expected_prev_hash(c: Seq<GovernanceReceiptView>, i: int) -> Option<Seq<char>> {
    if i == 0 {
        None
    } else {
        Some(c[i - 1].receipt_hash)
    }
}

/// Whether the operation at position `i` may stand there: the chain opens
/// with a create, has no other create, and nothing follows an orphan.
pub open spec fn operation_allowed(c: Seq<GovernanceReceiptView>, i: int) -> bool {
    if i == 0 {
        c[i].operation == ReceiptOperation::Create
    } else {
        c[i].operation != ReceiptOperation::Create && c[i - 1].operation
            != ReceiptOperation::Orphan
    }
}

/// Whether every receipt of the chain is sealed.
pub open spec fn chain_sealed(
    c: Seq<GovernanceReceiptView>,
    pointer_id: Seq<u8>,
    org_id: Seq<u8>,
    subject_id: Seq<char>,
) -> bool {
    forall|i: int| 0 <= i < c.len() ==> sealed(#[trigger] c[i], pointer_id, org_id, subject_id)
}

/// Whether every receipt carries the digest of the receipt before it.
pub open spec fn chain_linked(c: Seq<GovernanceReceiptView>) -> bool {
    forall|i: int| 0 <= i < c.len() ==> (#[trigger] c[i]).prev_hash == expected_prev_hash(c, i)
}

/// Whether the chain records the life of a pointer in state `status`.
pub open spec fn lifecycle_recorded(
    status: PointerStatus,
    c: Seq<GovernanceReceiptView>,
) -> bool {
    &&& c.len() >= 1
    &&& forall|i: int| 0 <= i < c.len() ==> #[trigger] operation_allowed(c, i)
    &&& (status == PointerStatus::Orphaned) == (c.last().operation == ReceiptOperation::Orphan)
}

/// Whether every receipt of the chain has a 64-byte signature that
/// `public_key` accepts for the characters of the receipt's digest.
pub open spec fn chain_signed_by(c: Seq<GovernanceReceiptView>, public_key: Seq<u8>) -> bool {
    forall|i: int|
        0 <= i < c.len() ==> (#[trigger] c[i]).signature.len() == 64 && ed25519_valid(
            public_key,
            encode_utf8(c[i].receipt_hash),
            c[i].signature,
        )
}

/// Whether no receipt of the chain is stamped earlier than a receipt before
/// it, so that the order of the chain is an order by time.
pub open spec fn chain_time_ordered(c: Seq<GovernanceReceiptView>) -> bool {
    forall|i: int, j: int|
        0 <= i <= j < c.len() ==> (#[trigger] c[i]).timestamp.not_after((#[trigger] c[j]).timestamp)
}

/// What determines a receipt that is appended: its operation, the digest it
/// links to, its metadata, its identifier, its time, and the seed that
/// signs it.
pub open spec fn appended_as(
    r: GovernanceReceiptView,
    operation: ReceiptOperation,
    prev_hash: Option<Seq<char>>,
    metadata: Map<Seq<char>, Option<Seq<char>>>,
    receipt_id: Seq<u8>,
    now: TimestampView,
    seed: Seq<u8>,
) -> bool {
    &&& r.operation == operation
    &&& r.prev_hash == prev_hash
    &&& sorted_keys(r.metadata)
    &&& entries_map(r.metadata) == metadata
    &&& r.receipt_id == receipt_id
    &&& r.timestamp == now
    &&& r.signature == ed25519_signature(seed, encode_utf8(r.receipt_hash))
}

/// The metadata of a create receipt.
pub open spec fn create_metadata(content_hash: Seq<char>) -> Map<Seq<char>, Option<Seq<char>>> {
    Map::<Seq<char>, Option<Seq<char>>>::empty().insert("content_hash"@, Some(content_hash))
}

/// The metadata of a resolve receipt.
pub open spec fn resolve_metadata(data_id: Seq<u8>) -> Map<Seq<char>, Option<Seq<char>>> {
    Map::<Seq<char>, Option<Seq<char>>>::empty().insert("data_id"@, Some(uuid_text(data_id)))
}

/// The reason that an orphan receipt records when none was given.
pub open spec fn default_reason() -> Seq<char> {
    "user_consent_revoked"@
}

/// The metadata of an orphan receipt.
pub open spec fn orphan_metadata(reason: Option<Seq<char>>, orphaned_at: Seq<char>) -> Map<
    Seq<char>,
    Option<Seq<char>>,
> {
    Map::<Seq<char>, Option<Seq<char>>>::empty().insert(
        "reason"@,
        Some(
            match reason {
                Some(text) => text,
                None => default_reason(),
            },
        ),
    ).insert("orphaned_at"@, Some(orphaned_at))
}

/// The state of a pointer after an operation: orphaning an active pointer
/// makes it orphaned, and nothing else changes the state.
pub open spec fn status_after(status: PointerStatus, operation: ReceiptOperation) -> PointerStatus {
    if status == PointerStatus::Active && operation == ReceiptOperation::Orphan {
        PointerStatus::Orphaned
    } else {
        status
    }
}

/// The state of a pointer after a sequence of operations.
pub open spec fn status_after_all(
    status: PointerStatus,
    operations: Seq<ReceiptOperation>,
) -> PointerStatus
    decreases operations.len(),
{
    if operations.len() == 0 {
        status
    } else {
        status_after(status_after_all(status, operations.drop_last()), operations.last())
    }
}

/// The operations that a chain records, in order.
pub open spec fn operations_of(c: Seq<GovernanceReceiptView>) -> Seq<ReceiptOperation> {
    Seq::new(c.len(), |i: int| c[i].operation)
}

/// A pointer, its data and its receipt chain, as mathematics.
pub struct LedgerView {
    pub pointer: PointerView,
    pub data: DataStoreView,
    pub receipts: Seq<GovernanceReceiptView>,
}

impl LedgerView {
    /// Whether the data is the data that the pointer refers to.
    pub open spec fn data_bound(self) -> bool {
        &&& self.data.data_id == self.pointer.data_id
        &&& self.data.org_id == self.pointer.org_id
        &&& self.data.subject_id == self.pointer.subject_id
    }

    /// Whether the chain is sealed, linked, and records the life of the
    /// pointer.
    pub open spec fn chain_intact(self) -> bool {
        &&& chain_sealed(
            self.receipts,
            self.pointer.pointer_id,
            self.pointer.org_id,
            self.pointer.subject_id,
        )
        &&& chain_linked(self.receipts)
        &&& lifecycle_recorded(self.pointer.status, self.receipts)
    }

    /// The invariant of a ledger.
    pub open spec fn wf(self) -> bool {
        &&& self.pointer.wf()
        &&& self.data_bound()
        &&& self.chain_intact()
    }

    /// Whether `public_key` accepts the signature of every receipt.
    pub open spec fn signed_by(self, public_key: Seq<u8>) -> bool {
        chain_signed_by(self.receipts, public_key)
    }

    /// Whether the order of the chain is an order by time.
    pub open spec fn time_ordered(self) -> bool {
        chain_time_ordered(self.receipts)
    }

    /// Whether a receipt stamped `now` may follow the latest receipt
    /// without breaking the order by time.
    pub open spec fn not_before_latest(self, now: TimestampView) -> bool {
        self.receipts.last().timestamp.not_after(now)
    }

    /// The digest of the latest receipt.
    pub open spec fn latest_hash(self) -> Seq<char> {
        self.receipts.last().receipt_hash
    }

    /// Whether the chain is the chain of `before` with exactly one receipt
    /// appended.
    pub open spec fn extends(self, before: LedgerView) -> bool {
        &&& self.receipts.len() == before.receipts.len() + 1
        &&& self.receipts.drop_last() == before.receipts
    }

    /// The ledger with one more receipt at the end.
    pub open spec fn with_receipt(self, r: GovernanceReceiptView) -> LedgerView {
        LedgerView { pointer: self.pointer, data: self.data, receipts: self.receipts.push(r) }
    }
}

/// What is wrong with records that do not make a ledger.
#[derive(Clone, Copy, Debug, PartialEq, Eq, Structural)]
pub enum IntegrityError {
    /// The orphan time or reason of the pointer contradicts its status.
    Pointer,
    /// The data is not the data that the pointer refers to.
    Data,
    /// A receipt is not sealed or not linked to the one before it, or the
    /// chain does not record the life of the pointer.
    Chain,
}

/// The first thing that is wrong with the records, if anything is.
pub open spec fn integrity(v: LedgerView) -> Option<IntegrityError> {
    if !v.pointer.wf() {
        Some(IntegrityError::Pointer)
    } else if !v.data_bound() {
        Some(IntegrityError::Data)
    } else if !v.chain_intact() {
        Some(IntegrityError::Chain)
    } else {
        None
    }
}

/// Why a pointer was not orphaned.
#[derive(Clone, Copy, Debug, PartialEq, Eq, Structural)]
pub enum LifecycleError {
    /// The pointer is orphaned already.
    AlreadyOrphaned,
}

/// Why a receipt that was built beforehand is not appended.
#[derive(Clone, Copy, Debug, PartialEq, Eq, Structural)]
pub enum AppendError {
    /// The pointer is orphaned; nothing is appended to its chain any more.
    Orphaned,
    /// The receipt records no resolve.
    NotResolve,
    /// The receipt is not sealed for this pointer.
    Unsealed,
    /// The receipt does not carry the digest of the latest receipt: another
    /// writer appended first.
    Stale,
}

/// Why the resolve receipt `r`, built beforehand, is not appended to the
/// ledger `v`, if it is not.
pub open spec fn append_refusal(v: LedgerView, r: GovernanceReceiptView) -> Option<AppendError> {
    if v.pointer.status == PointerStatus::Orphaned {
        Some(AppendError::Orphaned)
    } else if r.operation != ReceiptOperation::Resolve {
        Some(AppendError::NotResolve)
    } else if !sealed(r, v.pointer.pointer_id, v.pointer.org_id, v.pointer.subject_id) {
        Some(AppendError::Unsealed)
    } else if r.prev_hash != Some(v.latest_hash()) {
        Some(AppendError::Stale)
    } else {
        None
    }
}

/// The contents of a vector of receipts.
pub open spec fn receipt_views(v: Seq<GovernanceReceipt>) -> Seq<GovernanceReceiptView> {
    Seq::new(v.len(), |i: int| v[i]@)
}

/// Builds the receipt that records `operation` on `pointer`: encodes the
/// canonical document with `prev_hash` embedded, takes its digest, and signs
/// the digest.
pub fn seal(
    pointer: &Pointer,
    operation: ReceiptOperation,
    prev_hash: Option<String>,
    metadata: Metadata,
    receipt_id: Uuid,
    keypair: &Ed25519Keypair,
    now: &Timestamp,
) -> (r: GovernanceReceipt)
    ensures
        sealed(r@, pointer@.pointer_id, pointer@.org_id, pointer@.subject_id),
        appended_as(
            r@,
            operation,
            opt_view(prev_hash),
            metadata@,
            receipt_id@,
            now@,
            keypair.seed(),
        ),
        ed25519_valid(keypair.public_key(), encode_utf8(r@.receipt_hash), r@.signature),
{
    proof {
        use_type_invariant(&metadata);
    }
    let data = ReceiptData::at(
        pointer.pointer_id,
        operation,
        now.clone(),
        owned(pointer.subject_id.as_str()),
        prev_hash,
        metadata,
    );
    let signed = data.sign(keypair);
    GovernanceReceipt {
        receipt_id,
        pointer_id: pointer.pointer_id,
        org_id: pointer.org_id,
        operation,
        receipt_json: signed.receipt_json,
        receipt_hash: signed.receipt_hash,
        signature: signed.signature,
        signature_algorithm: signed.signature_algorithm,
        prev_hash: data.prev_hash,
        timestamp: data.timestamp,
        metadata: data.metadata,
    }
}

/// Whether a persisted receipt is sealed for `pointer`: re-encodes the
/// canonical document from the receipt's fields and takes its digest again.
pub fn is_sealed(r: &GovernanceReceipt, pointer: &Pointer) -> (ok: bool)
    ensures
        ok == sealed(r@, pointer@.pointer_id, pointer@.org_id, pointer@.subject_id),
{
    if !r.pointer_id.same(&pointer.pointer_id) || !r.org_id.same(&pointer.org_id) {
        return false;
    }
    let document = encode_canonical(
        &r.pointer_id,
        r.operation,
        &r.timestamp,
        pointer.subject_id.as_str(),
        &r.prev_hash,
        &r.metadata,
    );
    if !same_text(document.as_str(), r.receipt_json.as_str()) {
        return false;
    }
    let digest = sha3_512_hash_str(r.receipt_json.as_str());
    if !same_text(digest.as_str(), r.receipt_hash.as_str()) {
        return false;
    }
    same_text(r.signature_algorithm.as_str(), "ED25519") && r.signature.len() == 64
}

/// Whether the receipt at position `i` carries the digest of the receipt
/// before it, and nothing if it is the first.
fn is_linked(receipts: &Vec<GovernanceReceipt>, i: usize) -> (ok: bool)
    requires
        i < receipts@.len(),
    ensures
        ok == (receipt_views(receipts@)[i as int].prev_hash == expected_prev_hash(
            receipt_views(receipts@),
            i as int,
        )),
{
    match &receipts[i].prev_hash {
        Some(hash) => i > 0 && same_text(hash.as_str(), receipts[i - 1].receipt_hash.as_str()),
        None => i == 0,
    }
}

/// Whether the operation of the receipt at position `i` may stand there.
fn is_allowed(receipts: &Vec<GovernanceReceipt>, i: usize) -> (ok: bool)
    requires
        i < receipts@.len(),
    ensures
        ok == operation_allowed(receipt_views(receipts@), i as int),
{
    if i == 0 {
        receipts[i].operation == ReceiptOperation::Create
    } else {
        !(receipts[i].operation == ReceiptOperation::Create) && !(receipts[i - 1].operation
            == ReceiptOperation::Orphan)
    }
}

/// Whether the receipt at position `i` is sealed, linked and allowed.
pub open spec fn position_intact(
    c: Seq<GovernanceReceiptView>,
    pointer_id: Seq<u8>,
    org_id: Seq<u8>,
    subject_id: Seq<char>,
    i: int,
) -> bool {
    &&& sealed(c[i], pointer_id, org_id, subject_id)
    &&& c[i].prev_hash == expected_prev_hash(c, i)
    &&& operation_allowed(c, i)
}

/// A chain is sealed and linked, with every operation in an allowed place,
/// exactly when every position is intact.
pub proof fn lemma_positions_intact(
    c: Seq<GovernanceReceiptView>,
    pointer_id: Seq<u8>,
    org_id: Seq<u8>,
    subject_id: Seq<char>,
)
    ensures
        (forall|i: int|
            0 <= i < c.len() ==> #[trigger] position_intact(c, pointer_id, org_id, subject_id, i))
            <==> (chain_sealed(c, pointer_id, org_id, subject_id) && chain_linked(c) && (forall|
            i: int,
        | 0 <= i < c.len() ==> #[trigger] operation_allowed(c, i))),
{
    if forall|i: int|
        0 <= i < c.len() ==> #[trigger] position_intact(c, pointer_id, org_id, subject_id, i) {
        assert forall|i: int| 0 <= i < c.len() implies sealed(
            #[trigger] c[i],
            pointer_id,
            org_id,
            subject_id,
        ) by {
            assert(position_intact(c, pointer_id, org_id, subject_id, i));
        }
        assert forall|i: int| 0 <= i < c.len() implies (#[trigger] c[i]).prev_hash
            == expected_prev_hash(c, i) by {
            assert(position_intact(c, pointer_id, org_id, subject_id, i));
        }
        assert forall|i: int| 0 <= i < c.len() implies #[trigger] operation_allowed(c, i) by {
            assert(position_intact(c, pointer_id, org_id, subject_id, i));
        }
    }
}

/// Whether the receipt at position `i` is sealed, linked and allowed.
fn is_position_intact(receipts: &Vec<GovernanceReceipt>, pointer: &Pointer, i: usize) -> (ok: bool)
    requires
        i < receipts@.len(),
    ensures
        ok == position_intact(
            receipt_views(receipts@),
            pointer@.pointer_id,
            pointer@.org_id,
            pointer@.subject_id,
            i as int,
        ),
{
    is_sealed(&receipts[i], pointer) && is_linked(receipts, i) && is_allowed(receipts, i)
}

/// A pointer with its data and its receipt chain.
#[derive(Debug, PartialEq, Eq)]
pub struct PointerLedger {
    pointer: Pointer,
    data: DataStore,
    receipts: Vec<GovernanceReceipt>,
}

impl View for PointerLedger {
    type V = LedgerView;

    closed spec fn view(&self) -> LedgerView {
        LedgerView {
            pointer: self.pointer@,
            data: self.data@,
            receipts: receipt_views(self.receipts@),
        }
    }
}

impl PointerLedger {
    /// The ledger that the given records make, if they are consistent:
    /// every receipt is checked against its own canonical document and
    /// against the receipt before it.
    pub fn load(pointer: Pointer, data: DataStore, receipts: Vec<GovernanceReceipt>) -> (r: Result<
        PointerLedger,
        IntegrityError,
    >)
        ensures
            match r {
                Ok(ledger) => ledger@ == (LedgerView {
                    pointer: pointer@,
                    data: data@,
                    receipts: receipt_views(receipts@),
                }) && ledger@.wf(),
                Err(e) => integrity(
                    LedgerView {
                        pointer: pointer@,
                        data: data@,
                        receipts: receipt_views(receipts@),
                    },
                ) == Some(e),
            },
    {
        let ghost v = LedgerView {
            pointer: pointer@,
            data: data@,
            receipts: receipt_views(receipts@),
        };
        let orphaned = pointer.status == PointerStatus::Orphaned;
        if orphaned != pointer.orphaned_at.is_some() || (pointer.orphan_reason.is_some()
            && !orphaned) {
            return Err(IntegrityError::Pointer);
        }
        if !data.data_id.same(&pointer.data_id) || !data.org_id.same(&pointer.org_id)
            || !same_text(data.subject_id.as_str(), pointer.subject_id.as_str()) {
            return Err(IntegrityError::Data);
        }
        let n = receipts.len();
        if n == 0 {
            return Err(IntegrityError::Chain);
        }
        let mut i: usize = 0;
        while i < n
            invariant
                i <= n,
                n == receipts.len(),
                v == (LedgerView {
                    pointer: pointer@,
                    data: data@,
                    receipts: receipt_views(receipts@),
                }),
                v.pointer.wf(),
                v.data_bound(),
                forall|j: int|
                    0 <= j < i ==> #[trigger] position_intact(
                        v.receipts,
                        v.pointer.pointer_id,
                        v.pointer.org_id,
                        v.pointer.subject_id,
                        j,
                    ),
            decreases n - i,
        {
            if !is_position_intact(&receipts, &pointer, i) {
                proof {
                    lemma_positions_intact(
                        v.receipts,
                        v.pointer.pointer_id,
                        v.pointer.org_id,
                        v.pointer.subject_id,
                    );
                    assert(!position_intact(
                        v.receipts,
                        v.pointer.pointer_id,
                        v.pointer.org_id,
                        v.pointer.subject_id,
                        i as int,
                    ));
                    assert(!v.chain_intact());
                }
                return Err(IntegrityError::Chain);
            }
            i += 1;
        }
        proof {
            lemma_positions_intact(
                v.receipts,
                v.pointer.pointer_id,
                v.pointer.org_id,
                v.pointer.subject_id,
            );
        }
        let last_is_orphan = receipts[n - 1].operation == ReceiptOperation::Orphan;
        if last_is_orphan != orphaned {
            assert(v.receipts.last() == receipts@[n - 1]@);
            return Err(IntegrityError::Chain);
        }
        assert(v.receipts.last() == receipts@[n - 1]@);
        Ok(PointerLedger { pointer, data, receipts })
    }

    /// Opens the ledger of a new pointer: the pointer is active, the data is
    /// stored as given, and the chain holds one create receipt that links to
    /// nothing.
    pub fn create(
        pointer_id: Uuid,
        data_id: Uuid,
        org_id: Uuid,
        subject_id: &str,
        content_hash: &str,
        encrypted_payload: Option<Vec<u8>>,
        receipt_id: Uuid,
        keypair: &Ed25519Keypair,
        now: &Timestamp,
    ) -> (r: PointerLedger)
        ensures
            r@.wf(),
            r@.signed_by(keypair.public_key()),
            r@.time_ordered(),
            r@.pointer == (PointerView {
                pointer_id: pointer_id@,
                org_id: org_id@,
                data_id: data_id@,
                subject_id: subject_id@,
                status: PointerStatus::Active,
                created_at: now@,
                orphaned_at: None,
                orphan_reason: None,
                metadata: Seq::empty(),
            }),
            r@.data == (DataStoreView {
                data_id: data_id@,
                org_id: org_id@,
                subject_id: subject_id@,
                content_hash: content_hash@,
                encrypted_payload: crate::db::models::opt_bytes_view(encrypted_payload),
                created_at: now@,
                metadata: Seq::empty(),
            }),
            r@.receipts.len() == 1,
            appended_as(
                r@.receipts[0],
                ReceiptOperation::Create,
                None,
                create_metadata(content_hash@),
                receipt_id@,
                now@,
                keypair.seed(),
            ),
    {
        let pointer = Pointer {
            pointer_id,
            org_id,
            data_id,
            subject_id: owned(subject_id),
            status: PointerStatus::Active,
            created_at: now.clone(),
            orphaned_at: None,
            orphan_reason: None,
            metadata: Metadata::new(),
        };
        let data = DataStore {
            data_id,
            org_id,
            subject_id: owned(subject_id),
            content_hash: owned(content_hash),
            encrypted_payload,
            created_at: now.clone(),
            metadata: Metadata::new(),
        };
        let mut metadata = Metadata::new();
        metadata.insert("content_hash", Some(content_hash));
        let receipt = seal(
            &pointer,
            ReceiptOperation::Create,
            None,
            metadata,
            receipt_id,
            keypair,
            now,
        );
        let mut receipts: Vec<GovernanceReceipt> = Vec::new();
        receipts.push(receipt);
        let ledger = PointerLedger { pointer, data, receipts };
        proof {
            let c = ledger@.receipts;
            assert(c.len() == 1);
            assert(c[0] == receipt@);
            assert(operation_allowed(c, 0));
            assert(c.last() == c[0]);
        }
        ledger
    }

    /// The pointer.
    pub fn pointer(&self) -> (r: &Pointer)
        ensures
            r@ == self@.pointer,
    {
        &self.pointer
    }

    /// The data that the pointer refers to.
    pub fn data(&self) -> (r: &DataStore)
        ensures
            r@ == self@.data,
    {
        &self.data
    }

    /// The receipt chain, oldest receipt first.
    pub fn receipts(&self) -> (r: &Vec<GovernanceReceipt>)
        ensures
            receipt_views(r@) == self@.receipts,
    {
        &self.receipts
    }

    /// The number of receipts in the chain.
    pub fn len(&self) -> (r: usize)
        ensures
            r == self@.receipts.len(),
    {
        self.receipts.len()
    }

    /// The latest receipt of the chain.
    pub fn latest_receipt(&self) -> (r: &GovernanceReceipt)
        requires
            self@.receipts.len() >= 1,
        ensures
            r@ == self@.receipts.last(),
    {
        &self.receipts[self.receipts.len() - 1]
    }

    /// Whether `public_key` accepts the signature of every receipt.
    pub fn verify_signatures(&self, public_key: &[u8; 32]) -> (r: bool)
        ensures
            r == self@.signed_by(public_key@),
    {
        let n = self.receipts.len();
        let mut i: usize = 0;
        while i < n
            invariant
                i <= n,
                n == self.receipts.len(),
                forall|j: int|
                    0 <= j < i ==> (#[trigger] self@.receipts[j]).signature.len() == 64
                        && ed25519_valid(
                        public_key@,
                        encode_utf8(self@.receipts[j].receipt_hash),
                        self@.receipts[j].signature,
                    ),
            decreases n - i,
        {
            let r = &self.receipts[i];
            assert(self@.receipts[i as int] == r@);
            let ok = match Signature::from_slice(r.signature.as_slice()) {
                Some(s) => verify_signature(public_key, r.receipt_hash.as_str().as_bytes(), &s),
                None => false,
            };
            if !ok {
                return false;
            }
            i += 1;
        }
        true
    }

    /// Whether the order of the chain is an order by time.
    pub fn is_time_ordered(&self) -> (r: bool)
        ensures
            r == self@.time_ordered(),
    {
        let n = self.receipts.len();
        let mut i: usize = 1;
        while i < n
            invariant
                1 <= i,
                n == self.receipts.len(),
                forall|a: int, b: int|
                    0 <= a <= b < i && b < n ==> (#[trigger] self@.receipts[a]).timestamp.not_after(
                        (#[trigger] self@.receipts[b]).timestamp,
                    ),
            decreases n - i,
        {
            assert(self@.receipts[i as int] == self.receipts@[i as int]@);
            assert(self@.receipts[i - 1] == self.receipts@[i - 1]@);
            if !self.receipts[i - 1].timestamp.not_after(&self.receipts[i].timestamp) {
                return false;
            }
            proof {
                assert forall|a: int, b: int| 0 <= a <= b < i + 1 && b < n implies (
                #[trigger] self@.receipts[a]).timestamp.not_after(
                    (#[trigger] self@.receipts[b]).timestamp,
                ) by {
                    if b == i && a < i {
                        assert(self@.receipts[a].timestamp.not_after(
                            self@.receipts[i - 1].timestamp,
                        ));
                    }
                }
            }
            i += 1;
        }
        true
    }

    /// Resolves the pointer. An orphaned pointer is denied and the ledger
    /// stays as it is. For an active pointer exactly one resolve receipt is
    /// appended, linked to the receipt that was last; pointer and data stay
    /// as they are.
    pub fn resolve(&mut self, receipt_id: Uuid, keypair: &Ed25519Keypair, now: &Timestamp) -> (r:
        Result<(), AccessError>)
        requires
            old(self)@.wf(),
        ensures
            final(self)@.wf(),
            final(self)@.pointer == old(self)@.pointer,
            final(self)@.data == old(self)@.data,
            final(self)@.pointer.status == status_after(
                old(self)@.pointer.status,
                ReceiptOperation::Resolve,
            ),
            old(self)@.signed_by(keypair.public_key()) ==> final(self)@.signed_by(
                keypair.public_key(),
            ),
            old(self)@.time_ordered() && old(self)@.not_before_latest(now@)
                ==> final(self)@.time_ordered(),
            old(self)@.pointer.status == PointerStatus::Orphaned ==> r == Err::<(), AccessError>(
                AccessError::PointerOrphaned,
            ) && final(self)@ == old(self)@,
            old(self)@.pointer.status == PointerStatus::Active ==> {
                &&& r is Ok
                &&& final(self)@.extends(old(self)@)
                &&& appended_as(
                    final(self)@.receipts.last(),
                    ReceiptOperation::Resolve,
                    Some(old(self)@.latest_hash()),
                    resolve_metadata(old(self)@.data.data_id),
                    receipt_id@,
                    now@,
                    keypair.seed(),
                )
                &&& ed25519_valid(
                    keypair.public_key(),
                    encode_utf8(final(self)@.latest_hash()),
                    final(self)@.receipts.last().signature,
                )
            },
    {
        match enforce_pointer_access(&self.pointer) {
            Err(e) => {
                return Err(e);
            },
            Ok(()) => {},
        }
        let ghost before = self@;
        let n = self.receipts.len();
        let prev_hash = owned(self.receipts[n - 1].receipt_hash.as_str());
        let mut metadata = Metadata::new();
        let data_id = self.data.data_id.to_hyphenated();
        metadata.insert("data_id", Some(data_id.as_str()));
        let receipt = seal(
            &self.pointer,
            ReceiptOperation::Resolve,
            Some(prev_hash),
            metadata,
            receipt_id,
            keypair,
            now,
        );
        self.receipts.push(receipt);
        proof {
            lemma_append_keeps_intact(before, receipt@);
            assert(self@.receipts =~= before.receipts.push(receipt@));
            assert(self@ == before.with_receipt(receipt@));
            assert(self@.receipts.drop_last() =~= before.receipts);
            if before.signed_by(keypair.public_key()) {
                lemma_append_keeps_signed(before, receipt@, keypair.public_key());
            }
            if before.time_ordered() && before.not_before_latest(now@) {
                lemma_append_keeps_time_order(before, receipt@);
            }
        }
        Ok(())
    }

    /// Appends a resolve receipt that was built beforehand, if it still
    /// extends the chain: it must be sealed for this pointer and carry the
    /// digest of the receipt that is last now. Of two writers that built
    /// their receipts on the same latest receipt, the second is refused as
    /// stale and has to build its receipt again; the chain never forks.
    pub fn append_resolve(&mut self, receipt: GovernanceReceipt) -> (r: Result<(), AppendError>)
        requires
            old(self)@.wf(),
        ensures
            final(self)@.wf(),
            match r {
                Ok(()) => {
                    &&& append_refusal(old(self)@, receipt@) is None
                    &&& final(self)@ == old(self)@.with_receipt(receipt@)
                },
                Err(e) => {
                    &&& append_refusal(old(self)@, receipt@) == Some(e)
                    &&& final(self)@ == old(self)@
                },
            },
    {
        match self.pointer.status {
            PointerStatus::Orphaned => {
                return Err(AppendError::Orphaned);
            },
            PointerStatus::Active => {},
        }
        if !(receipt.operation == ReceiptOperation::Resolve) {
            return Err(AppendError::NotResolve);
        }
        if !is_sealed(&receipt, &self.pointer) {
            return Err(AppendError::Unsealed);
        }
        let n = self.receipts.len();
        let linked = match &receipt.prev_hash {
            Some(hash) => same_text(hash.as_str(), self.receipts[n - 1].receipt_hash.as_str()),
            None => false,
        };
        if !linked {
            return Err(AppendError::Stale);
        }
        let ghost before = self@;
        self.receipts.push(receipt);
        proof {
            lemma_append_keeps_intact(before, receipt@);
            assert(self@.receipts =~= before.receipts.push(receipt@));
        }
        Ok(())
    }

    /// Orphans the pointer. A pointer that is orphaned already is refused
    /// and the ledger stays as it is. An active pointer becomes orphaned at
    /// `now` with the given reason, and exactly one orphan receipt is
    /// appended, linked to the receipt that was last; the data stays as it
    /// is.
    pub fn orphan(
        &mut self,
        reason: Option<&str>,
        receipt_id: Uuid,
        keypair: &Ed25519Keypair,
        now: &Timestamp,
    ) -> (r: Result<(), LifecycleError>)
        requires
            old(self)@.wf(),
        ensures
            final(self)@.wf(),
            final(self)@.data == old(self)@.data,
            final(self)@.pointer.status == PointerStatus::Orphaned,
            final(self)@.pointer.status == status_after(
                old(self)@.pointer.status,
                ReceiptOperation::Orphan,
            ),
            old(self)@.signed_by(keypair.public_key()) ==> final(self)@.signed_by(
                keypair.public_key(),
            ),
            old(self)@.time_ordered() && old(self)@.not_before_latest(now@)
                ==> final(self)@.time_ordered(),
            old(self)@.pointer.status == PointerStatus::Orphaned ==> r == Err::<
                (),
                LifecycleError,
            >(LifecycleError::AlreadyOrphaned) && final(self)@ == old(self)@,
            old(self)@.pointer.status == PointerStatus::Active ==> {
                &&& r is Ok
                &&& final(self)@.pointer == (PointerView {
                    status: PointerStatus::Orphaned,
                    orphaned_at: Some(now@),
                    orphan_reason: match reason {
                        Some(text) => Some(text@),
                        None => None,
                    },
                    ..old(self)@.pointer
                })
                &&& final(self)@.extends(old(self)@)
                &&& appended_as(
                    final(self)@.receipts.last(),
                    ReceiptOperation::Orphan,
                    Some(old(self)@.latest_hash()),
                    orphan_metadata(
                        match reason {
                            Some(text) => Some(text@),
                            None => None,
                        },
                        now@.text,
                    ),
                    receipt_id@,
                    now@,
                    keypair.seed(),
                )
                &&& ed25519_valid(
                    keypair.public_key(),
                    encode_utf8(final(self)@.latest_hash()),
                    final(self)@.receipts.last().signature,
                )
            },
    {
        match self.pointer.status {
            PointerStatus::Orphaned => {
                return Err(LifecycleError::AlreadyOrphaned);
            },
            PointerStatus::Active => {},
        }
        let ghost before = self@;
        let n = self.receipts.len();
        let prev_hash = owned(self.receipts[n - 1].receipt_hash.as_str());
        let mut metadata = Metadata::new();
        match reason {
            Some(text) => metadata.insert("reason", Some(text)),
            None => metadata.insert("reason", Some("user_consent_revoked")),
        }
        let orphaned_at = now.to_rfc3339();
        metadata.insert("orphaned_at", Some(orphaned_at.as_str()));
        self.pointer.status = PointerStatus::Orphaned;
        self.pointer.orphaned_at = Some(now.clone());
        self.pointer.orphan_reason = match reason {
            Some(text) => Some(owned(text)),
            None => None,
        };
        let receipt = seal(
            &self.pointer,
            ReceiptOperation::Orphan,
            Some(prev_hash),
            metadata,
            receipt_id,
            keypair,
            now,
        );
        self.receipts.push(receipt);
        proof {
            let orphaned = LedgerView { pointer: self@.pointer, ..before };
            assert(self@.receipts =~= before.receipts.push(receipt@));
            assert(self@ == orphaned.with_receipt(receipt@));
            lemma_orphan_keeps_intact(before, self@.pointer, receipt@);
            assert(self@.receipts.drop_last() =~= before.receipts);
            if before.signed_by(keypair.public_key()) {
                lemma_append_keeps_signed(orphaned, receipt@, keypair.public_key());
            }
            if before.time_ordered() && before.not_before_latest(now@) {
                lemma_append_keeps_time_order(orphaned, receipt@);
            }
        }
        Ok(())
    }
}

/// Appending a sealed receipt that is no create and that carries the digest
/// of the latest receipt to the chain of an active pointer keeps the chain
/// intact.
pub proof fn lemma_append_keeps_intact(v: LedgerView, r: GovernanceReceiptView)
    requires
        v.wf(),
        v.pointer.status == PointerStatus::Active,
        sealed(r, v.pointer.pointer_id, v.pointer.org_id, v.pointer.subject_id),
        r.prev_hash == Some(v.latest_hash()),
        r.operation == ReceiptOperation::Resolve,
    ensures
        v.with_receipt(r).wf(),
{
    let c = v.receipts;
    let d = c.push(r);
    assert forall|i: int| 0 <= i < d.len() implies sealed(
        #[trigger] d[i],
        v.pointer.pointer_id,
        v.pointer.org_id,
        v.pointer.subject_id,
    ) by {
        if i < c.len() {
            assert(d[i] == c[i]);
        }
    }
    assert forall|i: int| 0 <= i < d.len() implies (#[trigger] d[i]).prev_hash
        == expected_prev_hash(d, i) by {
        if i < c.len() {
            assert(d[i] == c[i]);
            assert(expected_prev_hash(d, i) == expected_prev_hash(c, i));
        }
    }
    assert forall|i: int| 0 <= i < d.len() implies #[trigger] operation_allowed(d, i) by {
        if i < c.len() {
            assert(operation_allowed(c, i));
        }
    }
}

/// Orphaning an active pointer and appending a sealed orphan receipt that
/// carries the digest of the latest receipt keeps the chain intact.
pub proof fn lemma_orphan_keeps_intact(v: LedgerView, p: PointerView, r: GovernanceReceiptView)
    requires
        v.wf(),
        v.pointer.status == PointerStatus::Active,
        p.status == PointerStatus::Orphaned,
        p.wf(),
        p.pointer_id == v.pointer.pointer_id,
        p.org_id == v.pointer.org_id,
        p.data_id == v.pointer.data_id,
        p.subject_id == v.pointer.subject_id,
        sealed(r, p.pointer_id, p.org_id, p.subject_id),
        r.prev_hash == Some(v.latest_hash()),
        r.operation == ReceiptOperation::Orphan,
    ensures
        (LedgerView { pointer: p, ..v }).with_receipt(r).wf(),
{
    let c = v.receipts;
    let d = c.push(r);
    assert forall|i: int| 0 <= i < d.len() implies sealed(
        #[trigger] d[i],
        p.pointer_id,
        p.org_id,
        p.subject_id,
    ) by {
        if i < c.len() {
            assert(d[i] == c[i]);
        }
    }
    assert forall|i: int| 0 <= i < d.len() implies (#[trigger] d[i]).prev_hash
        == expected_prev_hash(d, i) by {
        if i < c.len() {
            assert(d[i] == c[i]);
            assert(expected_prev_hash(d, i) == expected_prev_hash(c, i));
        }
    }
    assert forall|i: int| 0 <= i < d.len() implies #[trigger] operation_allowed(d, i) by {
        if i < c.len() {
            assert(operation_allowed(c, i));
        }
    }
}

/// In a ledger the first receipt links to nothing, and every other receipt
/// carries the digest of the canonical document of the receipt before it.
pub proof fn lemma_chain_integrity(v: LedgerView)
    requires
        v.wf(),
    ensures
        v.receipts.len() >= 1,
        v.receipts[0].prev_hash is None,
        forall|i: int|
            0 < i < v.receipts.len() ==> (#[trigger] v.receipts[i]).prev_hash == Some(
                receipt_digest(v.receipts[i - 1].receipt_json),
            ),
        forall|i: int|
            0 <= i < v.receipts.len() ==> (#[trigger] v.receipts[i]).receipt_json
                == canonical_json(receipt_document(v.receipts[i], v.pointer.subject_id)),
{
    let c = v.receipts;
    let p = v.pointer;
    assert(chain_sealed(c, p.pointer_id, p.org_id, p.subject_id));
    assert(chain_linked(c));
    assert(c.len() >= 1);
    assert(c[0].prev_hash == expected_prev_hash(c, 0));
    assert forall|i: int| 0 < i < c.len() implies (#[trigger] c[i]).prev_hash == Some(
        receipt_digest(c[i - 1].receipt_json),
    ) by {
        assert(c[i].prev_hash == expected_prev_hash(c, i));
        assert(sealed(c[i - 1], p.pointer_id, p.org_id, p.subject_id));
    }
    assert forall|i: int| 0 <= i < c.len() implies (#[trigger] c[i]).receipt_json
        == canonical_json(receipt_document(c[i], p.subject_id)) by {
        assert(sealed(c[i], p.pointer_id, p.org_id, p.subject_id));
    }
}

/// Once a pointer is orphaned it stays orphaned, whatever operations follow.
pub proof fn lemma_orphaned_is_terminal(operations: Seq<ReceiptOperation>)
    ensures
        status_after_all(PointerStatus::Orphaned, operations) == PointerStatus::Orphaned,
    decreases operations.len(),
{
    if operations.len() > 0 {
        lemma_orphaned_is_terminal(operations.drop_last());
    }
}

/// The states that a pointer passes through never lead from orphaned back
/// to active: if it is orphaned after the first `i` operations, it is
/// orphaned after the first `j` for every later `j`.
pub proof fn lemma_lifecycle_monotone(
    status: PointerStatus,
    operations: Seq<ReceiptOperation>,
    i: int,
    j: int,
)
    requires
        0 <= i <= j <= operations.len(),
        status_after_all(status, operations.take(i)) == PointerStatus::Orphaned,
    ensures
        status_after_all(status, operations.take(j)) == PointerStatus::Orphaned,
    decreases j - i,
{
    if i < j {
        lemma_lifecycle_monotone(status, operations, i, j - 1);
        assert(operations.take(j).drop_last() == operations.take(j - 1));
    }
}

/// The state of the pointer of a ledger is the state that the operations
/// recorded after the create lead to from active.
pub proof fn lemma_status_follows_chain(v: LedgerView)
    requires
        v.wf(),
    ensures
        v.pointer.status == status_after_all(
            PointerStatus::Active,
            operations_of(v.receipts).drop_first(),
        ),
{
    let ops = operations_of(v.receipts).drop_first();
    let n = ops.len() as int;
    assert forall|k: int| 0 <= k < n implies ops[k] == v.receipts[k + 1].operation by {}
    lemma_prefix_stays_active(v, n - 1);
    if n > 0 {
        assert(ops.drop_last() == ops.take(n - 1));
        assert(operation_allowed(v.receipts, n));
        assert(v.receipts.last() == v.receipts[n]);
    } else {
        assert(operation_allowed(v.receipts, 0));
        assert(v.receipts.last() == v.receipts[0]);
    }
}

/// Before the last receipt of a ledger nothing orphans the pointer.
proof fn lemma_prefix_stays_active(v: LedgerView, k: int)
    requires
        v.wf(),
        -1 <= k <= v.receipts.len() - 2,
    ensures
        k >= 0 ==> status_after_all(
            PointerStatus::Active,
            operations_of(v.receipts).drop_first().take(k),
        ) == PointerStatus::Active,
    decreases k + 1,
{
    if k > 0 {
        lemma_prefix_stays_active(v, k - 1);
        let ops = operations_of(v.receipts).drop_first();
        assert(ops.take(k).drop_last() == ops.take(k - 1));
        assert(ops.take(k).last() == v.receipts[k].operation);
        assert(operation_allowed(v.receipts, k + 1));
    }
}

/// Appending a receipt that is stamped no earlier than the latest receipt
/// keeps the order of the chain an order by time.
pub proof fn lemma_append_keeps_time_order(v: LedgerView, r: GovernanceReceiptView)
    requires
        v.time_ordered(),
        v.receipts.len() >= 1,
        v.not_before_latest(r.timestamp),
    ensures
        v.with_receipt(r).time_ordered(),
{
    let c = v.receipts;
    let d = c.push(r);
    assert forall|i: int, j: int| 0 <= i <= j < d.len() implies (
    #[trigger] d[i]).timestamp.not_after((#[trigger] d[j]).timestamp) by {
        if j < c.len() {
            assert(d[i] == c[i] && d[j] == c[j]);
        } else if i < c.len() {
            assert(d[i] == c[i]);
            assert(c[i].timestamp.not_after(c.last().timestamp));
        }
    }
}

/// Appending a receipt that `public_key` accepts to a chain that it accepts
/// gives a chain that it accepts.
pub proof fn lemma_append_keeps_signed(v: LedgerView, r: GovernanceReceiptView, public_key: Seq<u8>)
    requires
        v.signed_by(public_key),
        r.signature.len() == 64,
        ed25519_valid(public_key, encode_utf8(r.receipt_hash), r.signature),
    ensures
        v.with_receipt(r).signed_by(public_key),
{
    let c = v.receipts;
    let d = c.push(r);
    assert forall|i: int| 0 <= i < d.len() implies (#[trigger] d[i]).signature.len() == 64
        && ed25519_valid(public_key, encode_utf8(d[i].receipt_hash), d[i].signature) by {
        if i < c.len() {
            assert(d[i] == c[i]);
        }
    }
}

} // verus!
