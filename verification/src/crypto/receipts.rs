//! Canonical receipt documents and their signed form.

use vstd::prelude::*;
use vstd::utf8::encode_utf8;
use crate::clock::{Timestamp, TimestampView};
use crate::crypto::ed25519::{
    ed25519_signature, ed25519_valid, verify_signature, Ed25519Keypair, Signature,
};
use crate::crypto::hashing::{digest_hex, sha3_512_hash_str};
use crate::crypto::hex::is_lower_hex;
use crate::db::models::{operation_text, ReceiptOperation};
use crate::ident::{uuid_text, Uuid};
use crate::json::{json_object, json_string, json_value, write_json_string, write_json_value};
use crate::metadata::{EntryView, Metadata};
use crate::text::{opt_view, owned, owned_opt, push_text, same_text};

verus! {

/// The logical fields of a receipt, as mathematics.
pub struct ReceiptDataView {
    pub pointer_id: Seq<u8>,
    pub operation: ReceiptOperation,
    pub timestamp: TimestampView,
    pub subject_id: Seq<char>,
    pub prev_hash: Option<Seq<char>>,
    pub metadata: Seq<EntryView>,
}

/// The canonical document of a receipt: a compact JSON object whose members
/// stand in one fixed order, with the timestamp as RFC 3339 text in UTC.
#[verifier::opaque]
pub open spec fn canonical_json(d: ReceiptDataView) -> Seq<char> {
    "{\"metadata\":"@ + json_object(d.metadata) + ",\"operation\":"@ + json_string(
        operation_text(d.operation),
    ) + ",\"pointer_id\":"@ + json_string(uuid_text(d.pointer_id)) + ",\"prev_hash\":"@
        + json_value(d.prev_hash) + ",\"subject_id\":"@ + json_string(d.subject_id)
        + ",\"timestamp\":"@ + json_string(d.timestamp.text) + "}"@
}

/// The digest of a canonical document: SHA3-512 of its UTF-8 bytes, as 128
/// lower-case hexadecimal characters.
pub open spec fn receipt_digest(document: Seq<char>) -> Seq<char> {
    digest_hex(encode_utf8(document))
}

/// The logical fields of a receipt.
#[derive(Debug, PartialEq, Eq)]
pub struct ReceiptData {
    pub pointer_id: Uuid,
    pub operation: ReceiptOperation,
    pub timestamp: Timestamp,
    pub subject_id: String,
    /// The digest of the receipt before this one; absent for the first.
    pub prev_hash: Option<String>,
    pub metadata: Metadata,
}

impl View for ReceiptData {
    type V = ReceiptDataView;

    open spec fn view(&self) -> ReceiptDataView {
        ReceiptDataView {
            pointer_id: self.pointer_id@,
            operation: self.operation,
            timestamp: self.timestamp@,
            subject_id: self.subject_id@,
            prev_hash: opt_view(self.prev_hash),
            metadata: self.metadata.entries(),
        }
    }
}

impl Clone for ReceiptData {
    fn clone(&self) -> (r: ReceiptData)
        ensures
            r@ == self@,
    {
        ReceiptData {
            pointer_id: self.pointer_id,
            operation: self.operation,
            timestamp: self.timestamp.clone(),
            subject_id: owned(self.subject_id.as_str()),
            prev_hash: owned_opt(&self.prev_hash),
            metadata: self.metadata.clone(),
        }
    }
}

/// A signed receipt, as mathematics.
pub struct SignedReceiptView {
    pub receipt_json: Seq<char>,
    pub receipt_hash: Seq<char>,
    pub signature: Seq<u8>,
    pub signature_algorithm: Seq<char>,
}

impl SignedReceiptView {
    /// Whether the digest is the digest of the document and the signature
    /// is an Ed25519 signature that `public_key` accepts for the characters
    /// of the digest.
    pub open spec fn verifies(self, public_key: Seq<u8>) -> bool {
        &&& self.receipt_hash == receipt_digest(self.receipt_json)
        &&& self.signature_algorithm == "ED25519"@
        &&& self.signature.len() == 64
        &&& ed25519_valid(public_key, encode_utf8(self.receipt_hash), self.signature)
    }
}

/// A canonical document with its digest and the signature over the digest.
#[derive(Debug, PartialEq, Eq)]
pub struct SignedReceipt {
    /// The canonical document.
    pub receipt_json: String,
    /// The digest of `receipt_json`.
    pub receipt_hash: String,
    /// The signature over the characters of `receipt_hash`.
    pub signature: Vec<u8>,
    pub signature_algorithm: String,
}

impl View for SignedReceipt {
    type V = SignedReceiptView;

    open spec fn view(&self) -> SignedReceiptView {
        SignedReceiptView {
            receipt_json: self.receipt_json@,
            receipt_hash: self.receipt_hash@,
            signature: self.signature@,
            signature_algorithm: self.signature_algorithm@,
        }
    }
}

impl Clone for SignedReceipt {
    fn clone(&self) -> (r: SignedReceipt)
        ensures
            r@ == self@,
    {
        SignedReceipt {
            receipt_json: owned(self.receipt_json.as_str()),
            receipt_hash: owned(self.receipt_hash.as_str()),
            signature: self.signature.clone(),
            signature_algorithm: owned(self.signature_algorithm.as_str()),
        }
    }
}

/// Whether a digest, read again from a document, and a signature over it
/// hold under `public_key`.
pub fn verify_receipt(
    receipt_json: &str,
    receipt_hash: &str,
    signature: &[u8],
    signature_algorithm: &str,
    public_key: &[u8; 32],
) -> (r: bool)
    ensures
        r == (SignedReceiptView {
            receipt_json: receipt_json@,
            receipt_hash: receipt_hash@,
            signature: signature@,
            signature_algorithm: signature_algorithm@,
        }).verifies(public_key@),
{
    let digest = sha3_512_hash_str(receipt_json);
    if !same_text(digest.as_str(), receipt_hash) {
        return false;
    }
    if !same_text(signature_algorithm, "ED25519") {
        return false;
    }
    match Signature::from_slice(signature) {
        Some(s) => verify_signature(public_key, receipt_hash.as_bytes(), &s),
        None => false,
    }
}

impl SignedReceipt {
    /// Whether the receipt holds under `public_key`: the digest is the
    /// digest of the document, and the signature is accepted for the
    /// characters of the digest.
    pub fn verify(&self, public_key: &[u8; 32]) -> (r: bool)
        ensures
            r == self@.verifies(public_key@),
    {
        verify_receipt(
            self.receipt_json.as_str(),
            self.receipt_hash.as_str(),
            self.signature.as_slice(),
            self.signature_algorithm.as_str(),
            public_key,
        )
    }
}

/// The canonical document of a receipt with the given logical fields.
pub fn encode_canonical(
    pointer_id: &Uuid,
    operation: ReceiptOperation,
    timestamp: &Timestamp,
    subject_id: &str,
    prev_hash: &Option<String>,
    metadata: &Metadata,
) -> (r: String)
    ensures
        r@ == canonical_json(
            ReceiptDataView {
                pointer_id: pointer_id@,
                operation,
                timestamp: timestamp@,
                subject_id: subject_id@,
                prev_hash: opt_view(*prev_hash),
                metadata: metadata.entries(),
            },
        ),
{
    let mut out = String::new();
    push_text(&mut out, "{\"metadata\":");
    metadata.write_json(&mut out);
    push_text(&mut out, ",\"operation\":");
    write_json_string(&mut out, operation.as_str());
    push_text(&mut out, ",\"pointer_id\":");
    let id = pointer_id.to_hyphenated();
    write_json_string(&mut out, id.as_str());
    push_text(&mut out, ",\"prev_hash\":");
    write_json_value(&mut out, prev_hash);
    push_text(&mut out, ",\"subject_id\":");
    write_json_string(&mut out, subject_id);
    push_text(&mut out, ",\"timestamp\":");
    let time = timestamp.to_rfc3339();
    write_json_string(&mut out, time.as_str());
    push_text(&mut out, "}");
    reveal(canonical_json);
    assert(out@ =~= canonical_json(
        ReceiptDataView {
            pointer_id: pointer_id@,
            operation,
            timestamp: timestamp@,
            subject_id: subject_id@,
            prev_hash: opt_view(*prev_hash),
            metadata: metadata.entries(),
        },
    ));
    out
}

impl ReceiptData {
    /// A receipt for `operation` on `pointer_id`, stamped with `timestamp`.
    pub fn at(
        pointer_id: Uuid,
        operation: ReceiptOperation,
        timestamp: Timestamp,
        subject_id: String,
        prev_hash: Option<String>,
        metadata: Metadata,
    ) -> (r: ReceiptData)
        ensures
            r@ == (ReceiptDataView {
                pointer_id: pointer_id@,
                operation,
                timestamp: timestamp@,
                subject_id: subject_id@,
                prev_hash: opt_view(prev_hash),
                metadata: metadata.entries(),
            }),
    {
        ReceiptData { pointer_id, operation, timestamp, subject_id, prev_hash, metadata }
    }

    /// A receipt for `operation` on `pointer_id`, stamped with the current
    /// time.
    pub fn new(
        pointer_id: Uuid,
        operation: ReceiptOperation,
        subject_id: String,
        prev_hash: Option<String>,
        metadata: Metadata,
    ) -> (r: ReceiptData)
        ensures
            r@.pointer_id == pointer_id@,
            r@.operation == operation,
            r@.subject_id == subject_id@,
            r@.prev_hash == opt_view(prev_hash),
            r@.metadata == metadata.entries(),
            r.timestamp.wf(),
    {
        ReceiptData::at(pointer_id, operation, Timestamp::now(), subject_id, prev_hash, metadata)
    }

    /// The canonical document of the receipt. It depends on the logical
    /// fields alone.
    pub fn to_canonical_json(&self) -> (r: String)
        ensures
            r@ == canonical_json(self@),
    {
        encode_canonical(
            &self.pointer_id,
            self.operation,
            &self.timestamp,
            self.subject_id.as_str(),
            &self.prev_hash,
            &self.metadata,
        )
    }

    /// Signs the receipt: encodes the canonical document, takes its digest,
    /// and signs the characters of the digest.
    pub fn sign(&self, keypair: &Ed25519Keypair) -> (r: SignedReceipt)
        ensures
            r@.receipt_json == canonical_json(self@),
            r@.receipt_hash == receipt_digest(canonical_json(self@)),
            r@.receipt_hash.len() == 128,
            is_lower_hex(r@.receipt_hash),
            r@.signature == ed25519_signature(keypair.seed(), encode_utf8(r@.receipt_hash)),
            r@.signature.len() == 64,
            r@.signature_algorithm == "ED25519"@,
            r@.verifies(keypair.public_key()),
    {
        let receipt_json = self.to_canonical_json();
        let receipt_hash = sha3_512_hash_str(receipt_json.as_str());
        let signature = keypair.sign(receipt_hash.as_str().as_bytes());
        SignedReceipt {
            receipt_json,
            receipt_hash,
            signature: signature.to_vec(),
            signature_algorithm: owned("ED25519"),
        }
    }
}

/// Receipts with the same logical fields have the same canonical document
/// and the same digest.
pub proof fn lemma_encoding_deterministic(a: ReceiptData, b: ReceiptData)
    requires
        a@ == b@,
    ensures
        canonical_json(a@) == canonical_json(b@),
        receipt_digest(canonical_json(a@)) == receipt_digest(canonical_json(b@)),
{
}

/// The canonical document does not depend on the order in which the
/// members of the metadata were inserted: receipts whose other fields agree
/// and whose metadata describe the same mapping have the same document and
/// digest.
pub proof fn lemma_encoding_ignores_insertion_order(a: ReceiptData, b: ReceiptData)
    requires
        a.metadata.wf(),
        b.metadata.wf(),
        a.metadata@ == b.metadata@,
        a@.pointer_id == b@.pointer_id,
        a@.operation == b@.operation,
        a@.timestamp == b@.timestamp,
        a@.subject_id == b@.subject_id,
        a@.prev_hash == b@.prev_hash,
    ensures
        canonical_json(a@) == canonical_json(b@),
        receipt_digest(canonical_json(a@)) == receipt_digest(canonical_json(b@)),
{
    Metadata::lemma_text_depends_on_mapping(a.metadata, b.metadata);
}

} // verus!
