//! 128-bit identifiers.

use vstd::prelude::*;
use crate::crypto::hex::{hex_lower, lemma_hex_lower_shape};

verus! {

/// The hyphenated lower-case text of a 16-byte identifier: groups of
/// 8, 4, 4, 4 and 12 hexadecimal digits.
pub open spec fn uuid_text(bytes: Seq<u8>) -> Seq<char> {
    hex_lower(bytes.subrange(0, 4)).push('-') + hex_lower(bytes.subrange(4, 6)).push('-')
        + hex_lower(bytes.subrange(6, 8)).push('-') + hex_lower(bytes.subrange(8, 10)).push('-')
        + hex_lower(bytes.subrange(10, 16))
}

/// The hyphenated text of a 16-byte identifier is 36 characters long.
pub proof fn lemma_uuid_text_len(bytes: Seq<u8>)
    requires
        bytes.len() == 16,
    ensures
        uuid_text(bytes).len() == 36,
{
    lemma_hex_lower_shape(bytes.subrange(0, 4));
    lemma_hex_lower_shape(bytes.subrange(4, 6));
    lemma_hex_lower_shape(bytes.subrange(6, 8));
    lemma_hex_lower_shape(bytes.subrange(8, 10));
    lemma_hex_lower_shape(bytes.subrange(10, 16));
}

/// `uuid::Uuid::from_bytes(..).hyphenated().to_string()`: the identifier in
/// the usual 8-4-4-4-12 grouping of lower-case hexadecimal digits.
#[verifier::external_body]
fn hyphenated(bytes: &[u8; 16]) -> (r: String)
    ensures
        r@ == uuid_text(bytes@),
{
    uuid::Uuid::from_bytes(*bytes).hyphenated().to_string()
}

/// A 128-bit identifier of a pointer, a data record, an organization or a
/// receipt.
#[derive(Clone, Copy, Debug, PartialEq, Eq, Hash)]
pub struct Uuid {
    bytes: [u8; 16],
}

impl View for Uuid {
    type V = Seq<u8>;

    closed spec fn view(&self) -> Seq<u8> {
        self.bytes@
    }
}

impl Uuid {
    /// The identifier with the given bytes.
    pub fn from_bytes(bytes: [u8; 16]) -> (r: Uuid)
        ensures
            r@ == bytes@,
    {
        Uuid { bytes }
    }

    /// The identifier whose bytes are all zero.
    pub fn nil() -> (r: Uuid)
        ensures
            r@ == Seq::new(16, |i: int| 0u8),
    {
        let r = Uuid { bytes: [0u8; 16] };
        assert(r@ =~= Seq::new(16, |i: int| 0u8));
        r
    }

    /// The bytes of the identifier.
    pub fn as_bytes(&self) -> (r: &[u8; 16])
        ensures
            r@ == self@,
    {
        &self.bytes
    }

    /// Whether two identifiers have the same bytes.
    pub fn same(&self, other: &Uuid) -> (r: bool)
        ensures
            r == (self@ == other@),
    {
        let mut i: usize = 0;
        while i < 16
            invariant
                i <= 16,
                forall|j: int| 0 <= j < i ==> self.bytes[j] == other.bytes[j],
            decreases 16 - i,
        {
            if self.bytes[i] != other.bytes[i] {
                return false;
            }
            i += 1;
        }
        assert(self.bytes@ =~= other.bytes@);
        true
    }

    /// The hyphenated lower-case text of the identifier, 36 characters.
    pub fn to_hyphenated(&self) -> (r: String)
        ensures
            r@ == uuid_text(self@),
            r@.len() == 36,
    {
        proof {
            lemma_uuid_text_len(self@);
        }
        hyphenated(&self.bytes)
    }
}

} // verus!
