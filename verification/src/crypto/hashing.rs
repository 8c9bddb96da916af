//! SHA3-512 digests, shown as lower-case hexadecimal text.

use vstd::prelude::*;
use vstd::string::StringSliceAdditionalSpecFns;
use sha3::{Digest, Sha3_512};
use crate::crypto::hex::{encode, hex_lower, is_lower_hex, lemma_hex_lower_shape};

verus! {

/// The 64-byte SHA3-512 digest of `data`.
pub uninterp spec fn sha3_512(data: Seq<u8>) -> Seq<u8>;

/// The digest of `data` as hexadecimal text.
pub open spec fn digest_hex(data: Seq<u8>) -> Seq<char> {
    hex_lower(sha3_512(data))
}

/// Feeds `data` to a fresh `sha3::Sha3_512` hasher and returns what
/// `finalize` gives: the digest, which depends on `data` alone.
#[verifier::external_body]
fn sha3_512_digest(data: &[u8]) -> (r: [u8; 64])
    ensures
        r@ == sha3_512(data@),
{
    let mut hasher = Sha3_512::new();
    hasher.update(data);
    hasher.finalize().into()
}

/// The SHA3-512 digest of `data` as 128 lower-case hexadecimal characters.
pub fn sha3_512_hash(data: &[u8]) -> (r: String)
    ensures
        r@ == digest_hex(data@),
        r@.len() == 128,
        is_lower_hex(r@),
{
    let digest = sha3_512_digest(data);
    proof {
        lemma_hex_lower_shape(digest@);
    }
    encode(digest.as_slice())
}

/// The SHA3-512 digest of the UTF-8 bytes of `data` as 128 lower-case
/// hexadecimal characters.
pub fn sha3_512_hash_str(data: &str) -> (r: String)
    ensures
        r@ == digest_hex(data.spec_bytes()),
        r@.len() == 128,
        is_lower_hex(r@),
{
    sha3_512_hash(data.as_bytes())
}

} // verus!
