//! Ed25519 signatures over byte strings.

use vstd::prelude::*;
use ed25519_dalek::{Signer, SigningKey, Verifier, VerifyingKey};
use rand::rngs::OsRng;
use crate::config::Config;
use crate::crypto::base64::{decode_text, decoded_text, base64_text, STANDARD};
use crate::text::{same_bytes, to_array};

verus! {

/// The 32-byte public key that belongs to the 32-byte signing seed `seed`.
pub uninterp spec fn ed25519_public_key(seed: Seq<u8>) -> Seq<u8>;

/// The 64-byte signature that the signing seed `seed` gives `message`.
/// Ed25519 signing uses no randomness.
pub uninterp spec fn ed25519_signature(seed: Seq<u8>, message: Seq<u8>) -> Seq<u8>;

/// Whether `signature` is accepted for `message` under `public_key`. Bytes
/// that are no public key accept nothing.
pub uninterp spec fn ed25519_valid(
    public_key: Seq<u8>,
    message: Seq<u8>,
    signature: Seq<u8>,
) -> bool;

/// `SigningKey::generate` with the operating system's random number
/// generator, then `to_bytes`: a fresh signing seed. Nothing is known of it
/// beforehand.
#[verifier::external_body]
fn random_seed() -> (r: [u8; 32]) {
    SigningKey::generate(&mut OsRng).to_bytes()
}

/// `SigningKey::from_bytes`, `verifying_key`, `to_bytes`: the public key
/// that belongs to a signing seed.
#[verifier::external_body]
fn derive_public_key(seed: &[u8; 32]) -> (r: [u8; 32])
    ensures
        r@ == ed25519_public_key(seed@),
{
    SigningKey::from_bytes(seed).verifying_key().to_bytes()
}

/// `SigningKey::from_bytes`, `sign`, `to_bytes`: the signature of `message`
/// under the seed. As the signing library documents, a signature made this
/// way is accepted under the public key of the same seed.
#[verifier::external_body]
fn sign_with_seed(seed: &[u8; 32], message: &[u8]) -> (r: [u8; 64])
    ensures
        r@ == ed25519_signature(seed@, message@),
        ed25519_valid(ed25519_public_key(seed@), message@, r@),
{
    SigningKey::from_bytes(seed).sign(message).to_bytes()
}

/// `VerifyingKey::from_bytes`, then `verify` with the signature that
/// `Signature::from_bytes` reads: whether the signature is accepted. Key
/// bytes that `from_bytes` rejects accept nothing.
#[verifier::external_body]
fn verify_with_key(public_key: &[u8; 32], message: &[u8], signature: &[u8; 64]) -> (r: bool)
    ensures
        r == ed25519_valid(public_key@, message@, signature@),
{
    match VerifyingKey::from_bytes(public_key) {
        Ok(key) => key.verify(message, &ed25519_dalek::Signature::from_bytes(signature)).is_ok(),
        Err(_) => false,
    }
}

/// A 64-byte Ed25519 signature.
#[derive(Clone, Copy, Debug, PartialEq, Eq)]
pub struct Signature {
    bytes: [u8; 64],
}

impl View for Signature {
    type V = Seq<u8>;

    closed spec fn view(&self) -> Seq<u8> {
        self.bytes@
    }
}

impl Signature {
    /// The signature with the given bytes.
    pub fn from_bytes(bytes: &[u8; 64]) -> (r: Signature)
        ensures
            r@ == bytes@,
    {
        Signature { bytes: *bytes }
    }

    /// The signature with the given bytes, if there are 64 of them.
    pub fn from_slice(bytes: &[u8]) -> (r: Option<Signature>)
        ensures
            r is Some <==> bytes@.len() == 64,
            r matches Some(s) ==> s@ == bytes@,
    {
        match to_array::<64>(bytes) {
            Some(a) => Some(Signature { bytes: a }),
            None => None,
        }
    }

    /// The bytes of the signature.
    pub fn to_bytes(&self) -> (r: [u8; 64])
        ensures
            r@ == self@,
    {
        self.bytes
    }

    /// The bytes of the signature, as a vector of length 64.
    pub fn to_vec(&self) -> (r: Vec<u8>)
        ensures
            r@ == self@,
            r@.len() == 64,
    {
        vstd::slice::slice_to_vec(self.bytes.as_slice())
    }
}

/// Whether `signature` is accepted for `message` under the public key
/// `public_key`.
pub fn verify_signature(public_key: &[u8; 32], message: &[u8], signature: &Signature) -> (r: bool)
    ensures
        r == ed25519_valid(public_key@, message@, signature@),
{
    verify_with_key(public_key, message, &signature.bytes)
}

/// Why a configured keypair was not accepted.
#[derive(Clone, Copy, Debug, PartialEq, Eq, Structural)]
pub enum KeyError {
    /// A key is not valid padded base64.
    Encoding,
    /// A key does not have 32 bytes.
    Length,
    /// The public key is not the one that belongs to the private key.
    Mismatch,
}

/// A signing seed together with the public key that belongs to it.
pub struct Ed25519Keypair {
    secret: [u8; 32],
    public: [u8; 32],
}

impl Clone for Ed25519Keypair {
    fn clone(&self) -> (r: Ed25519Keypair)
        ensures
            r.seed() == self.seed(),
            r.public_key() == self.public_key(),
    {
        proof {
            use_type_invariant(self);
        }
        Ed25519Keypair { secret: self.secret, public: self.public }
    }
}

impl Ed25519Keypair {
    /// The signing seed.
    pub closed spec fn seed(&self) -> Seq<u8> {
        self.secret@
    }

    /// The public key.
    pub closed spec fn public_key(&self) -> Seq<u8> {
        self.public@
    }

    /// Whether the public key is the one that belongs to the seed. This
    /// holds of every keypair.
    #[verifier::type_invariant]
    pub open spec fn wf(&self) -> bool {
        self.public_key() == ed25519_public_key(self.seed())
    }

    /// A keypair with a fresh random seed.
    pub fn generate() -> (r: Ed25519Keypair)
        ensures
            r.wf(),
    {
        let secret = random_seed();
        let public = derive_public_key(&secret);
        Ed25519Keypair { secret, public }
    }

    /// The keypair of the given seed.
    pub fn from_seed(seed: &[u8; 32]) -> (r: Ed25519Keypair)
        ensures
            r.wf(),
            r.seed() == seed@,
    {
        let public = derive_public_key(seed);
        Ed25519Keypair { secret: *seed, public }
    }

    /// Signs `message`. The signature is accepted under this keypair's
    /// public key.
    pub fn sign(&self, message: &[u8]) -> (r: Signature)
        ensures
            r@ == ed25519_signature(self.seed(), message@),
            ed25519_valid(self.public_key(), message@, r@),
    {
        proof {
            use_type_invariant(self);
        }
        Signature { bytes: sign_with_seed(&self.secret, message) }
    }

    /// Whether `signature` is accepted for `message` under this keypair's
    /// public key.
    pub fn verify(&self, message: &[u8], signature: &Signature) -> (r: bool)
        ensures
            r == ed25519_valid(self.public_key(), message@, signature@),
    {
        verify_with_key(&self.public, message, &signature.bytes)
    }

    /// The 32 bytes of the public key.
    pub fn public_key_bytes(&self) -> (r: [u8; 32])
        ensures
            r@ == self.public_key(),
    {
        self.public
    }

    /// The public key in padded base64, as it is announced at start-up.
    pub fn public_key_base64(&self) -> (r: String)
        ensures
            r@ == base64_text(self.public_key()),
    {
        STANDARD.encode(self.public.as_slice())
    }
}

/// What a configured pair of keys amounts to: the seed and the public key,
/// or the reason why the pair is not accepted.
pub open spec fn configured_keypair(private_key: Seq<char>, public_key: Seq<char>) -> Result<
    (Seq<u8>, Seq<u8>),
    KeyError,
> {
    let seed = decoded_text(private_key);
    let public = decoded_text(public_key);
    if seed is None || public is None {
        Err(KeyError::Encoding)
    } else if seed->0.len() != 32 || public->0.len() != 32 {
        Err(KeyError::Length)
    } else if ed25519_public_key(seed->0) != public->0 {
        Err(KeyError::Mismatch)
    } else {
        Ok((seed->0, public->0))
    }
}

/// The keypair that a pair of configured keys describes.
pub fn load_keypair(private_key: &str, public_key: &str) -> (r: Result<Ed25519Keypair, KeyError>)
    ensures
        match r {
            Ok(keypair) => configured_keypair(private_key@, public_key@) == Ok::<
                (Seq<u8>, Seq<u8>),
                KeyError,
            >((keypair.seed(), keypair.public_key())) && keypair.wf(),
            Err(e) => configured_keypair(private_key@, public_key@) == Err::<
                (Seq<u8>, Seq<u8>),
                KeyError,
            >(e),
        },
{
    let seed_bytes = match decode_text(private_key) {
        Ok(bytes) => bytes,
        Err(_) => {
            return Err(KeyError::Encoding);
        },
    };
    let public_bytes = match decode_text(public_key) {
        Ok(bytes) => bytes,
        Err(_) => {
            return Err(KeyError::Encoding);
        },
    };
    let seed = match to_array::<32>(seed_bytes.as_slice()) {
        Some(a) => a,
        None => {
            return Err(KeyError::Length);
        },
    };
    if public_bytes.len() != 32 {
        return Err(KeyError::Length);
    }
    let keypair = Ed25519Keypair::from_seed(&seed);
    if !same_bytes(keypair.public.as_slice(), public_bytes.as_slice()) {
        return Err(KeyError::Mismatch);
    }
    Ok(keypair)
}

/// The keypair to sign with: the configured one where both keys are
/// configured, a fresh one otherwise.
pub fn load_or_generate_keypair(config: &Config) -> (r: Result<Ed25519Keypair, KeyError>)
    ensures
        r matches Ok(keypair) ==> keypair.wf(),
        match (config.signing_private_key, config.signing_public_key) {
            (Some(private_key), Some(public_key)) => match r {
                Ok(keypair) => configured_keypair(private_key@, public_key@) == Ok::<
                    (Seq<u8>, Seq<u8>),
                    KeyError,
                >((keypair.seed(), keypair.public_key())),
                Err(e) => configured_keypair(private_key@, public_key@) == Err::<
                    (Seq<u8>, Seq<u8>),
                    KeyError,
                >(e),
            },
            _ => r is Ok,
        },
{
    match (&config.signing_private_key, &config.signing_public_key) {
        (Some(private_key), Some(public_key)) => load_keypair(
            private_key.as_str(),
            public_key.as_str(),
        ),
        _ => Ok(Ed25519Keypair::generate()),
    }
}

} // verus!
