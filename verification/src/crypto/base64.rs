//! Padded base64 text, as used for signatures, keys and payloads on the
//! wire.

use vstd::prelude::*;
use vstd::utf8::encode_utf8;
use data_encoding::{DecodeError, BASE64};

verus! {

/// `data_encoding::DecodeError`: why an input is no base64. Nothing of it
/// is read here but the words it displays.
#[verifier::external_type_specification]
#[verifier::external_body]
pub struct ExDecodeError(data_encoding::DecodeError);

/// The padded base64 text of `bytes`.
pub uninterp spec fn base64_text(bytes: Seq<u8>) -> Seq<char>;

/// The bytes that the base64 text `input` stands for; `None` where `input`
/// is not valid padded base64.
pub uninterp spec fn base64_bytes(input: Seq<u8>) -> Option<Seq<u8>>;

/// The bytes that a base64 string stands for; `None` where the string is
/// not valid padded base64 or is too long to be decoded in one piece.
pub open spec fn decoded_text(text: Seq<char>) -> Option<Seq<u8>> {
    if encode_utf8(text).len() > usize::MAX / 8 {
        None
    } else {
        base64_bytes(encode_utf8(text))
    }
}

/// The standard base64 alphabet with padding.
#[derive(Clone, Copy, Debug)]
pub struct StandardBase64;

/// The standard base64 alphabet with padding.
pub const STANDARD: StandardBase64 = StandardBase64;

impl StandardBase64 {
    /// `data_encoding::BASE64.encode`: the padded base64 text of `input`.
    /// The length bound is the one under which the encoder is documented
    /// not to panic.
    #[verifier::external_body]
    pub fn encode(&self, input: &[u8]) -> (r: String)
        requires
            input@.len() <= usize::MAX / 512,
        ensures
            r@ == base64_text(input@),
    {
        BASE64.encode(input)
    }

    /// `data_encoding::BASE64.decode`: the bytes that `input` stands for, or
    /// the decoder's error where `input` is not valid padded base64. The
    /// length bound is the one under which the decoder is documented not to
    /// panic.
    #[verifier::external_body]
    pub fn decode(&self, input: &[u8]) -> (r: Result<Vec<u8>, DecodeError>)
        requires
            input@.len() <= usize::MAX / 8,
        ensures
            match r {
                Ok(bytes) => base64_bytes(input@) == Some(bytes@),
                Err(_) => base64_bytes(input@) is None,
            },
    {
        BASE64.decode(input)
    }
}

/// What `data_encoding::DecodeError` displays: the kind of the error and
/// the position in the input at which it was found.
#[verifier::external_body]
pub(crate) fn describe(error: &DecodeError) -> (r: String) {
    error.to_string()
}

/// Decodes a base64 string of any length. On failure the result tells why,
/// in words.
pub fn decode_text(text: &str) -> (r: Result<Vec<u8>, String>)
    ensures
        match r {
            Ok(bytes) => decoded_text(text@) == Some(bytes@),
            Err(_) => decoded_text(text@) is None,
        },
{
    let input = text.as_bytes();
    if input.len() > usize::MAX / 8 {
        return Err("input too long".to_owned());
    }
    match STANDARD.decode(input) {
        Ok(bytes) => Ok(bytes),
        Err(e) => Err(describe(&e)),
    }
}

} // verus!
