//! The runcode codec: the base64 layer of the configuration shorthand.
//!
//! A runcode is a base64 text carrying a configuration payload. The codec
//! here turns payload bytes into that text and back; what the bytes mean is
//! the caller's affair.

use vstd::prelude::*;
use base64::Engine;

verus! {

/// What base64's standard-alphabet padded engine encodes a byte sequence to.
pub uninterp spec fn base64_encoding(bytes: Seq<u8>) -> Seq<char>;

/// What base64's standard-alphabet padded engine decodes a text to: the
/// encoded bytes, or nothing where the text is not such an encoding.
pub uninterp spec fn base64_decoding(text: Seq<char>) -> Option<Seq<u8>>;

/// Relies on base64's `Engine::encode` with the standard-alphabet padded
/// engine: the result is a function of the bytes alone, and `Engine::decode`
/// of the same engine inverts it. The length bound keeps the engine's
/// output-size computation from overflowing.
#[verifier::external_body]
fn b64_encode(bytes: &Vec<u8>) -> (r: String)
    requires
        bytes@.len() * 4 + 4 <= usize::MAX as int,
    ensures
        r@ == base64_encoding(bytes@),
        base64_decoding(r@) == Some(bytes@),
{
    base64::engine::general_purpose::STANDARD.encode(bytes)
}

/// Relies on base64's `Engine::decode` with the standard-alphabet padded
/// engine: it returns the bytes a valid encoding stands for and an error for
/// any other text.
#[verifier::external_body]
fn b64_decode(text: &str) -> (r: Result<Vec<u8>, base64::DecodeError>)
    ensures
        r matches Ok(v) ==> base64_decoding(text@) == Some(v@),
        r is Err ==> base64_decoding(text@) is None,
{
    base64::engine::general_purpose::STANDARD.decode(text)
}

#[verifier::external_type_specification]
#[verifier::external_body]
pub struct ExDecodeError(base64::DecodeError);

/// Why a runcode text was rejected.
#[derive(Clone, Copy, PartialEq, Eq, Structural, Debug)]
pub enum RuncodeError {
    InvalidBase64,
}

/// Renders payload bytes as their runcode text.
pub fn encode_runcode(bytes: &Vec<u8>) -> (r: String)
    requires
        bytes@.len() * 4 + 4 <= usize::MAX as int,
    ensures
        r@ == base64_encoding(bytes@),
        base64_decoding(r@) == Some(bytes@),
{
    b64_encode(bytes)
}

/// Recovers the payload bytes of a runcode text. Succeeds exactly on texts
/// that are a base64 encoding under the standard padded alphabet.
pub fn decode_runcode(text: &str) -> (r: Result<Vec<u8>, RuncodeError>)
    ensures
        r matches Ok(v) ==> base64_decoding(text@) == Some(v@),
        r matches Err(e) ==> e == RuncodeError::InvalidBase64 && base64_decoding(text@) is None,
{
    match b64_decode(text) {
        Ok(v) => Ok(v),
        Err(_) => Err(RuncodeError::InvalidBase64),
    }
}

} // verus!
