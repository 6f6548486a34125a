//! Trusted boundary to the base64 crate.
//!
//! The provider's protocol carries RSA signatures and AEAD ciphertexts as
//! standard-alphabet, padded base64 text. Encoding and decoding are done by
//! the base64 crate behind the two wrappers below; their contracts name the
//! encoding rather than restating it.

use vstd::prelude::*;

verus! {

/// The standard-alphabet padded base64 encoding of a byte sequence, as the
/// base64 crate's `STANDARD` engine produces it.
pub uninterp spec fn b64_encode_bytes(data: Seq<u8>) -> Seq<u8>;

/// What the base64 crate's `STANDARD` engine makes of a byte sequence:
/// `Some` decoded bytes for a canonical encoding, `None` otherwise.
pub uninterp spec fn b64_decode_bytes(data: Seq<u8>) -> Option<Seq<u8>>;

/// Relies on base64's `STANDARD` engine `encode`: standard alphabet with
/// padding. The engine's decode configuration is strictly canonical, so
/// decoding an encoder output gives back exactly the input bytes.
#[verifier::external_body]
pub fn b64_encode(data: &[u8]) -> (r: Vec<u8>)
    ensures
        r@ == b64_encode_bytes(data@),
        b64_decode_bytes(r@) == Some(data@),
{
    base64::Engine::encode(&base64::engine::general_purpose::STANDARD, data).into_bytes()
}

/// Relies on base64's `STANDARD` engine `decode`: accepts exactly the
/// canonically padded encodings and rejects everything else.
#[verifier::external_body]
pub fn b64_decode(data: &[u8]) -> (r: Option<Vec<u8>>)
    ensures
        r is Some <==> b64_decode_bytes(data@) is Some,
        r matches Some(d) ==> b64_decode_bytes(data@) == Some(d@),
{
    base64::Engine::decode(&base64::engine::general_purpose::STANDARD, data).ok()
}

} // verus!
