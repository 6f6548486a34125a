//! Signature verification for inbound responses and webhook notifications.
//!
//! Both paths run through one function over the same plain shape — the four
//! signature headers and the body — so the two call sites can never drift in
//! behavior: a response adapter and a notification adapter merely collect
//! the header values and hand them here. Verification fails closed: a
//! missing header, a malformed signature, an unknown certificate serial and
//! a cryptographic mismatch are four distinct refusals.

use crate::b64::b64_decode;
use crate::b64::b64_decode_bytes;
use crate::canonical::build_response_message;
use crate::canonical::response_message;
use crate::crypto::rsa_verify_pkcs1v15_sha256;
use crate::crypto::rsa_verify_sha256;
use crate::errors::VerifyError;
use crate::platform_certificate::CertificateStore;
use vstd::prelude::*;

verus! {

/// The signature-bearing parts of an inbound message, exactly as they came
/// off the wire: each header value is absent when the message did not carry
/// the header, and verification must fail closed on any absence.
pub struct VerificationInput {
    /// The timestamp header value.
    pub timestamp: Option<Vec<u8>>,
    /// The nonce header value.
    pub nonce: Option<Vec<u8>>,
    /// The certificate-serial header value.
    pub serial_no: Option<Vec<u8>>,
    /// The signature header value: base64 text.
    pub signature: Option<Vec<u8>>,
    /// The exact message body.
    pub body: Vec<u8>,
}

/// The byte sequence a header value denotes, when the header is present.
pub open spec fn header_bytes(value: Option<Vec<u8>>) -> Option<Seq<u8>> {
    match value {
        Some(v) => Some(v@),
        None => None,
    }
}

/// What verification of an inbound message must return: the single
/// definition both the response path and the notification path are held to.
/// The claimed serial selects the key; no other key is ever tried.
pub open spec fn verification_result(
    store: Map<Seq<u8>, Seq<u8>>,
    timestamp: Option<Seq<u8>>,
    nonce: Option<Seq<u8>>,
    serial_no: Option<Seq<u8>>,
    signature: Option<Seq<u8>>,
    body: Seq<u8>,
) -> Result<(), VerifyError> {
    if signature is None {
        Err(VerifyError::MissingSignature)
    } else if timestamp is None {
        Err(VerifyError::MissingTimestamp)
    } else if nonce is None {
        Err(VerifyError::MissingNonce)
    } else if serial_no is None {
        Err(VerifyError::MissingSerial)
    } else if !store.contains_key(serial_no->0) {
        Err(VerifyError::UnknownCertificate)
    } else if b64_decode_bytes(signature->0) is None {
        Err(VerifyError::MalformedSignature)
    } else if !rsa_verify_sha256(
        store[serial_no->0],
        response_message(timestamp->0, nonce->0, body),
        b64_decode_bytes(signature->0)->0,
    ) {
        Err(VerifyError::SignatureMismatch)
    } else {
        Ok(())
    }
}

impl CertificateStore {
    /// Verifies one inbound message against this store. Returns `Ok` exactly
    /// when all four signature headers are present, the claimed serial
    /// selects a certificate, the signature is valid base64, and it
    /// verifies over the canonical message built from timestamp, nonce and
    /// body — in that order, so an unknown serial is reported before the
    /// signature is even decoded.
    pub fn verify_message(&self, input: &VerificationInput) -> (r: Result<(), VerifyError>)
        ensures
            r == verification_result(
                self@,
                header_bytes(input.timestamp),
                header_bytes(input.nonce),
                header_bytes(input.serial_no),
                header_bytes(input.signature),
                input.body@,
            ),
    {
        let signature = match &input.signature {
            Some(s) => s,
            None => { return Err(VerifyError::MissingSignature) },
        };
        let timestamp = match &input.timestamp {
            Some(t) => t,
            None => { return Err(VerifyError::MissingTimestamp) },
        };
        let nonce = match &input.nonce {
            Some(n) => n,
            None => { return Err(VerifyError::MissingNonce) },
        };
        let serial_no = match &input.serial_no {
            Some(s) => s,
            None => { return Err(VerifyError::MissingSerial) },
        };
        let public_key_der = match self.lookup(serial_no.as_slice()) {
            Some(k) => k,
            None => { return Err(VerifyError::UnknownCertificate) },
        };
        let raw_signature = match b64_decode(signature.as_slice()) {
            Some(raw) => raw,
            None => { return Err(VerifyError::MalformedSignature) },
        };
        let message = build_response_message(
            timestamp.as_slice(),
            nonce.as_slice(),
            input.body.as_slice(),
        );
        if rsa_verify_pkcs1v15_sha256(
            public_key_der.as_slice(),
            message.as_slice(),
            raw_signature.as_slice(),
        ) {
            Ok(())
        } else {
            Err(VerifyError::SignatureMismatch)
        }
    }
}

/// Certificate selection fails distinctly: with all headers present, a
/// store that does not know the claimed serial number refuses with
/// `UnknownCertificate` — not with a signature mismatch, whatever the
/// signature header holds, and never by trying some other key.
pub proof fn lemma_unknown_certificate_is_distinct(
    store: Map<Seq<u8>, Seq<u8>>,
    timestamp: Seq<u8>,
    nonce: Seq<u8>,
    serial_no: Seq<u8>,
    signature: Seq<u8>,
    body: Seq<u8>,
)
    requires
        !store.contains_key(serial_no),
    ensures
        verification_result(
            store,
            Some(timestamp),
            Some(nonce),
            Some(serial_no),
            Some(signature),
            body,
        ) == Err::<(), VerifyError>(VerifyError::UnknownCertificate),
{
}

} // verus!
