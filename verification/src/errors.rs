//! Error taxonomy of the security layer.
//!
//! Every failure path is a distinguishable kind: protocol errors (missing or
//! malformed signature headers, unknown certificate serial, signature
//! mismatch), cryptographic errors (authentication failure on notification
//! decryption, RSA operation failure), and schema errors (unsupported
//! algorithm tag, unknown notification type). Nothing is silently swallowed,
//! and none of these is retried by this layer.

use vstd::prelude::*;

verus! {

/// Why an inbound response or notification failed signature verification.
///
/// Missing-header failures are distinct from cryptographic mismatch, and an
/// unknown certificate serial is distinct from both: verification never
/// degrades to a best-effort key.
#[derive(Debug, Clone, Copy, PartialEq, Eq, Structural)]
pub enum VerifyError {
    /// The signature header is absent.
    MissingSignature,
    /// The timestamp header is absent.
    MissingTimestamp,
    /// The nonce header is absent.
    MissingNonce,
    /// The certificate-serial header is absent.
    MissingSerial,
    /// The signature header is not valid base64.
    MalformedSignature,
    /// The claimed certificate serial number is not in the store.
    UnknownCertificate,
    /// The signature does not verify against the canonical message.
    SignatureMismatch,
}

impl VerifyError {
    /// A short diagnostic label for this failure kind.
    pub fn describe(&self) -> (r: &'static str) {
        match self {
            VerifyError::MissingSignature => "missing signature header",
            VerifyError::MissingTimestamp => "missing timestamp header",
            VerifyError::MissingNonce => "missing nonce header",
            VerifyError::MissingSerial => "missing certificate serial header",
            VerifyError::MalformedSignature => "signature header is not valid base64",
            VerifyError::UnknownCertificate => "unknown certificate serial number",
            VerifyError::SignatureMismatch => "signature mismatch",
        }
    }
}

/// Why signing an outbound request failed. Signing fails only on key-material
/// corruption, which is fatal for the client and never retried.
#[derive(Debug, Clone, Copy, PartialEq, Eq, Structural)]
pub enum SignError {
    /// The merchant private key could not be used.
    InvalidKey,
}

impl SignError {
    /// A short diagnostic label for this failure kind.
    pub fn describe(&self) -> (r: &'static str) {
        match self {
            SignError::InvalidKey => "merchant private key is unusable",
        }
    }
}

/// Why encrypting a sensitive field failed.
#[derive(Debug, Clone, Copy, PartialEq, Eq, Structural)]
pub enum EncryptError {
    /// The provider public key was rejected or the plaintext is too long for
    /// the key's modulus.
    EncryptionFailed,
}

/// Why a notification resource could not be decrypted into a typed event.
///
/// Schema errors (`UnsupportedAlgorithm`, `UnknownNotificationType`) are
/// distinct from the cryptographic `AuthenticationFailed`, so callers can tell
/// "authenticated but unparseable" apart from "not authentic".
#[derive(Debug, Clone, Copy, PartialEq, Eq, Structural)]
pub enum NotifyError {
    /// The resource's algorithm tag is not the single supported AEAD
    /// identifier.
    UnsupportedAlgorithm,
    /// The ciphertext is not valid base64.
    MalformedCiphertext,
    /// The resource's nonce is not the initialization-vector length the AEAD
    /// requires.
    MalformedNonce,
    /// The authentication tag did not check out: the payload was tampered
    /// with, or the key is wrong.
    AuthenticationFailed,
    /// The resource's original type tag names no known event kind.
    UnknownNotificationType,
}

impl NotifyError {
    /// A short diagnostic label for this failure kind.
    pub fn describe(&self) -> (r: &'static str) {
        match self {
            NotifyError::UnsupportedAlgorithm => "unsupported resource algorithm",
            NotifyError::MalformedCiphertext => "resource ciphertext is not valid base64",
            NotifyError::MalformedNonce => "resource nonce has the wrong length",
            NotifyError::AuthenticationFailed => "resource failed authenticated decryption",
            NotifyError::UnknownNotificationType => "unknown notification type",
        }
    }
}

/// Why construction of key material was refused.
#[derive(Debug, Clone, Copy, PartialEq, Eq, Structural)]
pub enum KeyError {
    /// The symmetric notification key is not exactly 32 bytes.
    BadNotificationKeyLength,
    /// Two certificates carry the same serial number.
    DuplicateSerial,
}

/// Why an upload payload was rejected before any network call.
#[derive(Debug, Clone, Copy, PartialEq, Eq, Structural)]
pub enum UploadError {
    /// The payload exceeds the fixed size ceiling.
    TooLarge,
    /// The filename's extension is not in the image allow-list.
    UnsupportedFormat,
}

impl UploadError {
    /// A short diagnostic label for this failure kind.
    pub fn describe(&self) -> (r: &'static str) {
        match self {
            UploadError::TooLarge => "image size too large",
            UploadError::UnsupportedFormat => "unsupported image format",
        }
    }
}

} // verus!
