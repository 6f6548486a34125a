//! Client-side security layer for a payment provider's signed REST API.
//!
//! Outbound requests carry an Authorization header built over a canonical
//! signing string and an RSA signature; inbound responses and webhook
//! notifications are authenticated against a store of provider-issued
//! certificates before their contents are trusted; notification payloads are
//! decrypted with an authenticated cipher and dispatched by type tag; and
//! individual sensitive fields are encrypted for transmission.
//!
//! Every cryptographic operation here is a synchronous, pure function over
//! immutable inputs, so a client built on this layer may be shared freely
//! across concurrent callers; the transport around it is the caller's.

pub mod b64;
pub mod canonical;
pub mod client;
pub mod crypto;
pub mod errors;
pub mod keys;
pub mod notify;
pub mod partner;
pub mod platform_certificate;
pub mod signer;
pub mod upload;
pub mod verification;
