//! The client's decision logic around one request/response exchange.
//!
//! The transport signs and sends a request, then hands the response's
//! status, signature headers and body back here. A non-2xx status is
//! diverted to structured API-error parsing before any verification is
//! attempted — provider error bodies are not guaranteed to carry signature
//! headers — and a success response is accepted only after its signature
//! verifies against the certificate store.

use crate::errors::VerifyError;
use crate::platform_certificate::CertificateStore;
use crate::verification::header_bytes;
use crate::verification::verification_result;
use crate::verification::VerificationInput;
use vstd::prelude::*;

verus! {

/// The header names the provider's protocol fixes for response and
/// notification verification, and the Accept header every request carries.
pub const HEADER_SIGNATURE: &'static str = "Wechatpay-Signature";

/// The timestamp header's name.
pub const HEADER_TIMESTAMP: &'static str = "Wechatpay-Timestamp";

/// The nonce header's name.
pub const HEADER_NONCE: &'static str = "Wechatpay-Nonce";

/// The certificate-serial header's name.
pub const HEADER_SERIAL: &'static str = "Wechatpay-Serial";

/// The value of the Accept header set on every outbound request.
pub const ACCEPT_JSON: &'static str = "application/json";

/// Why a received response is not handed back to business code.
#[derive(Debug, Clone, Copy, PartialEq, Eq, Structural)]
pub enum ResponseRejection {
    /// The status was not a success: the body is a structured API error for
    /// the caller to parse; verification was not attempted.
    ApiError,
    /// The status was a success but the response failed verification.
    Rejected(VerifyError),
}

/// What the client must do with a received response: divert non-2xx
/// statuses to API-error parsing, verify everything else.
pub open spec fn response_disposition(
    store: Map<Seq<u8>, Seq<u8>>,
    status: u16,
    timestamp: Option<Seq<u8>>,
    nonce: Option<Seq<u8>>,
    serial_no: Option<Seq<u8>>,
    signature: Option<Seq<u8>>,
    body: Seq<u8>,
) -> Result<(), ResponseRejection> {
    if !(200 <= status < 300) {
        Err(ResponseRejection::ApiError)
    } else {
        match verification_result(store, timestamp, nonce, serial_no, signature, body) {
            Ok(()) => Ok(()),
            Err(e) => Err(ResponseRejection::Rejected(e)),
        }
    }
}

impl CertificateStore {
    /// Decides whether a received response may be trusted: a non-2xx status
    /// is an API error whose body the caller parses instead of verifying; a
    /// success status is verified against this store and accepted only on
    /// success.
    pub fn accept_response(&self, status: u16, input: &VerificationInput) -> (r: Result<
        (),
        ResponseRejection,
    >)
        ensures
            r == response_disposition(
                self@,
                status,
                header_bytes(input.timestamp),
                header_bytes(input.nonce),
                header_bytes(input.serial_no),
                header_bytes(input.signature),
                input.body@,
            ),
    {
        if status < 200 || status >= 300 {
            return Err(ResponseRejection::ApiError);
        }
        match self.verify_message(input) {
            Ok(()) => Ok(()),
            Err(e) => Err(ResponseRejection::Rejected(e)),
        }
    }
}

} // verus!
