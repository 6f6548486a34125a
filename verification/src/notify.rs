//! Webhook notifications: envelope, authenticated decryption, and dispatch.
//!
//! A notification body carries an encrypted resource. After the request
//! itself has been authenticated (see `verification`), the resource is
//! decrypted with AES-256-GCM under the merchant's notification key —
//! decrypt-then-parse — and dispatched into a typed event by its original
//! type tag. An unsupported algorithm tag, a tampered ciphertext and an
//! unknown type tag are three distinct refusals; an unknown tag is never
//! guessed at.

use crate::b64::b64_decode;
use crate::b64::b64_decode_bytes;
use crate::crypto::aead_open;
use crate::crypto::aes256_gcm_open;
use crate::crypto::aes256_gcm_seal;
use crate::crypto::GCM_LENGTH_LIMIT;
use crate::errors::NotifyError;
use crate::keys::KeyMaterial;
use vstd::prelude::*;

verus! {

/// The single supported AEAD identifier. Any other `algorithm` value is a
/// hard failure, never a silent pass-through.
pub open spec fn supported_algorithm() -> Seq<char> {
    "AEAD_AES_256_GCM"@
}

/// The notification envelope, as its JSON body carries it.
pub struct WechatPayNotification {
    /// Unique id of the notification.
    pub id: String,
    /// When the notification was created (ISO-8601 text with offset).
    pub create_time: String,
    /// The event type, such as a payment or refund result.
    pub event_type: String,
    /// The resource data type tag of the envelope.
    pub resource_type: String,
    /// The encrypted resource data.
    pub resource: NotificationResourse,
    /// A short human-readable summary.
    pub summary: String,
}

/// The encrypted resource inside a notification envelope.
pub struct NotificationResourse {
    /// The AEAD algorithm tag; only one value is supported.
    pub algorithm: String,
    /// The ciphertext, base64 encoded.
    pub ciphertext: String,
    /// The associated data authenticated alongside the ciphertext.
    pub associated_data: String,
    /// The original type tag that selects the event kind.
    pub original_type: String,
    /// The initialization vector for the AEAD.
    pub nonce: String,
}

/// Decrypted payload of a refund notification in direct-merchant mode.
pub struct RefundNotifyResponse {
    /// The merchant id the order was placed under.
    pub mchid: String,
    /// The merchant's trade number.
    pub out_trade_no: String,
    /// The provider's transaction id.
    pub transaction_id: String,
    /// The merchant's refund number.
    pub out_refund_no: String,
    /// The provider's refund id.
    pub refund_id: String,
    /// The account the refund went to.
    pub user_received_account: String,
    /// When the refund succeeded (ISO-8601 text with offset), when it did.
    pub success_time: Option<String>,
    /// Refund status.
    pub refund_status: String,
    /// Amounts of the refund.
    pub amount: RefundNotifyAmount,
}

/// Amounts of a refund notification.
pub struct RefundNotifyAmount {
    /// Original order amount, in cents.
    pub total: i32,
    /// Refund amount, in cents.
    pub refund: i32,
    /// What the payer originally paid, in cents.
    pub payer_total: i32,
    /// What the payer gets back, in cents.
    pub payer_refund: i32,
}

/// The kind of business event a notification's original type tag selects.
#[derive(Debug, Clone, Copy, PartialEq, Eq, Structural)]
pub enum NotificationKind {
    /// A payment result (original type "transaction").
    Trade,
    /// A refund result (original type "refund").
    Refund,
    /// A profit-sharing result (original type "profitsharing").
    ProfitShare,
}

/// A decrypted notification event: the plaintext payload of the resource,
/// tagged by the kind its original type selected. Parsing the payload JSON
/// into business data is the caller's concern; the tag dispatch is not.
#[derive(Debug, Clone, PartialEq, Eq)]
pub enum NotificationEvent {
    /// A payment result.
    Trade(Vec<u8>),
    /// A refund result.
    Refund(Vec<u8>),
    /// A profit-sharing result.
    ProfitShare(Vec<u8>),
}

impl NotificationEvent {
    /// The kind tag of this event.
    pub open spec fn kind(&self) -> NotificationKind {
        match self {
            NotificationEvent::Trade(_) => NotificationKind::Trade,
            NotificationEvent::Refund(_) => NotificationKind::Refund,
            NotificationEvent::ProfitShare(_) => NotificationKind::ProfitShare,
        }
    }

    /// The plaintext payload of this event.
    pub open spec fn payload(&self) -> Seq<u8> {
        match self {
            NotificationEvent::Trade(p) => p@,
            NotificationEvent::Refund(p) => p@,
            NotificationEvent::ProfitShare(p) => p@,
        }
    }
}

/// The event kind an original type tag selects, if any. New kinds are
/// additive; a tag outside this map is a schema error, never a default.
pub open spec fn kind_for_tag(tag: Seq<char>) -> Option<NotificationKind> {
    if tag == "transaction"@ {
        Some(NotificationKind::Trade)
    } else if tag == "refund"@ {
        Some(NotificationKind::Refund)
    } else if tag == "profitsharing"@ {
        Some(NotificationKind::ProfitShare)
    } else {
        None
    }
}

/// What decryption of a notification resource must return, as a function of
/// the notification key and the resource's five fields: the event kind and
/// plaintext on success, the exact refusal otherwise.
pub open spec fn decrypt_result(
    key: Seq<u8>,
    algorithm: Seq<char>,
    ciphertext: Seq<char>,
    associated_data: Seq<char>,
    nonce: Seq<char>,
    original_type: Seq<char>,
) -> Result<(NotificationKind, Seq<u8>), NotifyError> {
    let nonce_bytes = vstd::utf8::encode_utf8(nonce);
    let aad_bytes = vstd::utf8::encode_utf8(associated_data);
    let ciphertext_bytes = vstd::utf8::encode_utf8(ciphertext);
    if algorithm != supported_algorithm() {
        Err(NotifyError::UnsupportedAlgorithm)
    } else if b64_decode_bytes(ciphertext_bytes) is None {
        Err(NotifyError::MalformedCiphertext)
    } else if nonce_bytes.len() != 12 {
        Err(NotifyError::MalformedNonce)
    } else {
        match aead_open(key, nonce_bytes, aad_bytes, b64_decode_bytes(ciphertext_bytes)->0) {
            None => Err(NotifyError::AuthenticationFailed),
            Some(plain) => match kind_for_tag(original_type) {
                Some(kind) => Ok((kind, plain)),
                None => Err(NotifyError::UnknownNotificationType),
            },
        }
    }
}

impl KeyMaterial {
    /// Decrypts a notification's encrypted resource into a typed event:
    /// checks the algorithm tag, base64-decodes the ciphertext, opens it
    /// with AES-256-GCM under the notification key (nonce as initialization
    /// vector, associated data authenticated), and dispatches on the
    /// original type tag. Never guesses a type for an unrecognized tag.
    pub fn decrypt_resource(&self, resource: &NotificationResourse) -> (r: Result<
        NotificationEvent,
        NotifyError,
    >)
        requires
            self.wf(),
        ensures
            ({
                let expected = decrypt_result(
                    self.notification_key@,
                    resource.algorithm@,
                    resource.ciphertext@,
                    resource.associated_data@,
                    resource.nonce@,
                    resource.original_type@,
                );
                match r {
                    Ok(ev) => expected matches Ok(ks) && ev.kind() == ks.0 && ev.payload() == ks.1,
                    Err(e) => expected == Err::<(NotificationKind, Seq<u8>), NotifyError>(e),
                }
            }),
    {
        if !strings_equal(&resource.algorithm, "AEAD_AES_256_GCM") {
            return Err(NotifyError::UnsupportedAlgorithm);
        }
        let raw = match b64_decode(resource.ciphertext.as_str().as_bytes()) {
            Some(raw) => raw,
            None => { return Err(NotifyError::MalformedCiphertext) },
        };
        let nonce_bytes = resource.nonce.as_str().as_bytes();
        if nonce_bytes.len() != 12 {
            return Err(NotifyError::MalformedNonce);
        }
        let plain = match aes256_gcm_open(
            self.notification_key.as_slice(),
            nonce_bytes,
            resource.associated_data.as_str().as_bytes(),
            raw.as_slice(),
        ) {
            Some(p) => p,
            None => { return Err(NotifyError::AuthenticationFailed) },
        };
        if strings_equal(&resource.original_type, "transaction") {
            Ok(NotificationEvent::Trade(plain))
        } else if strings_equal(&resource.original_type, "refund") {
            Ok(NotificationEvent::Refund(plain))
        } else if strings_equal(&resource.original_type, "profitsharing") {
            Ok(NotificationEvent::ProfitShare(plain))
        } else {
            Err(NotifyError::UnknownNotificationType)
        }
    }

    /// Decrypts a whole notification envelope's resource; see
    /// `decrypt_resource` for what is checked and returned.
    pub fn decrypt_notification(&self, noti: &WechatPayNotification) -> (r: Result<
        NotificationEvent,
        NotifyError,
    >)
        requires
            self.wf(),
        ensures
            ({
                let expected = decrypt_result(
                    self.notification_key@,
                    noti.resource.algorithm@,
                    noti.resource.ciphertext@,
                    noti.resource.associated_data@,
                    noti.resource.nonce@,
                    noti.resource.original_type@,
                );
                match r {
                    Ok(ev) => expected matches Ok(ks) && ev.kind() == ks.0 && ev.payload() == ks.1,
                    Err(e) => expected == Err::<(NotificationKind, Seq<u8>), NotifyError>(e),
                }
            }),
    {
        self.decrypt_resource(&noti.resource)
    }
}

/// AEAD round trip: sealing a plaintext with a key, nonce and associated
/// data and then opening the result with the same three gives back exactly
/// the plaintext — for every plaintext within the cipher's length limit.
pub fn aead_round_trip(key: &[u8], nonce: &[u8], associated_data: &[u8], plain: &[u8]) -> (r: Vec<
    u8,
>)
    requires
        key@.len() == 32,
        nonce@.len() == 12,
        plain@.len() <= GCM_LENGTH_LIMIT,
        associated_data@.len() <= GCM_LENGTH_LIMIT,
    ensures
        r@ == plain@,
{
    let sealed = aes256_gcm_seal(key, nonce, associated_data, plain);
    let opened = aes256_gcm_open(key, nonce, associated_data, sealed.as_slice());
    opened.unwrap()
}

/// Whether a string equals an expected one, compared through their UTF-8
/// bytes; the encoding is injective, so byte equality decides it.
fn strings_equal(s: &String, expected: &str) -> (r: bool)
    ensures
        r == (s@ == expected@),
{
    let r = crate::platform_certificate::bytes_eq(s.as_str().as_bytes(), expected.as_bytes());
    proof {
        vstd::utf8::encode_utf8_decode_utf8(s@);
        vstd::utf8::encode_utf8_decode_utf8(expected@);
    }
    r
}

} // verus!
