//! Merchant key material.
//!
//! The immutable merchant identity: merchant id, certificate serial number,
//! RSA private key (held as its PKCS#8 DER encoding) and the 32-byte
//! symmetric notification key. Construction checks the symmetric key length
//! once; everything downstream relies on that well-formedness.

use crate::errors::KeyError;
use vstd::prelude::*;

verus! {

/// Immutable merchant identity and secrets. Owned exclusively by the client
/// and never mutated after construction.
pub struct KeyMaterial {
    /// The merchant id the provider issued (UTF-8 text).
    pub merchant_id: Vec<u8>,
    /// The serial number of the merchant's own certificate (UTF-8 text).
    pub serial_no: Vec<u8>,
    /// The merchant's RSA private key, PKCS#8 DER encoded.
    pub private_key_der: Vec<u8>,
    /// The 32-byte symmetric key that decrypts notification resources.
    pub notification_key: Vec<u8>,
}

impl KeyMaterial {
    /// Well-formedness: the notification key has the exact length
    /// AES-256-GCM requires.
    pub open spec fn wf(&self) -> bool {
        self.notification_key@.len() == 32
    }

    /// Builds key material, refusing a symmetric notification key that is
    /// not exactly 32 bytes.
    pub fn new(
        merchant_id: Vec<u8>,
        serial_no: Vec<u8>,
        private_key_der: Vec<u8>,
        notification_key: Vec<u8>,
    ) -> (r: Result<KeyMaterial, KeyError>)
        ensures
            r is Ok <==> notification_key@.len() == 32,
            r matches Ok(km) ==> km.wf() && km.merchant_id@ == merchant_id@ && km.serial_no@
                == serial_no@ && km.private_key_der@ == private_key_der@ && km.notification_key@
                == notification_key@,
            r is Err ==> r == Err::<KeyMaterial, KeyError>(KeyError::BadNotificationKeyLength),
    {
        if notification_key.len() != 32 {
            return Err(KeyError::BadNotificationKeyLength);
        }
        Ok(KeyMaterial { merchant_id, serial_no, private_key_der, notification_key })
    }
}

} // verus!
