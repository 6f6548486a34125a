//! Outbound request signing.
//!
//! Builds the canonical signing string for an outbound request, signs it
//! with the merchant private key, and assembles the Authorization header
//! value the provider expects — scheme token, then comma-separated
//! key="value" pairs for merchant id, nonce, signature, timestamp and
//! certificate serial, bit-for-bit.

use crate::b64::b64_encode;
use crate::b64::b64_encode_bytes;
use crate::canonical::build_request_message;
use crate::canonical::request_message;
use crate::canonical::txt;
use crate::crypto::rsa_public_der;
use crate::crypto::rsa_public_key_accepted;
use crate::crypto::rsa_public_key_der;
use crate::crypto::rsa_public_key_usable;
use crate::crypto::rsa_sign_pkcs1v15_sha256;
use crate::crypto::rsa_sign_sha256;
use crate::crypto::rsa_verify_pkcs1v15_sha256;
use crate::errors::SignError;
use crate::keys::KeyMaterial;
use vstd::prelude::*;

verus! {

/// The ASCII decimal digits of a number, most significant first.
pub open spec fn dec_bytes(n: nat) -> Seq<u8>
    decreases n,
{
    if n < 10 {
        seq![(48 + n) as u8]
    } else {
        dec_bytes(n / 10) + seq![(48 + n % 10) as u8]
    }
}

/// Writes the decimal digits of `n` onto the end of `out`.
fn push_dec(n: u64, out: &mut Vec<u8>)
    ensures
        final (out)@ == old(out)@ + dec_bytes(n as nat),
    decreases n,
{
    if n < 10 {
        out.push(48 + n as u8);
        proof {
            assert(out@ =~= old(out)@ + dec_bytes(n as nat));
        }
    } else {
        push_dec(n / 10, out);
        out.push(48 + (n % 10) as u8);
        proof {
            assert(out@ =~= old(out)@ + dec_bytes(n as nat));
        }
    }
}

/// The ASCII decimal representation of a number.
pub fn u64_to_dec(n: u64) -> (r: Vec<u8>)
    ensures
        r@ == dec_bytes(n as nat),
{
    let mut out: Vec<u8> = Vec::new();
    push_dec(n, &mut out);
    out
}

/// Draws a fresh request nonce: 32 ASCII letters and digits from a
/// cryptographically strong source, never reused across calls. Such a nonce
/// holds no newline, so it occupies exactly one line of a canonical message.
pub fn new_nonce() -> (r: Vec<u8>)
    ensures
        r@.len() == 32,
        forall|i: int| 0 <= i < r@.len() ==> crate::crypto::is_ascii_alnum_byte(r@[i]),
        crate::canonical::line_free(r@),
{
    let nonce = crate::crypto::random_nonce();
    proof {
        assert(crate::canonical::line_free(nonce@));
    }
    nonce
}

/// The exact Authorization header value for an outbound request: the scheme
/// token, then the merchant id, nonce, base64 signature, timestamp and
/// certificate serial number as key="value" pairs. Field names and order are
/// fixed by the provider's protocol.
pub open spec fn auth_header(
    merchant_id: Seq<u8>,
    nonce: Seq<u8>,
    signature_b64: Seq<u8>,
    timestamp: Seq<u8>,
    serial_no: Seq<u8>,
) -> Seq<u8> {
    txt("WECHATPAY2-SHA256-RSA2048 mchid=\""@) + merchant_id + txt("\",nonce_str=\""@) + nonce
        + txt("\",signature=\""@) + signature_b64 + txt("\",timestamp=\""@) + timestamp + txt(
        "\",serial_no=\""@,
    ) + serial_no + txt("\""@)
}

impl KeyMaterial {
    /// Signs one outbound request: builds the five-line canonical signing
    /// string from method, path with query, timestamp, nonce and body,
    /// signs it with the merchant private key, and returns the complete
    /// Authorization header value. Fails only on key-material corruption,
    /// which is fatal and never retried.
    pub fn sign_request(
        &self,
        method: &[u8],
        path: &[u8],
        timestamp: u64,
        nonce: &[u8],
        body: &[u8],
    ) -> (r: Result<Vec<u8>, SignError>)
        ensures
            r is Ok <==> rsa_sign_sha256(
                self.private_key_der@,
                request_message(method@, path@, dec_bytes(timestamp as nat), nonce@, body@),
            ) is Some,
            r matches Ok(h) ==> rsa_sign_sha256(
                self.private_key_der@,
                request_message(method@, path@, dec_bytes(timestamp as nat), nonce@, body@),
            ) matches Some(sig) && h@ == auth_header(
                self.merchant_id@,
                nonce@,
                b64_encode_bytes(sig),
                dec_bytes(timestamp as nat),
                self.serial_no@,
            ),
            r is Err ==> r == Err::<Vec<u8>, SignError>(SignError::InvalidKey),
    {
        let timestamp_dec = u64_to_dec(timestamp);
        let message = build_request_message(method, path, timestamp_dec.as_slice(), nonce, body);
        let signature = match rsa_sign_pkcs1v15_sha256(
            self.private_key_der.as_slice(),
            message.as_slice(),
        ) {
            Some(s) => s,
            None => { return Err(SignError::InvalidKey) },
        };
        let signature_b64 = b64_encode(signature.as_slice());
        let mut header: Vec<u8> = Vec::new();
        header.extend_from_slice("WECHATPAY2-SHA256-RSA2048 mchid=\"".as_bytes());
        header.extend_from_slice(self.merchant_id.as_slice());
        header.extend_from_slice("\",nonce_str=\"".as_bytes());
        header.extend_from_slice(nonce);
        header.extend_from_slice("\",signature=\"".as_bytes());
        header.extend_from_slice(signature_b64.as_slice());
        header.extend_from_slice("\",timestamp=\"".as_bytes());
        header.extend_from_slice(timestamp_dec.as_slice());
        header.extend_from_slice("\",serial_no=\"".as_bytes());
        header.extend_from_slice(self.serial_no.as_slice());
        header.extend_from_slice("\"".as_bytes());
        proof {
            assert(header@ =~= auth_header(
                self.merchant_id@,
                nonce@,
                signature_b64@,
                dec_bytes(timestamp as nat),
                self.serial_no@,
            ));
        }
        Ok(header)
    }
}

/// Round-trip signing: whenever the private key signs and the verifier
/// accepts its public half, verifying the signature under that derived
/// public key succeeds — for every message, not just the ones a test
/// happens to pick. (The signer takes moduli beyond the verifier's size
/// cap; for such a key the public half is refused and no round trip is
/// claimed.)
pub fn signing_round_trip(private_key_der: &[u8], message: &[u8]) -> (r: Option<bool>)
    ensures
        r is Some <==> (rsa_sign_sha256(private_key_der@, message@) is Some && rsa_public_der(
            private_key_der@,
        ) is Some && rsa_public_key_usable(rsa_public_der(private_key_der@)->0)),
        r matches Some(ok) ==> ok == true,
{
    let signature = match rsa_sign_pkcs1v15_sha256(private_key_der, message) {
        Some(s) => s,
        None => { return None },
    };
    let public_key_der = match rsa_public_key_der(private_key_der) {
        Some(d) => d,
        None => { return None },
    };
    if !rsa_public_key_accepted(public_key_der.as_slice()) {
        return None;
    }
    Some(rsa_verify_pkcs1v15_sha256(
        public_key_der.as_slice(),
        message,
        signature.as_slice(),
    ))
}

} // verus!
