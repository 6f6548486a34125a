//! Trusted boundary to the cryptographic crates.
//!
//! Each wrapper makes exactly one outside computation available to the
//! verified code and states its contract over named results: the signature,
//! digest and ciphertext functions are far too large to write out, so each is
//! given a name and the library's own contracts are exact in terms of those
//! names. Keys are identified by their DER encodings, so every name is a
//! function of plain byte sequences alone.

use rsa::pkcs8::DecodePrivateKey;
use rsa::pkcs8::DecodePublicKey;
use vstd::prelude::*;

verus! {

/// The RSASSA-PKCS1-v1_5/SHA-256 signature that the rsa crate produces for a
/// message under the private key with the given PKCS#8 DER encoding, or
/// `None` if the encoding does not parse. The scheme is deterministic, so
/// this is a function of the two arguments alone.
pub uninterp spec fn rsa_sign_sha256(sk_der: Seq<u8>, msg: Seq<u8>) -> Option<Seq<u8>>;

/// Whether the rsa crate accepts `sig` as an RSASSA-PKCS1-v1_5/SHA-256
/// signature of `msg` under the public key with the given SPKI DER encoding.
/// An encoding that does not parse accepts nothing.
pub uninterp spec fn rsa_verify_sha256(pk_der: Seq<u8>, msg: Seq<u8>, sig: Seq<u8>) -> bool;

/// The SPKI DER encoding of the public key matching the private key with the
/// given PKCS#8 DER encoding, or `None` if that encoding does not parse.
pub uninterp spec fn rsa_public_der(sk_der: Seq<u8>) -> Option<Seq<u8>>;

/// Whether the rsa crate's SPKI decoder accepts a public-key encoding. The
/// verification path enforces a modulus size cap that the private-key parse
/// path does not, so signing can succeed under a key whose public half this
/// refuses.
pub uninterp spec fn rsa_public_key_usable(pk_der: Seq<u8>) -> bool;

/// The AES-256-GCM ciphertext (tag appended) for the given key, 96-bit nonce,
/// associated data and plaintext. The cipher is deterministic in all four.
pub uninterp spec fn aead_seal(key: Seq<u8>, nonce: Seq<u8>, aad: Seq<u8>, plain: Seq<u8>) -> Seq<
    u8,
>;

/// What AES-256-GCM decryption makes of a ciphertext for the given key,
/// 96-bit nonce and associated data: `Some` plaintext when the
/// authentication tag checks out, `None` otherwise.
pub uninterp spec fn aead_open(key: Seq<u8>, nonce: Seq<u8>, aad: Seq<u8>, cipher: Seq<u8>) -> Option<
    Seq<u8>,
>;

/// Whether the rsa crate's RSAES-OAEP/SHA-1 encryption accepts a plaintext
/// under the public key with the given SPKI DER encoding: the encoding must
/// parse and the plaintext must fit the key's modulus. Only the ciphertext
/// bytes are randomized; acceptance is a function of the two arguments
/// alone.
pub uninterp spec fn oaep_sha1_accepts(pk_der: Seq<u8>, data: Seq<u8>) -> bool;

/// The SHA-256 digest of a byte sequence.
pub uninterp spec fn sha256_digest(data: Seq<u8>) -> Seq<u8>;

/// The inclusive upper bound the AES-GCM implementation places on plaintext
/// and associated-data lengths.
pub const GCM_LENGTH_LIMIT: u64 = 68719476736;

/// Relies on rsa's `SigningKey::<Sha256>::try_sign` (RSASSA-PKCS1-v1_5),
/// with the key decoded from PKCS#8 DER. Signing is deterministic, and a
/// signature it produces verifies under the matching public key — provided
/// the verification path accepts that public key's encoding (the signer
/// takes moduli beyond the verifier's size cap).
#[verifier::external_body]
pub(crate) fn rsa_sign_pkcs1v15_sha256(sk_der: &[u8], msg: &[u8]) -> (r: Option<Vec<u8>>)
    ensures
        r is Some <==> rsa_sign_sha256(sk_der@, msg@) is Some,
        r matches Some(s) ==> rsa_sign_sha256(sk_der@, msg@) == Some(s@),
        r matches Some(s) ==> rsa_public_der(sk_der@) matches Some(pk) && (rsa_public_key_usable(
            pk,
        ) ==> rsa_verify_sha256(pk, msg@, s@)),
{
    let key = rsa::RsaPrivateKey::from_pkcs8_der(sk_der).ok()?;
    let sk = rsa::pkcs1v15::SigningKey::<sha2::Sha256>::new(key);
    let sig = rsa::signature::Signer::try_sign(&sk, msg).ok()?;
    Some(rsa::signature::SignatureEncoding::to_vec(&sig))
}

/// Relies on rsa's `VerifyingKey::<Sha256>::verify` (RSASSA-PKCS1-v1_5),
/// with the key decoded from SPKI DER; an unparsable key or signature
/// verifies nothing.
#[verifier::external_body]
pub(crate) fn rsa_verify_pkcs1v15_sha256(pk_der: &[u8], msg: &[u8], sig: &[u8]) -> (r: bool)
    ensures
        r == rsa_verify_sha256(pk_der@, msg@, sig@),
{
    let Ok(key) = rsa::RsaPublicKey::from_public_key_der(pk_der) else { return false };
    let vk = rsa::pkcs1v15::VerifyingKey::<sha2::Sha256>::new(key);
    let Ok(sig) = rsa::pkcs1v15::Signature::try_from(sig) else { return false };
    rsa::signature::Verifier::verify(&vk, msg, &sig).is_ok()
}

/// Relies on rsa's `RsaPrivateKey::to_public_key` and the SPKI DER encoder:
/// derives the public half of a PKCS#8-encoded private key.
#[verifier::external_body]
pub(crate) fn rsa_public_key_der(sk_der: &[u8]) -> (r: Option<Vec<u8>>)
    ensures
        r is Some <==> rsa_public_der(sk_der@) is Some,
        r matches Some(d) ==> rsa_public_der(sk_der@) == Some(d@),
{
    let key = rsa::RsaPrivateKey::from_pkcs8_der(sk_der).ok()?;
    let doc = rsa::pkcs8::EncodePublicKey::to_public_key_der(&key.to_public_key()).ok()?;
    Some(doc.as_bytes().to_vec())
}

/// Relies on rsa's SPKI decoding for `RsaPublicKey`: whether the encoding
/// would be accepted where verification parses it.
#[verifier::external_body]
pub(crate) fn rsa_public_key_accepted(pk_der: &[u8]) -> (r: bool)
    ensures
        r == rsa_public_key_usable(pk_der@),
{
    rsa::RsaPublicKey::from_public_key_der(pk_der).is_ok()
}

/// Relies on rsa's RSAES-OAEP encryption with SHA-1 as the OAEP hash, against
/// the public key decoded from SPKI DER. The padding is randomized, so
/// nothing is promised of the ciphertext bytes; but whether the call
/// succeeds is deterministic — it fails exactly when the key encoding is
/// rejected or the plaintext is too long for the key's modulus.
#[verifier::external_body]
pub(crate) fn rsa_oaep_sha1_encrypt(pk_der: &[u8], data: &[u8]) -> (r: Option<Vec<u8>>)
    ensures
        r is Some <==> oaep_sha1_accepts(pk_der@, data@),
{
    let key = rsa::RsaPublicKey::from_public_key_der(pk_der).ok()?;
    let mut rng = rand::thread_rng();
    key.encrypt(&mut rng, rsa::Oaep::new::<sha1::Sha1>(), data).ok()
}

/// Relies on aes-gcm's `Aes256Gcm` encryption: within the cipher's length
/// limits, sealing succeeds, is deterministic, and opens back to the
/// plaintext under the same key, nonce and associated data.
#[verifier::external_body]
pub(crate) fn aes256_gcm_seal(key: &[u8], nonce: &[u8], aad: &[u8], plain: &[u8]) -> (r: Vec<u8>)
    requires
        key@.len() == 32,
        nonce@.len() == 12,
        plain@.len() <= GCM_LENGTH_LIMIT,
        aad@.len() <= GCM_LENGTH_LIMIT,
    ensures
        r@ == aead_seal(key@, nonce@, aad@, plain@),
        aead_open(key@, nonce@, aad@, r@) == Some(plain@),
{
    let cipher = <aes_gcm::Aes256Gcm as aes_gcm::KeyInit>::new_from_slice(key).unwrap();
    let payload = aes_gcm::aead::Payload { msg: plain, aad };
    aes_gcm::aead::Aead::encrypt(&cipher, aes_gcm::Nonce::from_slice(nonce), payload).unwrap()
}

/// Relies on aes-gcm's `Aes256Gcm` decryption: authenticated decryption with
/// the nonce as initialization vector, failing on any tag mismatch.
#[verifier::external_body]
pub(crate) fn aes256_gcm_open(key: &[u8], nonce: &[u8], aad: &[u8], cipher: &[u8]) -> (r: Option<
    Vec<u8>,
>)
    requires
        key@.len() == 32,
        nonce@.len() == 12,
    ensures
        r is Some <==> aead_open(key@, nonce@, aad@, cipher@) is Some,
        r matches Some(p) ==> aead_open(key@, nonce@, aad@, cipher@) == Some(p@),
{
    let gcm = <aes_gcm::Aes256Gcm as aes_gcm::KeyInit>::new_from_slice(key).ok()?;
    let payload = aes_gcm::aead::Payload { msg: cipher, aad };
    aes_gcm::aead::Aead::decrypt(&gcm, aes_gcm::Nonce::from_slice(nonce), payload).ok()
}

/// Relies on sha2's `Sha256`: a 32-byte digest of the input.
#[verifier::external_body]
pub(crate) fn sha256(data: &[u8]) -> (r: Vec<u8>)
    ensures
        r@ == sha256_digest(data@),
        r@.len() == 32,
{
    let digest = <sha2::Sha256 as sha2::Digest>::digest(data);
    digest.to_vec()
}

/// Whether a byte is an ASCII letter or digit.
pub open spec fn is_ascii_alnum_byte(b: u8) -> bool {
    (48 <= b <= 57) || (65 <= b <= 90) || (97 <= b <= 122)
}

/// Relies on rand's `Alphanumeric` distribution over `thread_rng`: 32 bytes
/// sampled from the ASCII letters and digits. The result is random, so only
/// its length and alphabet are promised.
#[verifier::external_body]
pub(crate) fn random_nonce() -> (r: Vec<u8>)
    ensures
        r@.len() == 32,
        forall|i: int| 0 <= i < r@.len() ==> is_ascii_alnum_byte(r@[i]),
{
    rand::Rng::sample_iter(rand::thread_rng(), &rand::distributions::Alphanumeric).take(
        32,
    ).collect()
}

} // verus!
