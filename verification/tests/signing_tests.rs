//! Request signing and response verification against a real RSA key pair.

use rsa::pkcs8::{EncodePrivateKey, EncodePublicKey};
use rsa::BigUint;
use wechatpay::canonical::build_request_message;
use wechatpay::client::ResponseRejection;
use wechatpay::errors::VerifyError;
use wechatpay::keys::KeyMaterial;
use wechatpay::platform_certificate::{CertificateStore, PlatformCertificate};
use wechatpay::signer::{signing_round_trip, u64_to_dec};
use wechatpay::verification::VerificationInput;

const N_HEX: &str = "a54db7b847bf46a295923f005630800e6e49da3503af07f8a97ec476e9e085e9e8ffeb039ffcfb3db54a77429e60d30965de3e653f3a521a863fece7c0b66950247411acde33895226a363a78974be2cc800659c7d4170b90fa650fbf38100f504ae385fa129eb02b83fa52611f07b76f7204b5e216824d26c9f9e06bc54f4a4dcf15d6461d0fe151bb92818b1eab7e27255197f5dc1af6d9ba3f2d326c66d64dc4113f4cd1aea28487c0f06acf0667bb2f9fef2c0b307ed1a7d8ac29f0f3bd73ffad188762b3685f7dad195da2a356db51052f3c2ac25aa60817af45a46caeb2198d17fbebb36856405ad8f92f102161b7871425adaf50693d3c86c7ebc48e5";
const P_HEX: &str = "da70def49829471c4c998f798feeeb736ffc68b651434c35554bfe1dd0c4c9abb33a6db287daca5eca7c827c8228cc5d68864f14291b0499f5bdc019ecc8ac0da0760783608608b8ff83205bca2a78c22594ec94819fe71d446b42aa8e203bc1b44e871582b74407feac6659477c77989454758aa3a5e57e2ddb0af95fe72f73";
const Q_HEX: &str = "c1b9e5c6fc982d04fcfc403883b447b05822e760e8b7b04cc049931c25b7ca615b0f29712d902689c6b7f41abeb36dd2a0b1e1b5ed229d9c2929bed380ed7cbb6a42974514cc285c99e3e24234869b00258a89339f432a3e576c671072834d05f450a74974bc8f5e90064a402651306c48c543d7878c2b6e6326ebf312216047";
const D_HEX: &str = "95839711e22b3aeb6197f6ce0a27321c5b5b0737fe4df94acb9bf27d900ad974f99f48656df6f714187ef321d978c048f6cfaee60aeb6849bf75e084ba05037a4e8e81523764abe717359fb4709a9c4c8ad5f9123324d69d3c6f753e7e4007aa9682325124c7725e726276b0d9770765521eeeac8450db454ca48edd8ec8d4c1389ca885bd7c398dc45adde16b764ab5dde46a787c2b83b78df84204b9ed81dd6e59549716f2bee207978563fa80c093eb46757ec8b708ba1a12dc3f07b4868cca5546ebed985dd806467f44264a08cf2f328209adfadf1863bf2993d2e4dcb492fe50b31c2c109659e307146800f2bd38099a0cf76eae6a6c74752679d6b13d";

fn test_private_key() -> rsa::RsaPrivateKey {
    let n = BigUint::parse_bytes(N_HEX.as_bytes(), 16).unwrap();
    let e = BigUint::from(65537u32);
    let d = BigUint::parse_bytes(D_HEX.as_bytes(), 16).unwrap();
    let p = BigUint::parse_bytes(P_HEX.as_bytes(), 16).unwrap();
    let q = BigUint::parse_bytes(Q_HEX.as_bytes(), 16).unwrap();
    rsa::RsaPrivateKey::from_components(n, e, d, vec![p, q]).unwrap()
}

fn test_private_der() -> Vec<u8> {
    test_private_key().to_pkcs8_der().unwrap().as_bytes().to_vec()
}

fn test_public_der() -> Vec<u8> {
    test_private_key()
        .to_public_key()
        .to_public_key_der()
        .unwrap()
        .as_bytes()
        .to_vec()
}

fn test_key_material() -> KeyMaterial {
    KeyMaterial::new(
        b"1900000109".to_vec(),
        b"ABCDEF".to_vec(),
        test_private_der(),
        vec![7u8; 32],
    )
    .unwrap()
}

fn test_store() -> CertificateStore {
    CertificateStore::new(vec![PlatformCertificate {
        public_id: b"ABCDEF".to_vec(),
        public_key_der: test_public_der(),
    }])
    .unwrap()
}

/// Signs a canonical response message with the test key and returns the
/// base64 signature text.
fn sign_response(timestamp: &[u8], nonce: &[u8], body: &[u8]) -> Vec<u8> {
    let mut message = Vec::new();
    message.extend_from_slice(timestamp);
    message.push(b'\n');
    message.extend_from_slice(nonce);
    message.push(b'\n');
    message.extend_from_slice(body);
    message.push(b'\n');
    let sk = rsa::pkcs1v15::SigningKey::<sha2::Sha256>::new(test_private_key());
    let sig = rsa::signature::Signer::try_sign(&sk, &message).unwrap();
    let raw = rsa::signature::SignatureEncoding::to_vec(&sig);
    base64::Engine::encode(&base64::engine::general_purpose::STANDARD, raw).into_bytes()
}

fn valid_input() -> VerificationInput {
    let timestamp = b"1700000000".to_vec();
    let nonce = b"abc123".to_vec();
    let body = b"{\"ok\":true}".to_vec();
    let signature = sign_response(&timestamp, &nonce, &body);
    VerificationInput {
        timestamp: Some(timestamp),
        nonce: Some(nonce),
        serial_no: Some(b"ABCDEF".to_vec()),
        signature: Some(signature),
        body,
    }
}

#[test]
fn canonical_signing_string_is_exact() {
    let ts = u64_to_dec(1700000000);
    let msg = build_request_message(
        b"GET",
        b"/v3/pay/transactions/id/123",
        &ts,
        b"abc123...",
        b"",
    );
    assert_eq!(
        msg,
        b"GET\n/v3/pay/transactions/id/123\n1700000000\nabc123...\n\n".to_vec()
    );
}

#[test]
fn u64_decimal_encoding_is_exact() {
    assert_eq!(u64_to_dec(0), b"0".to_vec());
    assert_eq!(u64_to_dec(7), b"7".to_vec());
    assert_eq!(u64_to_dec(1700000000), b"1700000000".to_vec());
    assert_eq!(
        u64_to_dec(u64::MAX),
        b"18446744073709551615".to_vec()
    );
}

#[test]
fn signing_is_deterministic_and_verifies() {
    let km = test_key_material();
    let header1 = km
        .sign_request(b"GET", b"/v3/pay/transactions/id/123", 1700000000, b"abc123...", b"")
        .unwrap();
    let header2 = km
        .sign_request(b"GET", b"/v3/pay/transactions/id/123", 1700000000, b"abc123...", b"")
        .unwrap();
    assert_eq!(header1, header2);
    let text = String::from_utf8(header1).unwrap();

    // An independent signing of the same canonical string gives the same
    // signature, so the whole header is reproducible bit for bit.
    let msg = b"GET\n/v3/pay/transactions/id/123\n1700000000\nabc123...\n\n";
    let sk = rsa::pkcs1v15::SigningKey::<sha2::Sha256>::new(test_private_key());
    let sig = rsa::signature::Signer::try_sign(&sk, msg).unwrap();
    let raw = rsa::signature::SignatureEncoding::to_vec(&sig);
    let sig_b64 =
        base64::Engine::encode(&base64::engine::general_purpose::STANDARD, &raw);
    let expected = format!(
        "WECHATPAY2-SHA256-RSA2048 mchid=\"1900000109\",nonce_str=\"abc123...\",signature=\"{}\",timestamp=\"1700000000\",serial_no=\"ABCDEF\"",
        sig_b64
    );
    assert_eq!(text, expected);

    // And that signature verifies over the exact canonical string.
    let vk = rsa::pkcs1v15::VerifyingKey::<sha2::Sha256>::new(test_private_key().to_public_key());
    let sig = rsa::pkcs1v15::Signature::try_from(raw.as_slice()).unwrap();
    rsa::signature::Verifier::verify(&vk, msg, &sig).unwrap();
}

#[test]
fn sign_then_verify_round_trip() {
    let der = test_private_der();
    assert_eq!(signing_round_trip(&der, b"canonical message\n"), Some(true));
    assert_eq!(signing_round_trip(b"not a key", b"canonical message\n"), None);
}

#[test]
fn sign_with_corrupt_key_fails() {
    let km = KeyMaterial::new(
        b"1900000109".to_vec(),
        b"ABCDEF".to_vec(),
        vec![1, 2, 3],
        vec![7u8; 32],
    )
    .unwrap();
    assert_eq!(
        km.sign_request(b"GET", b"/a", 1, b"n", b""),
        Err(wechatpay::errors::SignError::InvalidKey)
    );
}

#[test]
fn response_verification_accepts_authentic_message() {
    let store = test_store();
    assert_eq!(store.verify_message(&valid_input()), Ok(()));
}

#[test]
fn tampered_body_is_rejected() {
    let store = test_store();
    let mut input = valid_input();
    input.body[0] ^= 0x01;
    assert_eq!(
        store.verify_message(&input),
        Err(VerifyError::SignatureMismatch)
    );
}

#[test]
fn tampered_timestamp_is_rejected() {
    let store = test_store();
    let mut input = valid_input();
    input.timestamp.as_mut().unwrap()[3] ^= 0x02;
    assert_eq!(
        store.verify_message(&input),
        Err(VerifyError::SignatureMismatch)
    );
}

#[test]
fn tampered_nonce_is_rejected() {
    let store = test_store();
    let mut input = valid_input();
    let nonce = input.nonce.as_mut().unwrap();
    let last = nonce.len() - 1;
    nonce[last] ^= 0x04;
    assert_eq!(
        store.verify_message(&input),
        Err(VerifyError::SignatureMismatch)
    );
}

#[test]
fn each_missing_header_is_distinct() {
    let store = test_store();
    let mut input = valid_input();
    input.signature = None;
    assert_eq!(
        store.verify_message(&input),
        Err(VerifyError::MissingSignature)
    );
    let mut input = valid_input();
    input.timestamp = None;
    assert_eq!(
        store.verify_message(&input),
        Err(VerifyError::MissingTimestamp)
    );
    let mut input = valid_input();
    input.nonce = None;
    assert_eq!(store.verify_message(&input), Err(VerifyError::MissingNonce));
    let mut input = valid_input();
    input.serial_no = None;
    assert_eq!(store.verify_message(&input), Err(VerifyError::MissingSerial));
}

#[test]
fn malformed_signature_is_distinct() {
    let store = test_store();
    let mut input = valid_input();
    input.signature = Some(b"%%%not-base64%%%".to_vec());
    assert_eq!(
        store.verify_message(&input),
        Err(VerifyError::MalformedSignature)
    );
}

#[test]
fn unknown_certificate_is_distinct() {
    let store = CertificateStore::new(vec![PlatformCertificate {
        public_id: b"OTHER".to_vec(),
        public_key_der: test_public_der(),
    }])
    .unwrap();
    assert_eq!(
        store.verify_message(&valid_input()),
        Err(VerifyError::UnknownCertificate)
    );
}

#[test]
fn unknown_certificate_wins_over_malformed_signature() {
    // The key is looked up before the signature is decoded, so an unknown
    // serial is reported even when the signature is not base64.
    let store = test_store();
    let mut input = valid_input();
    input.serial_no = Some(b"NOBODY".to_vec());
    input.signature = Some(b"%%%not-base64%%%".to_vec());
    assert_eq!(
        store.verify_message(&input),
        Err(VerifyError::UnknownCertificate)
    );
}

#[test]
fn non_success_status_diverts_to_api_error() {
    let store = test_store();
    let input = valid_input();
    assert_eq!(
        store.accept_response(404, &input),
        Err(ResponseRejection::ApiError)
    );
    assert_eq!(
        store.accept_response(500, &input),
        Err(ResponseRejection::ApiError)
    );
    assert_eq!(store.accept_response(200, &input), Ok(()));
    assert_eq!(store.accept_response(204, &input), Ok(()));
}

#[test]
fn success_status_with_tamper_is_rejected() {
    let store = test_store();
    let mut input = valid_input();
    input.body[0] ^= 0xff;
    assert_eq!(
        store.accept_response(200, &input),
        Err(ResponseRejection::Rejected(VerifyError::SignatureMismatch))
    );
}
