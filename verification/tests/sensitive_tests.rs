//! Sensitive-field encryption: the ciphertext decodes and decrypts back to
//! the plaintext under the matching private key.

use rsa::pkcs8::EncodePublicKey;
use rsa::BigUint;
use wechatpay::platform_certificate::PlatformCertificate;

const N_HEX: &str = "a54db7b847bf46a295923f005630800e6e49da3503af07f8a97ec476e9e085e9e8ffeb039ffcfb3db54a77429e60d30965de3e653f3a521a863fece7c0b66950247411acde33895226a363a78974be2cc800659c7d4170b90fa650fbf38100f504ae385fa129eb02b83fa52611f07b76f7204b5e216824d26c9f9e06bc54f4a4dcf15d6461d0fe151bb92818b1eab7e27255197f5dc1af6d9ba3f2d326c66d64dc4113f4cd1aea28487c0f06acf0667bb2f9fef2c0b307ed1a7d8ac29f0f3bd73ffad188762b3685f7dad195da2a356db51052f3c2ac25aa60817af45a46caeb2198d17fbebb36856405ad8f92f102161b7871425adaf50693d3c86c7ebc48e5";
const P_HEX: &str = "da70def49829471c4c998f798feeeb736ffc68b651434c35554bfe1dd0c4c9abb33a6db287daca5eca7c827c8228cc5d68864f14291b0499f5bdc019ecc8ac0da0760783608608b8ff83205bca2a78c22594ec94819fe71d446b42aa8e203bc1b44e871582b74407feac6659477c77989454758aa3a5e57e2ddb0af95fe72f73";
const Q_HEX: &str = "c1b9e5c6fc982d04fcfc403883b447b05822e760e8b7b04cc049931c25b7ca615b0f29712d902689c6b7f41abeb36dd2a0b1e1b5ed229d9c2929bed380ed7cbb6a42974514cc285c99e3e24234869b00258a89339f432a3e576c671072834d05f450a74974bc8f5e90064a402651306c48c543d7878c2b6e6326ebf312216047";
const D_HEX: &str = "95839711e22b3aeb6197f6ce0a27321c5b5b0737fe4df94acb9bf27d900ad974f99f48656df6f714187ef321d978c048f6cfaee60aeb6849bf75e084ba05037a4e8e81523764abe717359fb4709a9c4c8ad5f9123324d69d3c6f753e7e4007aa9682325124c7725e726276b0d9770765521eeeac8450db454ca48edd8ec8d4c1389ca885bd7c398dc45adde16b764ab5dde46a787c2b83b78df84204b9ed81dd6e59549716f2bee207978563fa80c093eb46757ec8b708ba1a12dc3f07b4868cca5546ebed985dd806467f44264a08cf2f328209adfadf1863bf2993d2e4dcb492fe50b31c2c109659e307146800f2bd38099a0cf76eae6a6c74752679d6b13d";

fn oaep_private_key() -> rsa::RsaPrivateKey {
    let n = BigUint::parse_bytes(N_HEX.as_bytes(), 16).unwrap();
    let e = BigUint::from(65537u32);
    let d = BigUint::parse_bytes(D_HEX.as_bytes(), 16).unwrap();
    let p = BigUint::parse_bytes(P_HEX.as_bytes(), 16).unwrap();
    let q = BigUint::parse_bytes(Q_HEX.as_bytes(), 16).unwrap();
    rsa::RsaPrivateKey::from_components(n, e, d, vec![p, q]).unwrap()
}

#[test]
fn sensitive_field_encrypts_to_decryptable_base64() {
    let sk = oaep_private_key();
    let certificate = PlatformCertificate {
        public_id: b"ABCDEF".to_vec(),
        public_key_der: sk.to_public_key().to_public_key_der().unwrap().as_bytes().to_vec(),
    };
    let encoded = certificate.encrypt(b"6214830100000000").unwrap();
    let raw = base64::Engine::decode(
        &base64::engine::general_purpose::STANDARD,
        encoded.as_slice(),
    )
    .unwrap();
    // OAEP ciphertext is exactly the modulus size.
    assert_eq!(raw.len(), 256);
    let plain = sk.decrypt(rsa::Oaep::new::<sha1::Sha1>(), &raw).unwrap();
    assert_eq!(plain, b"6214830100000000".to_vec());
}

#[test]
fn encrypt_with_bad_key_fails() {
    let certificate = PlatformCertificate {
        public_id: b"ABCDEF".to_vec(),
        public_key_der: vec![1, 2, 3],
    };
    assert_eq!(
        certificate.encrypt(b"x"),
        Err(wechatpay::errors::EncryptError::EncryptionFailed)
    );
}

#[test]
fn plaintext_too_long_for_modulus_fails() {
    let sk = oaep_private_key();
    let certificate = PlatformCertificate {
        public_id: b"ABCDEF".to_vec(),
        public_key_der: sk.to_public_key().to_public_key_der().unwrap().as_bytes().to_vec(),
    };
    // OAEP with SHA-1 over a 2048-bit key holds at most 214 bytes.
    assert!(certificate.encrypt(&[0u8; 214]).is_ok());
    assert_eq!(
        certificate.encrypt(&[0u8; 215]),
        Err(wechatpay::errors::EncryptError::EncryptionFailed)
    );
}
