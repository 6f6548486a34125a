//! Certificate store construction, lookup, rotation, and key material
//! validation.

use wechatpay::signer::new_nonce;
use wechatpay::errors::KeyError;
use wechatpay::keys::KeyMaterial;
use wechatpay::platform_certificate::{CertificateStore, PlatformCertificate};

fn cert(serial: &[u8], key: &[u8]) -> PlatformCertificate {
    PlatformCertificate {
        public_id: serial.to_vec(),
        public_key_der: key.to_vec(),
    }
}

#[test]
fn duplicate_serials_are_refused() {
    let r = CertificateStore::new(vec![cert(b"A", b"k1"), cert(b"B", b"k2"), cert(b"A", b"k3")]);
    assert!(matches!(r, Err(KeyError::DuplicateSerial)));
}

#[test]
fn lookup_selects_exactly_the_claimed_serial() {
    let store = CertificateStore::new(vec![cert(b"A", b"k1"), cert(b"B", b"k2")]).unwrap();
    assert_eq!(store.lookup(b"A"), Some(&b"k1".to_vec()));
    assert_eq!(store.lookup(b"B"), Some(&b"k2".to_vec()));
    assert_eq!(store.lookup(b"C"), None);
}

#[test]
fn rotation_replaces_the_whole_set() {
    let mut store = CertificateStore::new(vec![cert(b"OLD", b"k1")]).unwrap();
    let replacement = CertificateStore::new(vec![cert(b"NEW", b"k2")]).unwrap();
    store.rotate(replacement);
    assert_eq!(store.lookup(b"OLD"), None);
    assert_eq!(store.lookup(b"NEW"), Some(&b"k2".to_vec()));
}

#[test]
fn notification_key_must_be_32_bytes() {
    let r = KeyMaterial::new(b"m".to_vec(), b"s".to_vec(), b"der".to_vec(), vec![0u8; 31]);
    assert!(matches!(r, Err(KeyError::BadNotificationKeyLength)));
    let r = KeyMaterial::new(b"m".to_vec(), b"s".to_vec(), b"der".to_vec(), vec![0u8; 32]);
    assert!(r.is_ok());
}

#[test]
fn nonces_are_32_alphanumeric_and_fresh() {
    let a = new_nonce();
    let b = new_nonce();
    assert_eq!(a.len(), 32);
    assert_eq!(b.len(), 32);
    assert!(a.iter().all(|c| c.is_ascii_alphanumeric()));
    assert_ne!(a, b);
}
