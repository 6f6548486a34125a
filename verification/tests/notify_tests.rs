//! Notification decryption: AEAD round trips, tamper detection, and tag
//! dispatch.

use wechatpay::errors::NotifyError;
use wechatpay::keys::KeyMaterial;
use wechatpay::notify::{aead_round_trip, NotificationEvent, NotificationResourse,
    WechatPayNotification};

fn test_key_material(key: [u8; 32]) -> KeyMaterial {
    KeyMaterial::new(
        b"1900000109".to_vec(),
        b"ABCDEF".to_vec(),
        b"unused".to_vec(),
        key.to_vec(),
    )
    .unwrap()
}

/// Encrypts a plaintext exactly as the provider does, with the aes-gcm crate.
fn seal(key: &[u8; 32], nonce: &[u8; 12], aad: &[u8], plain: &[u8]) -> String {
    let cipher =
        <aes_gcm::Aes256Gcm as aes_gcm::KeyInit>::new_from_slice(key.as_slice()).unwrap();
    let sealed = aes_gcm::aead::Aead::encrypt(
        &cipher,
        aes_gcm::Nonce::from_slice(nonce.as_slice()),
        aes_gcm::aead::Payload { msg: plain, aad },
    )
    .unwrap();
    base64::Engine::encode(&base64::engine::general_purpose::STANDARD, sealed)
}

fn resource(key: &[u8; 32], original_type: &str, plain: &[u8]) -> NotificationResourse {
    NotificationResourse {
        algorithm: "AEAD_AES_256_GCM".to_string(),
        ciphertext: seal(key, b"012345678901", b"transaction", plain),
        associated_data: "transaction".to_string(),
        original_type: original_type.to_string(),
        nonce: "012345678901".to_string(),
    }
}

#[test]
fn aead_seal_open_round_trip() {
    let key = [9u8; 32];
    let nonce = [3u8; 12];
    let plain = b"a known plaintext";
    let opened = aead_round_trip(&key, &nonce, b"aad bytes", plain);
    assert_eq!(opened, plain.to_vec());
}

#[test]
fn decrypt_notification_reproduces_plaintext() {
    let key = [5u8; 32];
    let km = test_key_material(key);
    let plain = b"{\"transaction_id\":\"42\"}";
    let event = km
        .decrypt_resource(&resource(&key, "transaction", plain))
        .unwrap();
    match event {
        NotificationEvent::Trade(p) => assert_eq!(p, plain.to_vec()),
        _ => panic!("wrong event kind"),
    }
}

#[test]
fn decrypt_whole_envelope() {
    let key = [5u8; 32];
    let km = test_key_material(key);
    let noti = WechatPayNotification {
        id: "abcdef-123456".to_string(),
        create_time: "2024-05-20T13:29:35+08:00".to_string(),
        event_type: "TRANSACTION.SUCCESS".to_string(),
        resource_type: "encrypt-resource".to_string(),
        resource: resource(&key, "transaction", b"{\"ok\":1}"),
        summary: "payment succeeded".to_string(),
    };
    let event = km.decrypt_notification(&noti).unwrap();
    assert_eq!(event, NotificationEvent::Trade(b"{\"ok\":1}".to_vec()));
}

#[test]
fn refund_and_profit_share_tags_dispatch() {
    let key = [5u8; 32];
    let km = test_key_material(key);
    let event = km
        .decrypt_resource(&resource(&key, "refund", b"{}"))
        .unwrap();
    assert!(matches!(event, NotificationEvent::Refund(_)));
    let event = km
        .decrypt_resource(&resource(&key, "profitsharing", b"{}"))
        .unwrap();
    assert!(matches!(event, NotificationEvent::ProfitShare(_)));
}

#[test]
fn unknown_type_is_a_schema_error() {
    let key = [5u8; 32];
    let km = test_key_material(key);
    assert_eq!(
        km.decrypt_resource(&resource(&key, "unknown_kind", b"{}")),
        Err(NotifyError::UnknownNotificationType)
    );
}

#[test]
fn wrong_key_fails_authentication() {
    let key = [5u8; 32];
    let other = [6u8; 32];
    let km = test_key_material(other);
    assert_eq!(
        km.decrypt_resource(&resource(&key, "transaction", b"{}")),
        Err(NotifyError::AuthenticationFailed)
    );
}

#[test]
fn altered_associated_data_fails_authentication() {
    let key = [5u8; 32];
    let km = test_key_material(key);
    let mut res = resource(&key, "transaction", b"{}");
    res.associated_data = "refund".to_string();
    assert_eq!(
        km.decrypt_resource(&res),
        Err(NotifyError::AuthenticationFailed)
    );
}

#[test]
fn tampered_ciphertext_fails_authentication() {
    let key = [5u8; 32];
    let km = test_key_material(key);
    let good = resource(&key, "transaction", b"{}");
    let raw = base64::Engine::decode(
        &base64::engine::general_purpose::STANDARD,
        good.ciphertext.as_bytes(),
    )
    .unwrap();
    let mut flipped = raw.clone();
    flipped[0] ^= 0x80;
    let mut res = good;
    res.ciphertext =
        base64::Engine::encode(&base64::engine::general_purpose::STANDARD, flipped);
    assert_eq!(
        km.decrypt_resource(&res),
        Err(NotifyError::AuthenticationFailed)
    );
}

#[test]
fn unsupported_algorithm_is_rejected_first() {
    let key = [5u8; 32];
    let km = test_key_material(key);
    let mut res = resource(&key, "transaction", b"{}");
    res.algorithm = "AEAD_AES_256_CBC".to_string();
    assert_eq!(
        km.decrypt_resource(&res),
        Err(NotifyError::UnsupportedAlgorithm)
    );
}

#[test]
fn invalid_base64_ciphertext_is_rejected() {
    let key = [5u8; 32];
    let km = test_key_material(key);
    let mut res = resource(&key, "transaction", b"{}");
    res.ciphertext = "!!!".to_string();
    assert_eq!(
        km.decrypt_resource(&res),
        Err(NotifyError::MalformedCiphertext)
    );
}

#[test]
fn wrong_nonce_length_is_rejected() {
    let key = [5u8; 32];
    let km = test_key_material(key);
    let mut res = resource(&key, "transaction", b"{}");
    res.nonce = "too-short".to_string();
    assert_eq!(km.decrypt_resource(&res), Err(NotifyError::MalformedNonce));
}
