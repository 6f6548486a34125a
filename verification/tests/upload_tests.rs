//! Upload integrity checks: size ceiling, format allow-list, digest and
//! metadata.

use wechatpay::errors::UploadError;
use wechatpay::upload::{is_supported_image, prepare_upload, to_hex_lower, MAX_UPLOAD_SIZE};

#[test]
fn oversize_payload_is_rejected_before_anything_else() {
    let image = vec![0u8; 3 * 1024 * 1024];
    // Even a bad filename does not matter: the size check comes first.
    assert_eq!(
        prepare_upload(&image, "bad\"name"),
        Err(UploadError::TooLarge)
    );
}

#[test]
fn payload_at_the_ceiling_is_accepted() {
    let image = vec![0u8; MAX_UPLOAD_SIZE];
    assert!(prepare_upload(&image, "a.png").is_ok());
    let image = vec![0u8; MAX_UPLOAD_SIZE + 1];
    assert_eq!(prepare_upload(&image, "a.png"), Err(UploadError::TooLarge));
}

#[test]
fn extension_allow_list() {
    assert!(is_supported_image("jpg"));
    assert!(is_supported_image("JPEG"));
    assert!(is_supported_image("Png"));
    assert!(is_supported_image("bmp"));
    assert!(!is_supported_image("gif"));
    assert!(!is_supported_image(""));
    assert!(!is_supported_image("jpgx"));
}

#[test]
fn digest_and_metadata_are_exact() {
    let image = b"abc".to_vec();
    let plan = prepare_upload(&image, "photo.PNG").unwrap();
    assert_eq!(
        plan.digest_hex,
        b"ba7816bf8f01cfea414140de5dae2223b00361a396177a9cb410ff61f20015ad".to_vec()
    );
    assert_eq!(plan.mime, "image/png");
    assert_eq!(
        plan.meta_json,
        b"{\"filename\":\"photo.PNG\",\"sha256\":\"ba7816bf8f01cfea414140de5dae2223b00361a396177a9cb410ff61f20015ad\"}".to_vec()
    );
}

#[test]
fn jpeg_and_bmp_content_types() {
    let image = b"x".to_vec();
    assert_eq!(prepare_upload(&image, "a.jpg").unwrap().mime, "image/jpeg");
    assert_eq!(prepare_upload(&image, "a.JPEG").unwrap().mime, "image/jpeg");
    assert_eq!(prepare_upload(&image, "a.bmp").unwrap().mime, "image/bmp");
}

#[test]
fn filename_without_dot_uses_whole_name_as_extension() {
    let image = b"x".to_vec();
    assert_eq!(
        prepare_upload(&image, "noextension"),
        Err(UploadError::UnsupportedFormat)
    );
    // A dotless name that happens to be an allow-listed word passes.
    assert!(prepare_upload(&image, "png").is_ok());
}

#[test]
fn trailing_dot_means_empty_extension() {
    let image = b"x".to_vec();
    assert_eq!(
        prepare_upload(&image, "name."),
        Err(UploadError::UnsupportedFormat)
    );
}

/// The metadata serde_json would produce for the same filename and digest:
/// a two-field object whose keys sort alphabetically.
fn serde_meta(filename: &str, digest_hex: &str) -> Vec<u8> {
    let mut map = serde_json::Map::new();
    map.insert(
        "filename".to_string(),
        serde_json::Value::String(filename.to_string()),
    );
    map.insert(
        "sha256".to_string(),
        serde_json::Value::String(digest_hex.to_string()),
    );
    serde_json::to_string(&serde_json::Value::Object(map))
        .unwrap()
        .into_bytes()
}

#[test]
fn filenames_are_json_escaped_exactly_as_a_json_serializer_would() {
    let image = b"x".to_vec();
    for filename in [
        "plain.png",
        "we\"ird.png",
        "back\\slash.png",
        "tab\tbed.png",
        "new\nline.png",
        "bell\u{7}.png",
    ] {
        let plan = prepare_upload(&image, filename).unwrap();
        let digest_hex = String::from_utf8(plan.digest_hex.clone()).unwrap();
        assert_eq!(plan.meta_json, serde_meta(filename, &digest_hex));
    }
}

#[test]
fn hex_encoding_is_lowercase_and_exact() {
    assert_eq!(to_hex_lower(&[]), b"".to_vec());
    assert_eq!(to_hex_lower(&[0x00, 0x0f, 0xa5, 0xff]), b"000fa5ff".to_vec());
}
