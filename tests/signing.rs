use falcon::signer::{decimal_string, sign, signing_payload_string};

#[test]
fn signature_matches_known_vector() {
    assert_eq!(
        sign(1700000000000, "test-secret"),
        "add7a5fcfa7aa03d307fcb9a1d11a81a0564f24e5296e0f92d5145054b9fd5a1"
    );
}

#[test]
fn signature_matches_reference_hmac() {
    let expected = hex::encode(hmac_sha256::HMAC::mac(
        "1700000000000GET/users/self".as_bytes(),
        "test-secret".as_bytes(),
    ));
    assert_eq!(sign(1700000000000, "test-secret"), expected);
}

#[test]
fn signature_is_repeatable() {
    assert_eq!(sign(1700000000000, "test-secret"), sign(1700000000000, "test-secret"));
    assert_eq!(sign(-5, "k"), sign(-5, "k"));
}

#[test]
fn signature_changes_with_timestamp() {
    assert_eq!(
        sign(1700000000001, "test-secret"),
        "424090f755cd0e9cdf520141d6c0667182924f67483bdd96c036bd592f51a083"
    );
    assert_ne!(sign(1700000000001, "test-secret"), sign(1700000000000, "test-secret"));
}

#[test]
fn signature_changes_with_secret() {
    assert_eq!(
        sign(1700000000000, "test-secreT"),
        "d554383c9799690ee1f2df0c8393b5e4e5a9378eea6e523908fddcc6ee319313"
    );
    assert_ne!(sign(1700000000000, "test-secreT"), sign(1700000000000, "test-secret"));
}

#[test]
fn signature_of_negative_timestamp() {
    assert_eq!(
        sign(-5, "k"),
        "4cdcef7d350f155c9a9101806103b705c331c60246a9f11ec77675d769c53c60"
    );
}

#[test]
fn signature_is_lower_hex_of_32_bytes() {
    let s = sign(0, "");
    assert_eq!(s.len(), 64);
    assert!(s.chars().all(|c| c.is_ascii_digit() || ('a'..='f').contains(&c)));
}

#[test]
fn decimal_forms() {
    assert_eq!(decimal_string(0), "0");
    assert_eq!(decimal_string(7), "7");
    assert_eq!(decimal_string(10), "10");
    assert_eq!(decimal_string(-120), "-120");
    assert_eq!(decimal_string(1700000000000), "1700000000000");
    assert_eq!(decimal_string(i64::MAX), i64::MAX.to_string());
    assert_eq!(decimal_string(i64::MIN), i64::MIN.to_string());
}

#[test]
fn payload_is_timestamp_then_request() {
    assert_eq!(signing_payload_string(1700000000000), "1700000000000GET/users/self");
    assert_eq!(signing_payload_string(-1), "-1GET/users/self");
}
