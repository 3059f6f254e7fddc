use milestone_webhook::signature::{find_header, signature_for};
use milestone_webhook::webhook::{verify_request, AuthError};

fn headers_with(value: &str) -> Vec<(String, String)> {
    vec![
        ("Content-Type".to_string(), "application/json".to_string()),
        ("X-Hub-Signature-256".to_string(), value.to_string()),
    ]
}

#[test]
fn signature_matches_reference_hmac() {
    let key = ring::hmac::Key::new(ring::hmac::HMAC_SHA256, b"s3cr3t");
    let tag = ring::hmac::sign(&key, b"hello");
    let expected = format!("sha256={}", hex::encode(tag.as_ref()));
    assert_eq!(signature_for("s3cr3t", "hello"), expected);
}

#[test]
fn signature_matches_known_value() {
    assert_eq!(
        signature_for("s3cr3t", "hello"),
        "sha256=6b23653f08c72072554e5dfef9b72efe01fcfe724a950689e991e7bd7089eb3e"
    );
}

#[test]
fn signature_has_prefix_and_hex_length() {
    let s = signature_for("s3cr3t", "hello");
    assert!(s.starts_with("sha256="));
    assert_eq!(s.len(), "sha256=".len() + 64);
    assert!(s["sha256=".len()..]
        .chars()
        .all(|c| c.is_ascii_hexdigit() && !c.is_ascii_uppercase()));
}

#[test]
fn signature_depends_on_body_and_secret() {
    let base = signature_for("s3cr3t", "hello");
    assert_ne!(signature_for("s3cr3t", "hello!"), base);
    assert_ne!(signature_for("other", "hello"), base);
}

#[test]
fn valid_signature_verifies() {
    let sig = signature_for("s3cr3t", "hello");
    let r = verify_request(&headers_with(&sig), "hello", "s3cr3t");
    assert!(r.is_ok());
}

#[test]
fn wrong_signature_is_invalid() {
    let sig = signature_for("s3cr3t", "other body");
    let r = verify_request(&headers_with(&sig), "hello", "s3cr3t");
    assert_eq!(r.unwrap_err(), AuthError::InvalidSignature);
}

#[test]
fn garbage_signature_is_invalid() {
    let r = verify_request(&headers_with("sha256=deadbeef"), "hello", "s3cr3t");
    assert_eq!(r.unwrap_err(), AuthError::InvalidSignature);
}

#[test]
fn absent_header_is_missing() {
    let headers = vec![("Content-Type".to_string(), "application/json".to_string())];
    let r = verify_request(&headers, "hello", "s3cr3t");
    assert_eq!(r.unwrap_err(), AuthError::MissingSignature);
}

#[test]
fn find_header_takes_first_match() {
    let headers = vec![
        ("a".to_string(), "1".to_string()),
        ("b".to_string(), "2".to_string()),
        ("b".to_string(), "3".to_string()),
    ];
    assert_eq!(find_header(&headers, "b"), Some("2".to_string()));
    assert_eq!(find_header(&headers, "c"), None);
}
