use milestone_webhook::handler::{handle_webhook, Config};
use milestone_webhook::signature::signature_for;
use milestone_webhook::webhook::HandlerError;

fn config() -> Config {
    Config {
        endpoint: "http://unreachable.invalid".to_string(),
        token: "t0ken".to_string(),
        secret: "s3cr3t".to_string(),
    }
}

fn signed_headers(body: &str) -> Vec<(String, String)> {
    vec![(
        "X-Hub-Signature-256".to_string(),
        signature_for("s3cr3t", body),
    )]
}

const IGNORED_PAYLOAD: &str = r#"{
    "action": "opened",
    "repository": { "full_name": "octo/repo", "default_branch": "main" }
}"#;

#[test]
fn unsigned_delivery_is_rejected_with_403() {
    let r = handle_webhook(&Vec::new(), IGNORED_PAYLOAD, &config()).unwrap();
    assert_eq!(r.status_code, 403);
}

#[test]
fn badly_signed_delivery_is_rejected_with_403() {
    let headers = vec![(
        "X-Hub-Signature-256".to_string(),
        "sha256=deadbeef".to_string(),
    )];
    let r = handle_webhook(&headers, IGNORED_PAYLOAD, &config()).unwrap();
    assert_eq!(r.status_code, 403);
}

#[test]
fn signed_inert_delivery_is_a_200_no_op() {
    let r = handle_webhook(&signed_headers(IGNORED_PAYLOAD), IGNORED_PAYLOAD, &config()).unwrap();
    assert_eq!(r.status_code, 200);
}

#[test]
fn signed_malformed_delivery_escalates() {
    let body = "{ not json";
    let r = handle_webhook(&signed_headers(body), body, &config());
    assert!(matches!(r, Err(HandlerError::Parse(_))));
}

#[test]
fn signed_milestoned_delivery_is_a_200_no_op() {
    let body = r#"{
        "action": "closed",
        "repository": { "full_name": "octo/repo", "default_branch": "main" },
        "pull_request": {
            "number": 5,
            "merged": true,
            "milestone": { "number": 9 },
            "base": { "ref": "main" }
        }
    }"#;
    let r = handle_webhook(&signed_headers(body), body, &config()).unwrap();
    assert_eq!(r.status_code, 200);
}
