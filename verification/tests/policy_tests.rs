use milestone_webhook::event::{Branch, Milestone, PullRequest, Repository, WebhookEvent};
use milestone_webhook::github::{ApiError, Client};
use milestone_webhook::webhook::{
    handle_request, issue_path, milestones_path, patch_body, plan_patch,
    process_milestones_response, HandlerError, IgnoreReason, Outcome,
};

fn dummy_client() -> Client {
    Client::new("http://unreachable.invalid".to_string(), "t0ken".to_string())
}

fn event(action: &str, pull_request: Option<PullRequest>) -> WebhookEvent {
    WebhookEvent {
        action: action.to_string(),
        repository: Repository {
            full_name: "octo/repo".to_string(),
            default_branch: "main".to_string(),
        },
        pull_request,
    }
}

fn merged_pr() -> PullRequest {
    PullRequest {
        number: 5,
        merged: true,
        milestone: None,
        base: Branch { reference: "main".to_string() },
    }
}

#[test]
fn ignores_non_closed_action() {
    let e = event("opened", Some(merged_pr()));
    let r = handle_request(e, &dummy_client()).unwrap();
    assert_eq!(r, Outcome::Ignored(IgnoreReason::NotEligible));
}

#[test]
fn ignores_missing_pull_request() {
    let e = event("closed", None);
    let r = handle_request(e, &dummy_client()).unwrap();
    assert_eq!(r, Outcome::Ignored(IgnoreReason::NotEligible));
}

#[test]
fn ignores_unmerged_pr() {
    let mut pr = merged_pr();
    pr.merged = false;
    let r = handle_request(event("closed", Some(pr)), &dummy_client()).unwrap();
    assert_eq!(r, Outcome::Ignored(IgnoreReason::NotEligible));
}

#[test]
fn ignores_already_milestoned_pr() {
    let mut pr = merged_pr();
    pr.milestone = Some(Milestone { number: 3 });
    let r = handle_request(event("closed", Some(pr)), &dummy_client()).unwrap();
    assert_eq!(r, Outcome::Ignored(IgnoreReason::NotEligible));
}

#[test]
fn ignores_other_base_branch() {
    let mut pr = merged_pr();
    pr.base.reference = "develop".to_string();
    let r = handle_request(event("closed", Some(pr)), &dummy_client()).unwrap();
    assert_eq!(r, Outcome::Ignored(IgnoreReason::NotEligible));
}

#[test]
fn replaying_milestoned_event_is_ignored_both_times() {
    let mut pr = merged_pr();
    pr.milestone = Some(Milestone { number: 3 });
    let e = event("closed", Some(pr));
    let first = handle_request(e.clone(), &dummy_client()).unwrap();
    let second = handle_request(e, &dummy_client()).unwrap();
    assert_eq!(first, Outcome::Ignored(IgnoreReason::NotEligible));
    assert_eq!(second, Outcome::Ignored(IgnoreReason::NotEligible));
}

#[test]
fn empty_milestone_list_plans_nothing() {
    let r = plan_patch("octo/repo", 5, &Vec::new());
    assert!(r.is_none());
}

#[test]
fn first_milestone_wins() {
    let ms = vec![Milestone { number: 42 }, Milestone { number: 7 }];
    let plan = plan_patch("octo/repo", 5, &ms).unwrap();
    assert_eq!(plan.milestone, 42);
    assert_eq!(plan.path, "/repos/octo/repo/issues/5");
    assert_eq!(plan.body, "{\"milestone\":42}");
}

#[test]
fn milestones_path_is_exact() {
    assert_eq!(
        milestones_path("octo/repo"),
        "/repos/octo/repo/milestones?direction=desc"
    );
}

#[test]
fn issue_path_renders_large_numbers() {
    assert_eq!(
        issue_path("octo/repo", 1234567890),
        "/repos/octo/repo/issues/1234567890"
    );
}

#[test]
fn patch_body_renders_zero() {
    assert_eq!(patch_body(0), "{\"milestone\":0}");
}

#[test]
fn empty_listing_response_plans_no_patch() {
    let r = process_milestones_response("octo/repo", 5, "[]").unwrap();
    assert!(r.is_none());
}

#[test]
fn two_milestone_response_plans_one_patch_with_first() {
    let plan = process_milestones_response("octo/repo", 5, r#"[{"number":42},{"number":7}]"#)
        .unwrap()
        .unwrap();
    assert_eq!(plan.milestone, 42);
    assert_eq!(plan.path, "/repos/octo/repo/issues/5");
    assert_eq!(plan.body, "{\"milestone\":42}");
}

#[test]
fn malformed_listing_response_is_a_parse_error() {
    assert!(process_milestones_response("octo/repo", 5, "not json").is_err());
    assert!(process_milestones_response("octo/repo", 5, "{\"number\":42}").is_err());
}

#[test]
fn transport_failure_propagates() {
    let r = dummy_client().get("/repos/octo/repo/milestones?direction=desc");
    assert!(matches!(r, Err(ApiError::Transport(_))));
}

#[test]
fn eligible_pr_with_failing_transport_escalates() {
    let r = handle_request(event("closed", Some(merged_pr())), &dummy_client());
    assert!(matches!(r, Err(HandlerError::Api(ApiError::Transport(_)))));
}

#[test]
fn token_header_is_exact() {
    let c = Client::new("https://api.github.test".to_string(), "abc123".to_string());
    assert_eq!(c.get_token_header(), "token abc123");
}
