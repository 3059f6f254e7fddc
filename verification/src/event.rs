//! The typed subset of a GitHub pull-request webhook delivery that this
//! library understands, and the eligibility rules over it.

use vstd::prelude::*;

verus! {

/// A repository milestone identifier.
#[derive(Debug, Clone, Copy, PartialEq, Eq, Structural)]
pub struct Milestone {
    pub number: u64,
}

/// A named branch, such as `main`.
#[derive(Debug, Clone)]
pub struct Branch {
    pub reference: String,
}

/// The pull request carried by a delivery. `milestone` present means one is
/// already assigned; `base` is the branch the pull request merged into.
#[derive(Debug, Clone)]
pub struct PullRequest {
    pub number: u64,
    pub merged: bool,
    pub milestone: Option<Milestone>,
    pub base: Branch,
}

/// The repository a delivery concerns, with its integration branch.
#[derive(Debug, Clone)]
pub struct Repository {
    pub full_name: String,
    pub default_branch: String,
}

/// One webhook delivery: an action, the repository, and, for pull-request
/// events, the pull request itself.
#[derive(Debug, Clone)]
pub struct WebhookEvent {
    pub action: String,
    pub repository: Repository,
    pub pull_request: Option<PullRequest>,
}

/// A delivery is a closed-pull-request event when its action is `"closed"`
/// and it carries a pull request. Anything else is inert.
pub open spec fn is_closed_pr_event(e: &WebhookEvent) -> bool {
    e.action@ == "closed"@ && e.pull_request is Some
}

/// A pull request is eligible for milestone assignment exactly when it was
/// merged, has no milestone yet, and merged into the repository's default
/// branch.
pub open spec fn pr_eligible(repo: &Repository, pr: &PullRequest) -> bool {
    &&& pr.merged
    &&& pr.milestone is None
    &&& pr.base.reference@ == repo.default_branch@
}

/// A delivery leads to any outbound work exactly when it is a
/// closed-pull-request event whose pull request is eligible.
pub open spec fn event_eligible(e: &WebhookEvent) -> bool {
    &&& is_closed_pr_event(e)
    &&& (e.pull_request matches Some(pr) && pr_eligible(&e.repository, &pr))
}

} // verus!
