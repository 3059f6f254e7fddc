//! The milestone assignment policy: decide from one delivery whether to act,
//! fetch the candidate milestones, pick the first, and apply it — with at
//! most one read and one write per delivery, and every API failure
//! propagated.

use crate::event::{Milestone, PullRequest, Repository, WebhookEvent};
use crate::event::{event_eligible, pr_eligible};
use crate::github::{ApiError, Client};
use crate::numstr::{dec_str_of, u64_to_dec};
use crate::parse::{json_doc_of, milestones_spec, parse_milestones, ParseError};
use crate::signature::{
    expected_signature, find_header, header_lookup, signature_for, signatures_match,
};
use vstd::prelude::*;
use vstd::string::*;

verus! {

/// Why a delivery ended with nothing to do: it was not an eligible
/// closed-pull-request event, or the repository has no milestone to assign.
#[derive(Debug, Clone, Copy, PartialEq, Eq, Structural)]
pub enum IgnoreReason {
    NotEligible,
    NoMilestoneFound,
}

/// How one delivery ended: nothing to do, or one milestone assigned.
#[derive(Debug, Clone, Copy, PartialEq, Eq, Structural)]
pub enum Outcome {
    Ignored(IgnoreReason),
    MilestoneApplied(u64),
}

/// A failure that escalates: the body could not be parsed, or an API call
/// failed. Neither is ever reported as success.
#[derive(Debug, Clone)]
pub enum HandlerError {
    Parse(ParseError),
    Api(ApiError),
}

/// The path that lists a repository's milestones, newest first.
pub open spec fn milestones_path_spec(full_name: Seq<char>) -> Seq<char> {
    "/repos/"@ + full_name + "/milestones?direction=desc"@
}

/// The path of the issue behind a pull request.
pub open spec fn issue_path_spec(full_name: Seq<char>, number: u64) -> Seq<char> {
    "/repos/"@ + full_name + "/issues/"@ + dec_str_of(number as nat)
}

/// The JSON payload that assigns one milestone.
pub open spec fn patch_body_spec(milestone: u64) -> Seq<char> {
    "{\"milestone\":"@ + dec_str_of(milestone as nat) + "}"@
}

/// Builds the milestone listing path for a repository.
pub fn milestones_path(full_name: &str) -> (r: String)
    ensures
        r@ == milestones_path_spec(full_name@),
{
    let mut s = String::from_str("/repos/");
    s.append(full_name);
    s.append("/milestones?direction=desc");
    s
}

/// Builds the issue path for a pull request.
pub fn issue_path(full_name: &str, number: u64) -> (r: String)
    ensures
        r@ == issue_path_spec(full_name@, number),
{
    let mut s = String::from_str("/repos/");
    s.append(full_name);
    s.append("/issues/");
    let num = u64_to_dec(number);
    s.append(num.as_str());
    s
}

/// Builds the milestone assignment payload.
pub fn patch_body(milestone: u64) -> (r: String)
    ensures
        r@ == patch_body_spec(milestone),
{
    let mut s = String::from_str("{\"milestone\":");
    let num = u64_to_dec(milestone);
    s.append(num.as_str());
    s.append("}");
    s
}

/// The one write a delivery may issue: which milestone, to which path, with
/// which payload.
pub struct PatchPlan {
    pub milestone: u64,
    pub path: String,
    pub body: String,
}

/// Decides, from the fetched milestone list, whether and what to write back:
/// nothing when the list is empty, else one PATCH assigning the first entry
/// — the server's own descending creation order decides, never a
/// client-side comparison.
pub fn plan_patch(full_name: &str, pr_number: u64, milestones: &Vec<Milestone>) -> (r: Option<
    PatchPlan,
>)
    ensures
        milestones@.len() == 0 ==> r is None,
        milestones@.len() > 0 ==> (r matches Some(p) && p.milestone == milestones@[0].number
            && p.path@ == issue_path_spec(full_name@, pr_number) && p.body@ == patch_body_spec(
            milestones@[0].number,
        )),
{
    if milestones.len() == 0 {
        None
    } else {
        let m = milestones[0].number;
        Some(
            PatchPlan {
                milestone: m,
                path: issue_path(full_name, pr_number),
                body: patch_body(m),
            },
        )
    }
}

/// Decides from a fetched milestone listing what one delivery writes back:
/// a listing that does not parse is a parse failure; a listing of no
/// milestones means nothing is written; otherwise the one PATCH assigns the
/// listing's first `number`, to the pull request's issue path.
pub fn process_milestones_response(full_name: &str, pr_number: u64, response: &str) -> (r: Result<
    Option<PatchPlan>,
    ParseError,
>)
    ensures
        milestones_spec(json_doc_of(response@)) matches Err(pe) ==> (r matches Err(e) && e == pe),
        milestones_spec(json_doc_of(response@)) matches Ok(ns) ==> (ns.len() == 0 ==> (r matches
        Ok(op) && op is None)),
        milestones_spec(json_doc_of(response@)) matches Ok(ns) ==> (ns.len() > 0 ==> (r matches Ok(
            op,
        ) && op matches Some(p) && p.milestone == ns[0] && p.path@ == issue_path_spec(
            full_name@,
            pr_number,
        ) && p.body@ == patch_body_spec(ns[0]))),
{
    let milestones = match parse_milestones(response) {
        Ok(ms) => ms,
        Err(e) => {
            return Err(e);
        },
    };
    Ok(plan_patch(full_name, pr_number, &milestones))
}

/// Applies the policy to one closed pull request: nothing happens unless it
/// is eligible; an eligible one fetches the milestone list and, when the
/// list is non-empty, assigns its first entry; every API failure
/// propagates.
fn handle_pull_request(repo: &Repository, pr: &PullRequest, client: &Client) -> (r: Result<
    Outcome,
    HandlerError,
>)
    ensures
        !pr_eligible(repo, pr) ==> (r matches Ok(o) && o == Outcome::Ignored(
            IgnoreReason::NotEligible,
        )),
        r matches Ok(Outcome::MilestoneApplied(m)) ==> pr_eligible(repo, pr),
        r matches Ok(Outcome::Ignored(IgnoreReason::NoMilestoneFound)) ==> pr_eligible(repo, pr),
        r is Err ==> pr_eligible(repo, pr),
{
    let eligible = pr.merged && pr.milestone.is_none() && pr.base.reference
        == repo.default_branch;
    if !eligible {
        return Ok(Outcome::Ignored(IgnoreReason::NotEligible));
    }
    let path = milestones_path(repo.full_name.as_str());
    let resp = match client.get(path.as_str()) {
        Ok(b) => b,
        Err(e) => {
            return Err(HandlerError::Api(e));
        },
    };
    let plan = match process_milestones_response(repo.full_name.as_str(), pr.number, resp.as_str())
    {
        Ok(p) => p,
        Err(e) => {
            return Err(HandlerError::Parse(e));
        },
    };
    match plan {
        None => Ok(Outcome::Ignored(IgnoreReason::NoMilestoneFound)),
        Some(plan) => match client.patch(plan.path.as_str(), plan.body.as_str()) {
            Ok(_) => Ok(Outcome::MilestoneApplied(plan.milestone)),
            Err(e) => Err(HandlerError::Api(e)),
        },
    }
}

/// Routes one delivery. Anything that is not an eligible closed-pull-request
/// event is ignored and leads to no outbound call; an eligible one is
/// handled by the policy, and only it can end in an assignment or a
/// failure.
pub fn handle_request(e: WebhookEvent, client: &Client) -> (r: Result<Outcome, HandlerError>)
    ensures
        !event_eligible(&e) ==> (r matches Ok(o) && o == Outcome::Ignored(
            IgnoreReason::NotEligible,
        )),
        r matches Ok(Outcome::MilestoneApplied(m)) ==> event_eligible(&e),
        r matches Ok(Outcome::Ignored(IgnoreReason::NoMilestoneFound)) ==> event_eligible(&e),
        r is Err ==> event_eligible(&e),
{
    let closed = String::from_str("closed");
    if !(e.action == closed) {
        return Ok(Outcome::Ignored(IgnoreReason::NotEligible));
    }
    match &e.pull_request {
        None => Ok(Outcome::Ignored(IgnoreReason::NotEligible)),
        Some(pr) => handle_pull_request(&e.repository, pr, client),
    }
}

/// The name of the signature header every delivery must carry.
pub open spec fn signature_header_name() -> Seq<char> {
    "X-Hub-Signature-256"@
}

/// Why a delivery was rejected: the signature header is absent, or present
/// but not the signature this body has under the shared secret.
#[derive(Debug, Clone, Copy, PartialEq, Eq, Structural)]
pub enum AuthError {
    MissingSignature,
    InvalidSignature,
}

/// Authenticates one delivery: the `X-Hub-Signature-256` header must be
/// present and equal, character for character, to the signature of the body
/// under the shared secret. The two are compared in one fixed scan, so the
/// time taken does not tell a probing sender where its guess went wrong.
pub fn verify_request(headers: &Vec<(String, String)>, body: &str, secret: &str) -> (r: Result<
    (),
    AuthError,
>)
    ensures
        header_lookup(headers@, signature_header_name()) is None ==> r matches Err(
            AuthError::MissingSignature,
        ),
        header_lookup(headers@, signature_header_name()) matches Some(h) ==> (r is Ok <==> h@
            == expected_signature(secret@, body@)),
        (header_lookup(headers@, signature_header_name()) matches Some(h) && h@
            != expected_signature(secret@, body@)) ==> r matches Err(AuthError::InvalidSignature),
{
    let gh_sig = match find_header(headers, "X-Hub-Signature-256") {
        Some(h) => h,
        None => {
            return Err(AuthError::MissingSignature);
        },
    };
    let my_sig = signature_for(secret, body);
    if signatures_match(gh_sig.as_str(), my_sig.as_str()) {
        Ok(())
    } else {
        Err(AuthError::InvalidSignature)
    }
}

/// Law: a delivery whose action is not `"closed"`, or that carries no pull
/// request, is never eligible; by `handle_request`'s contract it is ignored,
/// and no outbound call is made for it.
pub proof fn lemma_non_closed_event_ignored(e: WebhookEvent)
    requires
        e.action@ != "closed"@ || e.pull_request is None,
    ensures
        !event_eligible(&e),
{
}

/// Law: a pull request that was not merged is never eligible, whatever else
/// the delivery says.
pub proof fn lemma_unmerged_pr_ignored(e: WebhookEvent)
    requires
        e.pull_request matches Some(pr) && !pr.merged,
    ensures
        !event_eligible(&e),
{
}

/// Law: a pull request that already carries a milestone is never eligible —
/// the policy never overwrites an assignment.
pub proof fn lemma_milestoned_pr_ignored(e: WebhookEvent)
    requires
        e.pull_request matches Some(pr) && pr.milestone is Some,
    ensures
        !event_eligible(&e),
{
}

/// Law: a pull request merged into any branch other than the repository's
/// default branch is never eligible.
pub proof fn lemma_other_branch_ignored(e: WebhookEvent)
    requires
        e.pull_request matches Some(pr) && pr.base.reference@ != e.repository.default_branch@,
    ensures
        !event_eligible(&e),
{
}

/// Law: an unmerged pull request is never eligible, so the policy answers
/// `Ignored` for it and reaches no fetch or write.
pub proof fn lemma_unmerged_pr_not_eligible(repo: Repository, pr: PullRequest)
    requires
        !pr.merged,
    ensures
        !pr_eligible(&repo, &pr),
{
}

/// Law: a pull request that already carries a milestone is never eligible,
/// so the policy answers `Ignored` for it and never overwrites the
/// assignment.
pub proof fn lemma_milestoned_pr_not_eligible(repo: Repository, pr: PullRequest)
    requires
        pr.milestone is Some,
    ensures
        !pr_eligible(&repo, &pr),
{
}

/// Law: a pull request merged into a branch other than the repository's
/// default branch is never eligible, so the policy answers `Ignored` for it.
pub proof fn lemma_other_branch_pr_not_eligible(repo: Repository, pr: PullRequest)
    requires
        pr.base.reference@ != repo.default_branch@,
    ensures
        !pr_eligible(&repo, &pr),
{
}

/// Law: handling a delivery is idempotent on an already-milestoned pull
/// request. Eligibility is a function of the event alone, so replaying the
/// same merged, already-milestoned event gives an ineligible event both
/// times, and `handle_request` answers `Ignored` on each delivery without
/// issuing a write.
pub proof fn lemma_replay_milestoned_ignored(first: WebhookEvent, second: WebhookEvent)
    requires
        first == second,
        first.pull_request matches Some(pr) && pr.merged && pr.milestone is Some,
    ensures
        !event_eligible(&first),
        !event_eligible(&second),
{
}

} // verus!
