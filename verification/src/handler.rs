//! The request entry point: authenticate, parse, apply the policy, and map
//! the outcome to a transport-agnostic reply.

use crate::event::event_eligible;
use crate::github::Client;
use crate::parse::{json_doc_of, parse_event, parse_event_spec};
use crate::signature::{expected_signature, header_lookup};
use crate::webhook::{
    handle_request, signature_header_name, verify_request, HandlerError, IgnoreReason, Outcome,
};
use vstd::prelude::*;
use vstd::string::*;

verus! {

/// What the invocation hands the library at start: the API base URL, the
/// bearer credential, and the shared webhook secret. Read fresh for every
/// delivery, never persisted.
pub struct Config {
    pub endpoint: String,
    pub token: String,
    pub secret: String,
}

/// The transport-agnostic reply to one delivery.
pub struct Response {
    pub status_code: u16,
    pub body: String,
}

/// A delivery authenticates exactly when its signature header is present and
/// equals the signature of the body under the secret.
pub open spec fn request_authentic(
    headers: Seq<(String, String)>,
    body: Seq<char>,
    secret: Seq<char>,
) -> bool {
    header_lookup(headers, signature_header_name()) matches Some(h) && h@ == expected_signature(
        secret,
        body,
    )
}

/// Handles one delivery end to end: authenticate, parse, apply the policy.
/// A delivery that does not authenticate is answered with a 403 reply and
/// nothing further happens. An authentic delivery whose body does not parse
/// escalates that parse failure; one whose parsed event is not eligible is
/// answered 200 without any outbound call; and in every case an `Ok` reply
/// on an authentic delivery is a 200 — a malformed body or a failed API
/// call is never reported as success.
pub fn handle_webhook(headers: &Vec<(String, String)>, body: &str, config: &Config) -> (r: Result<
    Response,
    HandlerError,
>)
    ensures
        !request_authentic(headers@, body@, config.secret@) ==> (r matches Ok(resp)
            && resp.status_code == 403),
        request_authentic(headers@, body@, config.secret@) ==> (r matches Ok(resp)
            ==> resp.status_code == 200),
        request_authentic(headers@, body@, config.secret@) ==> (parse_event_spec(
            json_doc_of(body@),
        ) matches Err(pe) ==> (r matches Err(HandlerError::Parse(p)) && p == pe)),
        request_authentic(headers@, body@, config.secret@) ==> (parse_event_spec(
            json_doc_of(body@),
        ) matches Ok(ev) ==> (!event_eligible(&ev) ==> (r matches Ok(resp) && resp.status_code
            == 200))),
        r matches Ok(resp) ==> (resp.status_code == 200 || resp.status_code == 403),
{
    match verify_request(headers, body, config.secret.as_str()) {
        Err(_) => Ok(
            Response {
                status_code: 403,
                body: String::from_str(
                    "your request could not be processed: the signature is missing or invalid",
                ),
            },
        ),
        Ok(_) => {
            let e = match parse_event(body) {
                Ok(e) => e,
                Err(pe) => {
                    return Err(HandlerError::Parse(pe));
                },
            };
            let client = Client::new(config.endpoint.clone(), config.token.clone());
            match handle_request(e, &client) {
                Ok(Outcome::Ignored(IgnoreReason::NotEligible)) => Ok(
                    Response {
                        status_code: 200,
                        body: String::from_str("webhook event was ignored"),
                    },
                ),
                Ok(Outcome::Ignored(IgnoreReason::NoMilestoneFound)) => Ok(
                    Response {
                        status_code: 200,
                        body: String::from_str("milestone is not found"),
                    },
                ),
                Ok(Outcome::MilestoneApplied(_)) => Ok(
                    Response {
                        status_code: 200,
                        body: String::from_str(
                            "the latest milestone has been assigned to the pull request",
                        ),
                    },
                ),
                Err(he) => Err(he),
            }
        },
    }
}

} // verus!
