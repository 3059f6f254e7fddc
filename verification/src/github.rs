//! A minimal GitHub REST client: authenticated GET and PATCH against a
//! configured endpoint, with the 2xx check and error taxonomy done in
//! verified code and only the HTTP round trip taken on trust.

use vstd::prelude::*;
use vstd::string::*;

verus! {

/// A response status is a success exactly when it lies in the 2xx range.
pub open spec fn is_success_status(status: u16) -> bool {
    200 <= status < 300
}

/// Why an outbound API call failed: the transport gave no response, or the
/// response carried a non-2xx status (kept with its body for diagnostics).
#[derive(Debug, Clone)]
pub enum ApiError {
    Transport(String),
    Http(u16, String),
}

/// Sorts a raw response into the error taxonomy: a 2xx response yields its
/// body, anything else is an `Http` error carrying status and body.
pub fn classify_response(status: u16, body: String) -> (r: Result<String, ApiError>)
    ensures
        is_success_status(status) ==> (r matches Ok(b) && b == body),
        !is_success_status(status) ==> (r matches Err(ApiError::Http(s, b)) && s == status && b
            == body),
{
    if 200 <= status && status < 300 {
        Ok(body)
    } else {
        Err(ApiError::Http(status, body))
    }
}

/// Relies on reqwest's blocking client: builds a client, issues one GET to
/// `url` with the given `Authorization` value and the fixed Accept and
/// User-Agent headers, and returns the response status and body; any
/// transport failure comes back as its message.
#[verifier::external_body]
fn http_get(url: &str, auth: &str) -> (r: Result<(u16, String), String>) {
    let client = reqwest::blocking::Client::builder().build().map_err(|e| e.to_string())?;
    let resp = client
        .get(url)
        .header("Accept", "application/vnd.github.v3+json")
        .header("Authorization", auth)
        .header("User-Agent", "rust")
        .send()
        .map_err(|e| e.to_string())?;
    let status = resp.status().as_u16();
    let body = resp.text().map_err(|e| e.to_string())?;
    Ok((status, body))
}

/// Relies on reqwest's blocking client: as `http_get`, but issues one PATCH
/// carrying `body` as a JSON request payload.
#[verifier::external_body]
fn http_patch(url: &str, auth: &str, body: &str) -> (r: Result<(u16, String), String>) {
    let client = reqwest::blocking::Client::builder().build().map_err(|e| e.to_string())?;
    let resp = client
        .patch(url)
        .header("Accept", "application/vnd.github.v3+json")
        .header("Authorization", auth)
        .header("User-Agent", "rust")
        .header("Content-Type", "application/json")
        .body(body.to_string())
        .send()
        .map_err(|e| e.to_string())?;
    let status = resp.status().as_u16();
    let text = resp.text().map_err(|e| e.to_string())?;
    Ok((status, text))
}

/// The REST client: an API base URL and a bearer credential.
pub struct Client {
    pub endpoint: String,
    pub token: String,
}

impl Client {
    pub fn new(endpoint: String, token: String) -> (r: Client)
        ensures
            r.endpoint == endpoint,
            r.token == token,
    {
        Client { endpoint, token }
    }

    /// The `Authorization` header value sent on every call.
    pub fn get_token_header(&self) -> (r: String)
        ensures
            r@ == "token "@ + self.token@,
    {
        let mut s = String::from_str("token ");
        s.append(self.token.as_str());
        s
    }

    /// One authenticated GET to `endpoint + path`. A non-2xx response is never
    /// an `Ok`; its status and body come back as an `Http` error.
    pub fn get(&self, path: &str) -> (r: Result<String, ApiError>)
        ensures
            r matches Err(ApiError::Http(s, _)) ==> !is_success_status(s),
    {
        let mut url = self.endpoint.clone();
        url.append(path);
        let auth = self.get_token_header();
        match http_get(url.as_str(), auth.as_str()) {
            Err(msg) => Err(ApiError::Transport(msg)),
            Ok((status, body)) => classify_response(status, body),
        }
    }

    /// One authenticated PATCH to `endpoint + path` with a JSON payload. A
    /// non-2xx response is never an `Ok`.
    pub fn patch(&self, path: &str, body: &str) -> (r: Result<String, ApiError>)
        ensures
            r matches Err(ApiError::Http(s, _)) ==> !is_success_status(s),
    {
        let mut url = self.endpoint.clone();
        url.append(path);
        let auth = self.get_token_header();
        match http_patch(url.as_str(), auth.as_str(), body) {
            Err(msg) => Err(ApiError::Transport(msg)),
            Ok((status, text)) => classify_response(status, text),
        }
    }
}

} // verus!
