//! Deserializing raw request bodies into the typed event model. The JSON
//! grammar itself is serde_json's: one trusted call turns the text into the
//! library's own model of a JSON document, under a name that fixes it as a
//! function of the text alone. Which fields are required, which are
//! optional, and what shape each must have is then decided — and specified
//! exactly — in verified code over that model.

use crate::event::{Branch, Milestone, PullRequest, Repository, WebhookEvent};
use vstd::prelude::*;
use vstd::string::*;

verus! {

/// The one way a body can be rejected: it is not well-formed JSON, or a
/// required field is absent or has the wrong shape.
#[derive(Debug, Clone, Copy, PartialEq, Eq, Structural)]
pub enum ParseError {
    MalformedPayload,
}

/// The library's model of a JSON document: plain values throughout. A
/// number that is an unsigned 64-bit integer is held as such; any other
/// number is kept only as the fact that it is one, since no field this
/// library reads may hold one.
#[derive(Debug)]
pub enum Json {
    Null,
    Bool(bool),
    UInt(u64),
    NonUIntNumber,
    Str(String),
    Array(Vec<Json>),
    Object(Vec<(String, Json)>),
}

/// The document a text parses to, if it is well-formed JSON. Parsing is a
/// function of the text alone, so the result carries a name; what it is on
/// given text is the parser's business.
pub uninterp spec fn json_doc_of(s: Seq<char>) -> Option<Json>;

#[verifier::external_type_specification]
#[verifier::external_body]
pub struct ExJsonValue(serde_json::Value);

/// Relies on `serde_json::Value`: maps each JSON node to the one
/// corresponding constructor of the library's model, moving its value;
/// numbers go through `Number::as_u64`. Deterministic in its argument
/// (object members come in the map's own key order).
#[verifier::external_body]
fn value_to_model(v: serde_json::Value) -> Json {
    match v {
        serde_json::Value::Null => Json::Null,
        serde_json::Value::Bool(b) => Json::Bool(b),
        serde_json::Value::Number(n) => match n.as_u64() {
            Some(u) => Json::UInt(u),
            None => Json::NonUIntNumber,
        },
        serde_json::Value::String(s) => Json::Str(s),
        serde_json::Value::Array(a) => Json::Array(a.into_iter().map(value_to_model).collect()),
        serde_json::Value::Object(o) => Json::Object(
            o.into_iter().map(|(k, m)| (k, value_to_model(m))).collect(),
        ),
    }
}

/// Relies on `serde_json::from_str`: parses a string as one JSON document,
/// failing exactly on text that is not well-formed JSON. The document comes
/// back as the library's model; both steps are functions of the text alone,
/// which is what the name `json_doc_of` states.
#[verifier::external_body]
fn parse_json_model(s: &str) -> (r: Option<Json>)
    ensures
        r == json_doc_of(s@),
{
    match serde_json::from_str::<serde_json::Value>(s) {
        Ok(v) => Some(value_to_model(v)),
        Err(_) => None,
    }
}

/// The member of an object's field list under a name, first match first.
pub open spec fn field_lookup_from(fields: Seq<(String, Json)>, name: Seq<char>, i: int) -> Option<
    Json,
>
    decreases fields.len() - i,
{
    if i < 0 || i >= fields.len() {
        None
    } else if fields[i].0@ == name {
        Some(fields[i].1)
    } else {
        field_lookup_from(fields, name, i + 1)
    }
}

/// The member of a document under a name: nothing unless the document is an
/// object with such a member.
pub open spec fn field_lookup(doc: Json, name: Seq<char>) -> Option<Json> {
    match doc {
        Json::Object(fields) => field_lookup_from(fields@, name, 0),
        _ => None,
    }
}

/// The text of a string member under a name, if there is one.
pub open spec fn string_field_spec(doc: Json, name: Seq<char>) -> Option<String> {
    match field_lookup(doc, name) {
        Some(Json::Str(s)) => Some(s),
        _ => None,
    }
}

/// The value of an unsigned-integer member under a name, if there is one.
pub open spec fn u64_field_spec(doc: Json, name: Seq<char>) -> Option<u64> {
    match field_lookup(doc, name) {
        Some(Json::UInt(n)) => Some(n),
        _ => None,
    }
}

/// The value of a boolean member under a name, if there is one.
pub open spec fn bool_field_spec(doc: Json, name: Seq<char>) -> Option<bool> {
    match field_lookup(doc, name) {
        Some(Json::Bool(b)) => Some(b),
        _ => None,
    }
}

fn field_get<'a>(doc: &'a Json, name: &str) -> (r: Option<&'a Json>)
    ensures
        (match r {
            Some(j) => field_lookup(*doc, name@) == Some(*j),
            None => field_lookup(*doc, name@) is None,
        }),
{
    match doc {
        Json::Object(fields) => {
            let name_string = String::from_str(name);
            let mut i: usize = 0;
            while i < fields.len()
                invariant
                    i <= fields@.len(),
                    name_string@ == name@,
                    field_lookup(*doc, name@) == field_lookup_from(fields@, name@, i as int),
                decreases fields@.len() - i,
            {
                if fields[i].0 == name_string {
                    return Some(&fields[i].1);
                }
                i = i + 1;
            }
            proof {
                assert(field_lookup_from(fields@, name@, i as int) is None);
            }
            None
        },
        _ => None,
    }
}

fn string_field(doc: &Json, name: &str) -> (r: Option<String>)
    ensures
        r == string_field_spec(*doc, name@),
{
    match field_get(doc, name) {
        Some(Json::Str(s)) => Some(s.clone()),
        _ => None,
    }
}

fn u64_field(doc: &Json, name: &str) -> (r: Option<u64>)
    ensures
        r == u64_field_spec(*doc, name@),
{
    match field_get(doc, name) {
        Some(Json::UInt(n)) => Some(*n),
        _ => None,
    }
}

fn bool_field(doc: &Json, name: &str) -> (r: Option<bool>)
    ensures
        r == bool_field_spec(*doc, name@),
{
    match field_get(doc, name) {
        Some(Json::Bool(b)) => Some(*b),
        _ => None,
    }
}

/// The `ref` of a pull request's `base` member, if both are present and
/// have the right shape.
pub open spec fn base_ref_spec(p: Json) -> Option<String> {
    match field_lookup(p, "base"@) {
        Some(b) => string_field_spec(b, "ref"@),
        None => None,
    }
}

/// The milestone of a pull request: absent or `null` means none is
/// assigned; a present one must be the nested object carrying its `number`.
pub open spec fn milestone_spec(p: Json) -> Result<Option<Milestone>, ParseError> {
    match field_lookup(p, "milestone"@) {
        None => Ok(None),
        Some(m) => if m is Null {
            Ok(None)
        } else {
            match u64_field_spec(m, "number"@) {
                Some(n) => Ok(Some(Milestone { number: n })),
                None => Err(ParseError::MalformedPayload),
            }
        },
    }
}

/// The pull request a document describes: `number`, `merged` and
/// `base.ref` are required, the milestone is as `milestone_spec` says.
pub open spec fn parse_pull_request_spec(p: Json) -> Result<PullRequest, ParseError> {
    match u64_field_spec(p, "number"@) {
        None => Err(ParseError::MalformedPayload),
        Some(number) => match bool_field_spec(p, "merged"@) {
            None => Err(ParseError::MalformedPayload),
            Some(merged) => match base_ref_spec(p) {
                None => Err(ParseError::MalformedPayload),
                Some(reference) => match milestone_spec(p) {
                    Err(e) => Err(e),
                    Ok(milestone) => Ok(
                        PullRequest { number, merged, milestone, base: Branch { reference } },
                    ),
                },
            },
        },
    }
}

/// The repository a document describes: `full_name` and `default_branch`
/// are required.
pub open spec fn repository_spec(d: Json) -> Option<Repository> {
    match field_lookup(d, "repository"@) {
        None => None,
        Some(r) => match string_field_spec(r, "full_name"@) {
            None => None,
            Some(full_name) => match string_field_spec(r, "default_branch"@) {
                None => None,
                Some(default_branch) => Some(Repository { full_name, default_branch }),
            },
        },
    }
}

/// The optional pull request of a delivery: absent or `null` means none.
pub open spec fn pull_request_field_spec(d: Json) -> Result<Option<PullRequest>, ParseError> {
    match field_lookup(d, "pull_request"@) {
        None => Ok(None),
        Some(p) => if p is Null {
            Ok(None)
        } else {
            match parse_pull_request_spec(p) {
                Ok(pr) => Ok(Some(pr)),
                Err(e) => Err(e),
            }
        },
    }
}

/// What a delivery body parses to: the typed event when the text is
/// well-formed JSON whose required fields (`action`, `repository.full_name`,
/// `repository.default_branch`, and the pull request's shape when one is
/// present) are in place, and a malformed-payload error otherwise. Unknown
/// fields are ignored.
pub open spec fn parse_event_spec(doc: Option<Json>) -> Result<WebhookEvent, ParseError> {
    match doc {
        None => Err(ParseError::MalformedPayload),
        Some(d) => match string_field_spec(d, "action"@) {
            None => Err(ParseError::MalformedPayload),
            Some(action) => match repository_spec(d) {
                None => Err(ParseError::MalformedPayload),
                Some(repository) => match pull_request_field_spec(d) {
                    Err(e) => Err(e),
                    Ok(pull_request) => Ok(WebhookEvent { action, repository, pull_request }),
                },
            },
        },
    }
}

fn parse_pull_request(p: &Json) -> (r: Result<PullRequest, ParseError>)
    ensures
        r == parse_pull_request_spec(*p),
{
    let number = match u64_field(p, "number") {
        Some(n) => n,
        None => {
            return Err(ParseError::MalformedPayload);
        },
    };
    let merged = match bool_field(p, "merged") {
        Some(b) => b,
        None => {
            return Err(ParseError::MalformedPayload);
        },
    };
    let reference = match field_get(p, "base") {
        Some(base) => match string_field(base, "ref") {
            Some(s) => s,
            None => {
                return Err(ParseError::MalformedPayload);
            },
        },
        None => {
            return Err(ParseError::MalformedPayload);
        },
    };
    let milestone = match field_get(p, "milestone") {
        None => None,
        Some(m) => match m {
            Json::Null => None,
            _ => match u64_field(m, "number") {
                Some(n) => Some(Milestone { number: n }),
                None => {
                    return Err(ParseError::MalformedPayload);
                },
            },
        },
    };
    Ok(PullRequest { number, merged, milestone, base: Branch { reference } })
}

/// Parses a raw delivery body into the typed event, exactly as
/// `parse_event_spec` describes the parse of `json_doc_of` of the text.
pub fn parse_event(body: &str) -> (r: Result<WebhookEvent, ParseError>)
    ensures
        r == parse_event_spec(json_doc_of(body@)),
{
    let d = match parse_json_model(body) {
        Some(d) => d,
        None => {
            return Err(ParseError::MalformedPayload);
        },
    };
    let action = match string_field(&d, "action") {
        Some(s) => s,
        None => {
            return Err(ParseError::MalformedPayload);
        },
    };
    let repository = match field_get(&d, "repository") {
        Some(r) => {
            let full_name = match string_field(r, "full_name") {
                Some(s) => s,
                None => {
                    return Err(ParseError::MalformedPayload);
                },
            };
            let default_branch = match string_field(r, "default_branch") {
                Some(s) => s,
                None => {
                    return Err(ParseError::MalformedPayload);
                },
            };
            Repository { full_name, default_branch }
        },
        None => {
            return Err(ParseError::MalformedPayload);
        },
    };
    let pull_request = match field_get(&d, "pull_request") {
        None => None,
        Some(p) => match p {
            Json::Null => None,
            _ => match parse_pull_request(p) {
                Ok(pr) => Some(pr),
                Err(e) => {
                    return Err(e);
                },
            },
        },
    };
    Ok(WebhookEvent { action, repository, pull_request })
}

/// The `number`s of a milestone listing's entries from position `i` on, in
/// the listing's own order, or a parse failure if an entry lacks one.
pub open spec fn milestone_numbers_spec(items: Seq<Json>, i: int) -> Result<Seq<u64>, ParseError>
    decreases items.len() - i,
{
    if i < 0 || i >= items.len() {
        Ok(Seq::empty())
    } else {
        match u64_field_spec(items[i], "number"@) {
            None => Err(ParseError::MalformedPayload),
            Some(n) => match milestone_numbers_spec(items, i + 1) {
                Ok(rest) => Ok(seq![n] + rest),
                Err(e) => Err(e),
            },
        }
    }
}

/// What a milestone listing body parses to: the ordered `number`s of a JSON
/// array whose every entry carries one, else a malformed-payload error.
pub open spec fn milestones_spec(doc: Option<Json>) -> Result<Seq<u64>, ParseError> {
    match doc {
        Some(d) => match d {
            Json::Array(items) => milestone_numbers_spec(items@, 0),
            _ => Err(ParseError::MalformedPayload),
        },
        None => Err(ParseError::MalformedPayload),
    }
}

proof fn lemma_milestone_numbers_ok(items: Seq<Json>, i: int, nums: Seq<u64>)
    requires
        0 <= i <= items.len(),
        nums.len() == items.len() - i,
        forall|j: int| i <= j < items.len() ==> u64_field_spec(items[j], "number"@) == Some(
            nums[j - i],
        ),
    ensures
        milestone_numbers_spec(items, i) == Ok::<Seq<u64>, ParseError>(nums),
    decreases items.len() - i,
{
    if i == items.len() {
        assert(nums =~= Seq::<u64>::empty());
    } else {
        assert forall|j: int| i + 1 <= j < items.len() implies u64_field_spec(
            items[j],
            "number"@,
        ) == Some(nums.drop_first()[j - (i + 1)]) by {
            assert(nums.drop_first()[j - (i + 1)] == nums[j - i]);
        }
        lemma_milestone_numbers_ok(items, i + 1, nums.drop_first());
        assert(u64_field_spec(items[i], "number"@) == Some(nums[0]));
        assert(seq![nums[0]] + nums.drop_first() =~= nums);
    }
}

proof fn lemma_milestone_numbers_err(items: Seq<Json>, i: int, k: int)
    requires
        0 <= i <= k < items.len(),
        forall|j: int| i <= j < k ==> u64_field_spec(items[j], "number"@) is Some,
        u64_field_spec(items[k], "number"@) is None,
    ensures
        milestone_numbers_spec(items, i) == Err::<Seq<u64>, ParseError>(
            ParseError::MalformedPayload,
        ),
    decreases k - i,
{
    if i < k {
        lemma_milestone_numbers_err(items, i + 1, k);
    }
}

/// Parses the body of a milestone listing, exactly as `milestones_spec`
/// describes the parse of `json_doc_of` of the text: on success the
/// returned milestones carry the listed `number`s in the server's order.
pub fn parse_milestones(body: &str) -> (r: Result<Vec<Milestone>, ParseError>)
    ensures
        (match r {
            Ok(ms) => milestones_spec(json_doc_of(body@)) matches Ok(ns) && ms@.map_values(
                |m: Milestone| m.number,
            ) == ns,
            Err(e) => milestones_spec(json_doc_of(body@)) matches Err(pe) && pe == e,
        }),
{
    let d = match parse_json_model(body) {
        Some(d) => d,
        None => {
            return Err(ParseError::MalformedPayload);
        },
    };
    let items: Vec<Json> = match d {
        Json::Array(items) => items,
        _ => {
            return Err(ParseError::MalformedPayload);
        },
    };
    let mut out: Vec<Milestone> = Vec::new();
    let mut i: usize = 0;
    while i < items.len()
        invariant
            i <= items@.len(),
            out@.len() == i,
            milestones_spec(json_doc_of(body@)) == milestone_numbers_spec(items@, 0),
            forall|j: int| 0 <= j < i ==> u64_field_spec(items@[j], "number"@) == Some(
                out@[j].number,
            ),
        decreases items@.len() - i,
    {
        match u64_field(&items[i], "number") {
            Some(n) => out.push(Milestone { number: n }),
            None => {
                proof {
                    lemma_milestone_numbers_err(items@, 0, i as int);
                }
                return Err(ParseError::MalformedPayload);
            },
        }
        i = i + 1;
    }
    proof {
        let nums = out@.map_values(|m: Milestone| m.number);
        assert forall|j: int| 0 <= j < items@.len() implies u64_field_spec(
            items@[j],
            "number"@,
        ) == Some(nums[j]) by {
            assert(nums[j] == out@[j].number);
        }
        lemma_milestone_numbers_ok(items@, 0, nums);
    }
    Ok(out)
}

} // verus!
