//! The shape of one call to the MnemeBrain HTTP API, and how its response
//! is read.
use vstd::prelude::*;

use crate::json::{Json, JsonValue, fields_json, json_object};

verus! {

/// The path prefix of the full backend's extended (v4) routes.
pub const V4_PREFIX: &'static str = "/api/mneme";

#[derive(Debug, Clone, Copy, PartialEq, Eq, Structural)]
pub enum HttpMethod {
    Get,
    Post,
    Patch,
    Delete,
}

/// How the body of a response is to be treated.
#[derive(Debug, Clone, Copy, PartialEq, Eq, Structural)]
pub enum ResponseMode {
    /// Any status of 400 or above is an error; otherwise the body is JSON.
    Json,
    /// As `Json`, except that 404 means "no such item" and is not an error.
    JsonOrNotFound,
    /// Any status of 400 or above is an error; otherwise the body is ignored.
    NoContent,
}

/// What to do with a response once its status is known.
#[derive(Debug, Clone, Copy, PartialEq, Eq, Structural)]
pub enum ResponseStep {
    /// The item does not exist: the call succeeds with nothing.
    NotFound,
    /// The call failed: read the body as text and report the status with it.
    Failed,
    /// The call succeeded and its body is not needed.
    Finished,
    /// The call succeeded: read the body as JSON.
    ReadJson,
}

/// One API call: method, full URL, query parameters in order, optional JSON
/// body, and how to read the response.
#[derive(Debug)]
pub struct ApiRequest {
    pub method: HttpMethod,
    pub url: String,
    pub query: Vec<(String, String)>,
    pub body: Option<JsonValue>,
    pub mode: ResponseMode,
}

pub struct RequestView {
    pub method: HttpMethod,
    pub url: Seq<char>,
    pub query: Seq<(Seq<char>, Seq<char>)>,
    pub body: Option<Json>,
    pub mode: ResponseMode,
}

pub open spec fn pairs_view(q: Seq<(String, String)>) -> Seq<(Seq<char>, Seq<char>)> {
    Seq::new(q.len(), |i: int| (q[i].0@, q[i].1@))
}

/// The query of a call keeps every parameter, in order, name and value.
pub proof fn lemma_pairs_view(q: Seq<(String, String)>)
    ensures
        pairs_view(q).len() == q.len(),
        forall|i: int| 0 <= i < q.len() ==> #[trigger] pairs_view(q)[i] == (q[i].0@, q[i].1@),
{
}

/// A call has a body exactly when one was given, and then its meaning.
pub proof fn lemma_body_view(b: Option<JsonValue>)
    ensures
        body_view(b) is Some <==> b is Some,
        b matches Some(v) ==> body_view(b) == Some(v.json()),
{
}

pub open spec fn body_view(b: Option<JsonValue>) -> Option<Json> {
    match b {
        Some(v) => Some(v.json()),
        None => None,
    }
}

pub open spec fn request(
    method: HttpMethod,
    url: Seq<char>,
    query: Seq<(Seq<char>, Seq<char>)>,
    body: Option<Json>,
    mode: ResponseMode,
) -> RequestView {
    RequestView { method, url, query, body, mode }
}

/// A call with no query parameters whose response is JSON.
pub open spec fn json_call(method: HttpMethod, url: Seq<char>, body: Option<Json>) -> RequestView {
    request(method, url, seq![], body, ResponseMode::Json)
}

/// A JSON call is sent as asked, with no query parameters, and its answer
/// is read as JSON.
pub proof fn lemma_json_call(method: HttpMethod, url: Seq<char>, body: Option<Json>)
    ensures
        json_call(method, url, body).method == method,
        json_call(method, url, body).url == url,
        json_call(method, url, body).query.len() == 0,
        json_call(method, url, body).body == body,
        json_call(method, url, body).mode == ResponseMode::Json,
{
}

impl View for ApiRequest {
    type V = RequestView;

    open spec fn view(&self) -> RequestView {
        request(self.method, self.url@, pairs_view(self.query@), body_view(self.body), self.mode)
    }
}

/// Builds a call without query parameters.
pub fn api_call(method: HttpMethod, url: String, body: Option<JsonValue>, mode: ResponseMode) -> (r:
    ApiRequest)
    ensures
        r@ == request(method, url@, seq![], body_view(body), mode),
{
    let r = ApiRequest { method, url, query: Vec::new(), body, mode };
    proof {
        assert(pairs_view(r.query@) =~= seq![]);
    }
    r
}

/// Builds a call with the given query parameters and no body.
pub fn api_query_call(
    method: HttpMethod,
    url: String,
    query: Vec<(String, String)>,
    mode: ResponseMode,
) -> (r: ApiRequest)
    ensures
        r@ == request(method, url@, pairs_view(query@), None, mode),
{
    ApiRequest { method, url, query, body: None, mode }
}

/// Appends the query parameter `name=value`.
pub fn push_param(query: &mut Vec<(String, String)>, name: &str, value: String)
    ensures
        pairs_view(final(query)@) == pairs_view(old(query)@).push((name@, value@)),
{
    query.push((String::from_str(name), value));
    proof {
        assert(pairs_view(query@) =~= pairs_view(old(query)@).push((name@, value@)));
    }
}

/// `a` followed by `b`.
pub fn join2(a: &str, b: &str) -> (s: String)
    ensures
        s@ == a@ + b@,
{
    let mut s = String::from_str(a);
    s.append(b);
    s
}

/// `a`, `b` and `c` one after the other.
pub fn join3(a: &str, b: &str, c: &str) -> (s: String)
    ensures
        s@ == a@ + b@ + c@,
{
    let mut s = join2(a, b);
    s.append(c);
    s
}

/// `a`, `b`, `c` and `d` one after the other.
pub fn join4(a: &str, b: &str, c: &str, d: &str) -> (s: String)
    ensures
        s@ == a@ + b@ + c@ + d@,
{
    let mut s = join3(a, b, c);
    s.append(d);
    s
}

/// `a`, `b`, `c`, `d` and `e` one after the other.
pub fn join5(a: &str, b: &str, c: &str, d: &str, e: &str) -> (s: String)
    ensures
        s@ == a@ + b@ + c@ + d@ + e@,
{
    let mut s = join4(a, b, c, d);
    s.append(e);
    s
}

/// `a` to `g` one after the other.
pub fn join7(a: &str, b: &str, c: &str, d: &str, e: &str, f: &str, g: &str) -> (s: String)
    ensures
        s@ == a@ + b@ + c@ + d@ + e@ + f@ + g@,
{
    let mut s = join5(a, b, c, d, e);
    s.append(f);
    s.append(g);
    s
}

/// The body of a call: the object with the given fields.
pub fn object_body(fields: Vec<(String, JsonValue)>) -> (r: Option<JsonValue>)
    ensures
        body_view(r) == Some(Json::Object(fields_json(fields@))),
{
    Some(json_object(fields))
}

/// The step a response with `status` calls for.
pub open spec fn spec_response_step(mode: ResponseMode, status: u16) -> ResponseStep {
    if mode == ResponseMode::JsonOrNotFound && status == 404 {
        ResponseStep::NotFound
    } else if status >= 400 {
        ResponseStep::Failed
    } else if mode == ResponseMode::NoContent {
        ResponseStep::Finished
    } else {
        ResponseStep::ReadJson
    }
}

/// Decides what to do with a response, from its status alone.
pub fn response_step(mode: ResponseMode, status: u16) -> (step: ResponseStep)
    ensures
        step == spec_response_step(mode, status),
{
    if mode == ResponseMode::JsonOrNotFound && status == 404 {
        ResponseStep::NotFound
    } else if status >= 400 {
        ResponseStep::Failed
    } else if mode == ResponseMode::NoContent {
        ResponseStep::Finished
    } else {
        ResponseStep::ReadJson
    }
}

/// A status of 400 or above fails the call, whatever the mode, with the one
/// exception of 404 where a missing item is an answer; a status below 400
/// never fails it.
pub proof fn lemma_error_statuses(mode: ResponseMode, status: u16)
    ensures
        (spec_response_step(mode, status) == ResponseStep::Failed) <==> (status >= 400 && !(mode
            == ResponseMode::JsonOrNotFound && status == 404)),
        (spec_response_step(mode, status) == ResponseStep::NotFound) <==> (mode
            == ResponseMode::JsonOrNotFound && status == 404),
        status < 400 ==> (spec_response_step(mode, status) == ResponseStep::Finished <==> mode
            == ResponseMode::NoContent),
{
}

/// A server without a route answers 404, and every call built by
/// `json_call` (all the extended routes among them) reports that answer as
/// a failed call carrying the status, never as a missing item.
pub proof fn lemma_missing_route_fails(method: HttpMethod, url: Seq<char>, body: Option<Json>)
    ensures
        spec_response_step(json_call(method, url, body).mode, 404) == ResponseStep::Failed,
{
}

} // verus!
