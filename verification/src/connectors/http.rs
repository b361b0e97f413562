//! HTTP requests that connectors ask to be sent.
use vstd::prelude::*;
use crate::json::JsonValue;

verus! {

/// The HTTP method of a request.
#[derive(PartialEq, Eq, Structural, Clone, Debug)]
pub enum Method {
    Get,
    Post,
}

/// The body of a request.
#[derive(Debug)]
pub enum Body {
    Empty,
    Json(JsonValue),
    Form(Vec<(String, String)>),
}

/// A request to send.
#[derive(Debug)]
pub struct HttpRequest {
    pub method: Method,
    pub url: String,
    pub headers: Vec<(String, String)>,
    pub query: Vec<(String, String)>,
    pub body: Body,
}

/// The pair is `(k, v)`.
pub open spec fn pair_is(p: (String, String), k: Seq<char>, v: Seq<char>) -> bool {
    p.0@ == k && p.1@ == v
}

/// The pairs are exactly `(k, v)`.
pub open spec fn pairs1(ps: Seq<(String, String)>, k: Seq<char>, v: Seq<char>) -> bool {
    ps.len() == 1 && pair_is(ps[0], k, v)
}

/// The pairs are exactly `(k1, v1), (k2, v2)`.
pub open spec fn pairs2(
    ps: Seq<(String, String)>,
    k1: Seq<char>,
    v1: Seq<char>,
    k2: Seq<char>,
    v2: Seq<char>,
) -> bool {
    ps.len() == 2 && pair_is(ps[0], k1, v1) && pair_is(ps[1], k2, v2)
}

/// A pair of strings.
pub fn pair(k: &str, v: &str) -> (p: (String, String))
    ensures
        pair_is(p, k@, v@),
{
    (k.to_owned(), v.to_owned())
}

/// The header value `Bearer <token>`.
pub open spec fn bearer(token: Seq<char>) -> Seq<char> {
    "Bearer "@ + token
}

/// The header value `Bearer <token>`.
pub fn bearer_value(token: &str) -> (r: String)
    ensures
        r@ == bearer(token@),
{
    let mut r = "Bearer ".to_owned();
    r.append(token);
    r
}

/// A request with only an authorization header.
pub fn bearer_request(method: Method, url: String, token: &str) -> (r: HttpRequest)
    ensures
        r.method == method,
        r.url == url,
        pairs1(r.headers@, "Authorization"@, bearer(token@)),
        r.query@.len() == 0,
        r.body is Empty,
{
    let mut headers = Vec::new();
    headers.push(("Authorization".to_owned(), bearer_value(token)));
    HttpRequest { method, url, headers, query: Vec::new(), body: Body::Empty }
}

} // verus!
