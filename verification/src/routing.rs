//! The route table and request dispatch.
//!
//! There is exactly one route: a GET of `/` answers with status 200 and the
//! fixed body `Rust backend is running`. Every other path answers 404 and
//! every other method on `/` answers 405, each with an empty body — the
//! default fallback behaviour of common HTTP frameworks, which this server
//! deliberately inherits rather than customises.

use vstd::prelude::*;

verus! {

/// An HTTP request method.
#[derive(Clone, Copy, PartialEq, Eq, Structural, Debug)]
pub enum Method {
    Get,
    Post,
    Put,
    Delete,
    Head,
    Options,
    Patch,
}

/// An HTTP response: a status code and a body.
pub struct Response {
    /// The HTTP status code.
    pub status: u16,
    /// The response body, as UTF-8 text.
    pub body: String,
}

/// The fixed body that a GET of the root path returns.
pub open spec fn root_body_spec() -> Seq<char> {
    "Rust backend is running"@
}

/// The status code the server answers with: 200 for a GET of `/`,
/// 405 for any other method on `/`, and 404 for any other path.
pub open spec fn spec_status(m: Method, path: Seq<char>) -> u16 {
    if path == "/"@ {
        if m == Method::Get {
            200u16
        } else {
            405u16
        }
    } else {
        404u16
    }
}

/// The body the server answers with: the fixed string for a GET of `/`,
/// and an empty body on every fallback answer.
pub open spec fn spec_body(m: Method, path: Seq<char>) -> Seq<char> {
    if path == "/"@ && m == Method::Get {
        root_body_spec()
    } else {
        Seq::empty()
    }
}

/// The body of the one registered handler.
pub fn root_body() -> (r: String)
    ensures
        r@ == root_body_spec(),
{
    "Rust backend is running".to_owned()
}

/// Whether a request path names the one registered route.
fn path_is_root(path: &str) -> (r: bool)
    ensures
        r == (path@ == "/"@),
{
    let left: String = path.to_owned();
    let right: String = "/".to_owned();
    left == right
}

/// Dispatch one request against the route table: the answer for a GET of `/`
/// is status 200 with the fixed body; any other method on `/` falls back to
/// 405 and any other path to 404, both with an empty body.
pub fn handle(m: Method, path: &str) -> (r: Response)
    ensures
        r.status == spec_status(m, path@),
        r.body@ == spec_body(m, path@),
{
    if path_is_root(path) {
        if m == Method::Get {
            Response { status: 200, body: root_body() }
        } else {
            Response { status: 405, body: String::new() }
        }
    } else {
        Response { status: 404, body: String::new() }
    }
}

/// Whether `r` is the answer the route table gives for method `m` on `path`.
pub open spec fn response_matches(r: Response, m: Method, path: Seq<char>) -> bool {
    &&& r.status == spec_status(m, path)
    &&& r.body@ == spec_body(m, path)
}

/// Dispatch a batch of requests, one response per request. Requests share no
/// state: each response is a function of its own request alone, whatever
/// stands before or after it in the batch.
pub fn handle_all(requests: &Vec<(Method, String)>) -> (rs: Vec<Response>)
    ensures
        rs@.len() == requests@.len(),
        forall|i: int|
            0 <= i < requests@.len() ==> #[trigger] response_matches(
                rs@[i],
                requests@[i].0,
                requests@[i].1@,
            ),
{
    let mut rs: Vec<Response> = Vec::new();
    let mut idx: usize = 0;
    while idx < requests.len()
        invariant
            idx <= requests@.len(),
            rs@.len() == idx,
            forall|i: int|
                0 <= i < idx ==> #[trigger] response_matches(
                    rs@[i],
                    requests@[i].0,
                    requests@[i].1@,
                ),
        decreases requests@.len() - idx,
    {
        let req = &requests[idx];
        let r = handle(req.0, req.1.as_str());
        rs.push(r);
        idx = idx + 1;
    }
    rs
}

/// The responses to a sequence of requests: one per request, each a function
/// of its own request alone.
pub open spec fn spec_responses(reqs: Seq<(Method, Seq<char>)>) -> Seq<(u16, Seq<char>)> {
    reqs.map(|i: int, r: (Method, Seq<char>)| (spec_status(r.0, r.1), spec_body(r.0, r.1)))
}

/// Root route correctness: a GET of `/` answers status 200 with the fixed
/// body, wherever it stands in any sequence of requests — repetition does
/// not change the answer.
pub proof fn lemma_root_route_correct(reqs: Seq<(Method, Seq<char>)>, i: int)
    requires
        0 <= i < reqs.len(),
        reqs[i] == (Method::Get, "/"@),
    ensures
        spec_responses(reqs)[i] == (200u16, root_body_spec()),
{
}

/// Unknown route behaviour: any request whose path is not `/` answers 404 —
/// a client error status — with an empty body.
pub proof fn lemma_unknown_route(m: Method, path: Seq<char>)
    requires
        path != "/"@,
    ensures
        spec_status(m, path) == 404,
        400 <= spec_status(m, path) < 500,
        spec_body(m, path) == Seq::<char>::empty(),
{
}

/// Method mismatch: any method other than GET on `/` answers 405 — never
/// 200 — with an empty body.
pub proof fn lemma_method_mismatch(m: Method)
    requires
        m != Method::Get,
    ensures
        spec_status(m, "/"@) == 405,
        spec_status(m, "/"@) != 200,
        spec_body(m, "/"@) == Seq::<char>::empty(),
{
}

/// Concurrent root requests: in a batch of any size made only of GETs of
/// `/`, every response is the same success — none depends on another.
pub proof fn lemma_concurrent_root_requests(reqs: Seq<(Method, Seq<char>)>)
    requires
        forall|i: int| 0 <= i < reqs.len() ==> reqs[i] == (Method::Get, "/"@),
    ensures
        spec_responses(reqs).len() == reqs.len(),
        forall|i: int|
            0 <= i < reqs.len() ==> #[trigger] spec_responses(reqs)[i] == (
                200u16,
                root_body_spec(),
            ),
        forall|i: int, j: int|
            0 <= i < reqs.len() && 0 <= j < reqs.len() ==> #[trigger] spec_responses(reqs)[i]
                == #[trigger] spec_responses(reqs)[j],
{
    assert forall|i: int| 0 <= i < reqs.len() implies #[trigger] spec_responses(reqs)[i] == (
        200u16,
        root_body_spec(),
    ) by {
        assert(reqs[i] == (Method::Get, "/"@));
    }
}

/// No persistence across requests: the response to a request appended after
/// any number of prior requests is the same function of that request alone.
pub proof fn lemma_no_persistence(prior: Seq<(Method, Seq<char>)>, m: Method, path: Seq<char>)
    ensures
        spec_responses(prior.push((m, path)))[prior.len() as int] == (
            spec_status(m, path),
            spec_body(m, path),
        ),
{
    assert(prior.push((m, path))[prior.len() as int] == (m, path));
}

} // verus!
