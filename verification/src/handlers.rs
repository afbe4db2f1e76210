//! The five handlers. Four are total functions returning fixed responses;
//! the fifth relays the outcome of the upstream IP-lookup call, which the
//! surrounding binary performs and hands in as a plain value.

use crate::response::{ContentType, Response, ResponseView};
use crate::routes::Route;
use vstd::prelude::*;
use vstd::string::StringExecFns;

verus! {

/// How the upstream call went: its body was read in full, the request
/// itself failed, or the request succeeded but the body could not be read.
pub enum FetchOutcome {
    Success(String),
    FetchError,
    ReadError,
}

/// The fixed greeting served at the root path.
pub open spec fn index_response() -> ResponseView {
    ResponseView {
        status: 200,
        content_type: ContentType::TextPlain,
        body: "Hello from Rust on Cloudflare!"@,
    }
}

/// `GET /`: the fixed greeting.
pub fn index() -> (r: Response)
    ensures
        r@ == index_response(),
{
    Response {
        status: 200,
        content_type: ContentType::TextPlain,
        body: String::from_str("Hello from Rust on Cloudflare!"),
    }
}

/// The fixed health report: service status and name, as a JSON object.
pub open spec fn health_response() -> ResponseView {
    ResponseView {
        status: 200,
        content_type: ContentType::ApplicationJson,
        body: "{\"status\":\"healthy\",\"service\":\"rust-container\"}"@,
    }
}

/// `GET /api/health`: the fixed health report.
pub fn health() -> (r: Response)
    ensures
        r@ == health_response(),
{
    Response {
        status: 200,
        content_type: ContentType::ApplicationJson,
        body: String::from_str("{\"status\":\"healthy\",\"service\":\"rust-container\"}"),
    }
}

/// The fixed liveness reply.
pub open spec fn ping_response() -> ResponseView {
    ResponseView { status: 200, content_type: ContentType::TextPlain, body: "pong"@ }
}

/// `GET /api/ping`: the fixed liveness reply.
pub fn ping() -> (r: Response)
    ensures
        r@ == ping_response(),
{
    Response {
        status: 200,
        content_type: ContentType::TextPlain,
        body: String::from_str("pong"),
    }
}

/// The fixed self-description: service name, version, and one descriptor per
/// endpoint, as a JSON object.
pub open spec fn api_docs_response() -> ResponseView {
    ResponseView {
        status: 200,
        content_type: ContentType::ApplicationJson,
        body: api_docs_body(),
    }
}

/// The self-description's body.
pub open spec fn api_docs_body() -> Seq<char> {
    "{\"service\":\"Rust Container API\",\"version\":\"1.0.0\",\"endpoints\":[{\"method\":\"GET\",\"path\":\"/api/health\",\"description\":\"Health check endpoint - returns service status\"},{\"method\":\"GET\",\"path\":\"/api/ping\",\"description\":\"Simple ping endpoint - returns 'pong'\"},{\"method\":\"GET\",\"path\":\"/api/ip\",\"description\":\"Get IP information from ipinfo.io\"}]}"@
}

/// `GET /api/`: the fixed self-description.
pub fn api_docs() -> (r: Response)
    ensures
        r@ == api_docs_response(),
{
    Response {
        status: 200,
        content_type: ContentType::ApplicationJson,
        body: String::from_str(
            "{\"service\":\"Rust Container API\",\"version\":\"1.0.0\",\"endpoints\":[{\"method\":\"GET\",\"path\":\"/api/health\",\"description\":\"Health check endpoint - returns service status\"},{\"method\":\"GET\",\"path\":\"/api/ping\",\"description\":\"Simple ping endpoint - returns 'pong'\"},{\"method\":\"GET\",\"path\":\"/api/ip\",\"description\":\"Get IP information from ipinfo.io\"}]}",
        ),
    }
}

/// The address the proxy handler's upstream call is sent to.
pub fn upstream_url() -> (r: &'static str)
    ensures
        r@ == "https://ipinfo.io/json"@,
{
    "https://ipinfo.io/json"
}

/// What the proxy handler returns for each outcome of the upstream call:
/// a read body is relayed byte for byte under status 200; either failure
/// collapses to status 500 with its fixed JSON error body.
pub open spec fn ip_response(outcome: FetchOutcome) -> ResponseView {
    match outcome {
        FetchOutcome::Success(body) => ResponseView {
            status: 200,
            content_type: ContentType::ApplicationJson,
            body: body@,
        },
        FetchOutcome::FetchError => ResponseView {
            status: 500,
            content_type: ContentType::ApplicationJson,
            body: "{\"error\":\"Failed to fetch IP info\"}"@,
        },
        FetchOutcome::ReadError => ResponseView {
            status: 500,
            content_type: ContentType::ApplicationJson,
            body: "{\"error\":\"Failed to read response\"}"@,
        },
    }
}

/// `GET /api/ip`: relay the upstream call's body, or one of the two fixed
/// error bodies. No distinction is made beyond the outcome handed in: the
/// upstream's own status code is never propagated.
pub fn get_ip(outcome: FetchOutcome) -> (r: Response)
    ensures
        r@ == ip_response(outcome),
{
    match outcome {
        FetchOutcome::Success(body) => Response {
            status: 200,
            content_type: ContentType::ApplicationJson,
            body,
        },
        FetchOutcome::FetchError => Response {
            status: 500,
            content_type: ContentType::ApplicationJson,
            body: String::from_str("{\"error\":\"Failed to fetch IP info\"}"),
        },
        FetchOutcome::ReadError => Response {
            status: 500,
            content_type: ContentType::ApplicationJson,
            body: String::from_str("{\"error\":\"Failed to read response\"}"),
        },
    }
}

/// The response of the whole service, as a function of the route taken and,
/// for the proxy route alone, of the upstream call's outcome.
pub open spec fn response_of(route: Route, outcome: FetchOutcome) -> ResponseView {
    match route {
        Route::Index => index_response(),
        Route::ApiDocs => api_docs_response(),
        Route::Health => health_response(),
        Route::Ping => ping_response(),
        Route::GetIp => ip_response(outcome),
    }
}

/// Whether two outcomes of the upstream call went the same way: both read a
/// body, both failed to fetch, or both failed to read.
pub open spec fn same_outcome_kind(o1: FetchOutcome, o2: FetchOutcome) -> bool {
    match (o1, o2) {
        (FetchOutcome::Success(_), FetchOutcome::Success(_)) => true,
        (FetchOutcome::FetchError, FetchOutcome::FetchError) => true,
        (FetchOutcome::ReadError, FetchOutcome::ReadError) => true,
        _ => false,
    }
}

/// Repeating a request yields the same class of response: no state
/// accumulates, so the response depends on the route alone — and, on the
/// proxy route, on how the upstream call went. Two requests for the same
/// route whose upstream outcomes went the same way get the same status and
/// content type, and on every route but the proxy the very same response.
pub proof fn lemma_requests_idempotent(route: Route, o1: FetchOutcome, o2: FetchOutcome)
    requires
        same_outcome_kind(o1, o2),
    ensures
        response_of(route, o1).status == response_of(route, o2).status,
        response_of(route, o1).content_type == response_of(route, o2).content_type,
        route != Route::GetIp ==> response_of(route, o1) == response_of(route, o2),
{
}

} // verus!
