//! The route table: a fixed set of (method, path) pairs, each mapped to one
//! handler. Anything unmatched is left to the server's default handling.

use vstd::prelude::*;
use vstd::string::StrSliceExecFns;

verus! {

/// The request methods the router distinguishes. Every registered route
/// answers `GET` only; the rest exist so a request can be routed at all.
#[derive(Clone, Copy, Debug, PartialEq, Eq, Structural)]
pub enum Method {
    Get,
    Head,
    Post,
    Put,
    Delete,
    Patch,
    Options,
}

/// The handlers a request can be routed to.
#[derive(Clone, Copy, Debug, PartialEq, Eq, Structural)]
pub enum Route {
    Index,
    ApiDocs,
    Health,
    Ping,
    GetIp,
}

/// Which handler, if any, serves a `method` request for `path`.
/// `None` means the server's default (a not-found response).
pub open spec fn spec_route(method: Method, path: Seq<char>) -> Option<Route> {
    match method {
        Method::Get => if path == "/"@ {
            Some(Route::Index)
        } else if path == "/api/"@ {
            Some(Route::ApiDocs)
        } else if path == "/api/health"@ {
            Some(Route::Health)
        } else if path == "/api/ping"@ {
            Some(Route::Ping)
        } else if path == "/api/ip"@ {
            Some(Route::GetIp)
        } else {
            None
        },
        _ => None,
    }
}

/// Character-by-character string equality, so routing can compare a request
/// path against the table's fixed paths.
pub fn str_eq(a: &str, b: &str) -> (r: bool)
    ensures
        r == (a@ == b@),
{
    let a_len = a.unicode_len();
    let b_len = b.unicode_len();
    if a_len != b_len {
        return false;
    }
    let mut i: usize = 0;
    while i < a_len
        invariant
            a_len == a@.len(),
            b_len == b@.len(),
            a_len == b_len,
            i <= a_len,
            forall|j: int| 0 <= j < i ==> a@[j] == b@[j],
        decreases a_len - i,
    {
        if a.get_char(i) != b.get_char(i) {
            return false;
        }
        i = i + 1;
    }
    proof {
        assert(a@ =~= b@);
    }
    true
}

/// Match a request against the route table.
pub fn route(method: Method, path: &str) -> (r: Option<Route>)
    ensures
        r == spec_route(method, path@),
{
    match method {
        Method::Get => if str_eq(path, "/") {
            Some(Route::Index)
        } else if str_eq(path, "/api/") {
            Some(Route::ApiDocs)
        } else if str_eq(path, "/api/health") {
            Some(Route::Health)
        } else if str_eq(path, "/api/ping") {
            Some(Route::Ping)
        } else if str_eq(path, "/api/ip") {
            Some(Route::GetIp)
        } else {
            None
        },
        _ => None,
    }
}

} // verus!
