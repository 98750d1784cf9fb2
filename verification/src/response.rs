//! Response construction: every resolution ends in a well-formed response.
//!
//! Success is a 200 whose body is exactly the bytes that were read, with a
//! permissive cross-origin header. Every failure — no loaded project, no
//! matching route, or a failed read — collapses to a 404 with the short
//! body `Unknown path`; only the caller's log stream tells them apart.

use vstd::prelude::*;
use vstd::string::StrSliceExecFns;
use vstd::string::StringExecFns;
use vstd::string::StringSliceAdditionalSpecFns;

use crate::resolve::ResolveError;

verus! {

/// A response: a status code, header pairs, and a byte body.
pub struct Response {
    pub status: u16,
    pub headers: Vec<(String, String)>,
    pub body: Vec<u8>,
}

/// The body of every failure response.
pub open spec fn spec_unknown_path_body() -> Seq<u8> {
    "Unknown path".spec_bytes()
}

/// The single header of a success response.
pub open spec fn spec_cors_header(h: (String, String)) -> bool {
    h.0@ == "Access-Control-Allow-Origin"@ && h.1@ == "*"@
}

/// A response is the success for `data` exactly when it carries status 200,
/// `data` itself as body, and the one permissive cross-origin header.
pub open spec fn spec_is_success_response(r: Response, data: Seq<u8>) -> bool {
    r.status == 200 && r.body@ == data && r.headers@.len() == 1 && spec_cors_header(r.headers@[0])
}

/// A response is a failure exactly when it carries status 404, the
/// `Unknown path` body, and no headers.
pub open spec fn spec_is_failure_response(r: Response) -> bool {
    r.status == 404 && r.body@ == spec_unknown_path_body() && r.headers@.len() == 0
}

/// Builds the 200 response for bytes read from the resolved file.
pub fn ok_response(data: Vec<u8>) -> (r: Response)
    ensures
        spec_is_success_response(r, data@),
{
    let mut headers: Vec<(String, String)> = Vec::new();
    headers.push((String::from_str("Access-Control-Allow-Origin"), String::from_str("*")));
    Response { status: 200, headers, body: data }
}

/// Builds the 404 response every failure collapses to.
pub fn not_found_response() -> (r: Response)
    ensures
        spec_is_failure_response(r),
{
    Response { status: 404, headers: Vec::new(), body: "Unknown path".as_bytes_vec() }
}

/// Builds the response for the outcome of reading the resolved file:
/// the exact bytes with status 200 when the read succeeded, the 404
/// failure response when it did not — and never anything else, so no read
/// outcome can escalate past a not-found.
pub fn response_for_read(read: Option<Vec<u8>>) -> (r: Response)
    ensures
        match read {
            Some(data) => spec_is_success_response(r, data@),
            None => spec_is_failure_response(r),
        },
{
    match read {
        Some(data) => ok_response(data),
        None => not_found_response(),
    }
}

/// Builds the response for a failed resolution: either error kind collapses
/// to the same 404.
pub fn response_for_error(err: ResolveError) -> (r: Response)
    ensures
        spec_is_failure_response(r),
{
    match err {
        ResolveError::NoProjectLoaded => not_found_response(),
        ResolveError::RouteNotFound => not_found_response(),
    }
}

} // verus!
