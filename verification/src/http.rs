//! The plain description of one HTTP round trip.
//!
//! The library never performs a request itself: each operation yields an
//! [`HttpRequest`] value for the caller to execute, and takes back either
//! the decoded response or an [`ApiFailure`] describing how the round trip
//! failed.

use vstd::prelude::*;

verus! {

/// The HTTP method of a request.
#[derive(Debug, Clone, Copy, PartialEq, Eq, Structural)]
pub enum HttpMethod {
    Get,
    Post,
    Put,
    Delete,
}

/// Everything the caller needs to perform one request: method, absolute
/// URL, the accumulated static headers, an optional `Authorization`
/// header value, and an optional JSON body.
#[derive(Debug)]
pub struct HttpRequest {
    pub method: HttpMethod,
    pub url: String,
    pub headers: Vec<(String, String)>,
    pub authorization: Option<String>,
    pub body: Option<String>,
}

/// How a round trip failed, as the caller reports it back.
#[derive(Debug, Clone, Copy, PartialEq, Eq, Structural)]
pub enum ApiFailure {
    /// The service answered with this non-success HTTP status code.
    Status(u16),
    /// The request never completed, or the response could not be decoded.
    Transport,
}

/// Pins every field of a request: its method, the character views of its
/// URL, authorization value and body, and its header list.
pub open spec fn request_is(
    r: HttpRequest,
    method: HttpMethod,
    url: Seq<char>,
    headers: Seq<(String, String)>,
    authorization: Option<Seq<char>>,
    body: Option<Seq<char>>,
) -> bool {
    &&& r.method == method
    &&& r.url@ == url
    &&& r.headers@ == headers
    &&& match (r.authorization, authorization) {
        (Some(a), Some(b)) => a@ == b,
        (None, None) => true,
        _ => false,
    }
    &&& match (r.body, body) {
        (Some(a), Some(b)) => a@ == b,
        (None, None) => true,
        _ => false,
    }
}

} // verus!
