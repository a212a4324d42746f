//! Traits for communicating with HTTP servers.
//!
//! In this context, a "service" is a mechanism for communicating with a
//! remote HTTP server: it provides a uniform interface for making GET and
//! POST requests and receiving an HTTP response. API clients that take a
//! generic service can be exercised in unit tests with a test double, such
//! as [`testing::HttpTestService`], instead of a real connector.
//!
//! Each capability trait declares a readiness predicate along with its
//! request method; an implementation defines the predicate to say when a
//! request may be issued (the file-backed test double, for example, demands
//! that the fixture backing the request exists).

pub mod testing;

use crate::auth::Auth;
use crate::HTTPResult;
use vstd::prelude::*;

verus! {

/// An [HTTP service](HttpService) that only makes HTTP GET requests.
pub trait HttpGet {
    /// When a GET request for `uri` may be issued.
    spec fn get_ready(&self, uri: Seq<char>) -> bool;

    /// Performs a GET request to the given URI and returns the raw body.
    fn get(&self, uri: &str) -> (r: HTTPResult<String>)
        requires
            self.get_ready(uri@),
    ;
}

/// An [HTTP service](HttpService) that only makes HTTP POST requests.
pub trait HttpPost {
    /// When a POST request for `uri` may be issued.
    spec fn post_ready(&self, uri: Seq<char>) -> bool;

    /// Send a POST request to `uri` with the JSON document `data` as the
    /// request body, and deserialize the response body into a JSON
    /// document.
    ///
    /// `auth` is made available to the implementation as authentication
    /// metadata; the exact mechanism is implementation-defined.
    fn post(&self, uri: &str, auth: &Auth, data: &serde_json::Value) -> (r: HTTPResult<
        serde_json::Value,
    >)
        requires
            self.post_ready(uri@),
    ;
}

/// A service for making calls to an HTTP server and handling responses.
///
/// This trait is automatically adopted by any type that implements both
/// [`HttpGet`] and [`HttpPost`]; implementers never declare it themselves.
pub trait HttpService: HttpGet + HttpPost {

}

impl<T: HttpGet + HttpPost> HttpService for T {

}

} // verus!
