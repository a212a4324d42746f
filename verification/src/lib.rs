//! Building blocks for HTTP/S clients.
//!
//! A configured [`HTTPClientFactory`] produces transport clients that all
//! identify themselves with the same user agent string. The [`HTTPError`]
//! enum unifies the failure kinds an HTTP call can run into, and the
//! [`service`] module defines the `Get`/`Post` capability traits together
//! with a file-backed test double.

pub mod auth;
pub mod convention;
pub mod json;
pub mod service;
pub mod status;
pub mod text;

pub use crate::auth::Auth;
pub use crate::service::HttpGet;
pub use crate::service::HttpPost;
pub use crate::service::HttpService;

use vstd::prelude::*;

verus! {

/// An HTTP client created by an [`HTTPClientFactory`].
///
/// This is identical to a [`reqwest::Client`], but that could change in the
/// future, so consumers of this crate are encouraged to use this type alias
/// instead of referencing `reqwest::Client` directly.
pub type HTTPClient = reqwest::Client;

#[verifier::external_type_specification]
#[verifier::external_body]
pub struct ExClient(reqwest::Client);

/// A character that may appear in an HTTP header value, and hence in a user
/// agent string: anything but an ASCII control character or delete, with
/// horizontal tab allowed.
pub open spec fn is_agent_char(c: char) -> bool {
    (c as u32 >= 32 && c as u32 != 127) || c == '\t'
}

/// A string that the transport layer accepts as a user agent header value.
pub open spec fn valid_user_agent(s: Seq<char>) -> bool {
    forall|i: int| 0 <= i < s.len() ==> is_agent_char(s[i])
}

/// Decides [`valid_user_agent`] for a string.
pub fn is_valid_user_agent(s: &str) -> (b: bool)
    ensures
        b == valid_user_agent(s@),
{
    let n = s.unicode_len();
    let mut i: usize = 0;
    while i < n
        invariant
            i <= n,
            n == s@.len(),
            forall|j: int| 0 <= j < i ==> is_agent_char(s@[j]),
        decreases n - i,
    {
        let c = s.get_char(i);
        if !((c as u32 >= 32 && c as u32 != 127) || c == '\t') {
            return false;
        }
        i = i + 1;
    }
    true
}

/// The user agent string a client identifies itself with on every request
/// it issues.
pub uninterp spec fn client_agent_of(c: reqwest::Client) -> Seq<char>;

/// Relies on `reqwest::ClientBuilder`: `user_agent` accepts any string whose
/// characters are legal in a header value (the `http` crate takes every byte
/// except the ASCII control characters and delete, with horizontal tab
/// allowed) and installs it as the default `User-Agent` header of every
/// request the built client issues; `build` then fails only when a TLS
/// backend or the system resolver cannot be initialized. That is an
/// unrecoverable host condition, treated as fatal here rather than surfaced
/// as a recoverable error.
#[verifier::external_body]
fn build_client(user_agent: &str) -> (r: reqwest::Client)
    requires
        valid_user_agent(user_agent@),
    ensures
        client_agent_of(r) == user_agent@,
{
    reqwest::ClientBuilder::new()
        .user_agent(user_agent)
        .build()
        .expect("could not create a new HTTP client")
}

/// Produces new HTTP clients from a template.
///
/// The factory stores a user agent string once; every client it creates
/// identifies itself with that string.
#[derive(Debug)]
pub struct HTTPClientFactory {
    user_agent: String,
}

impl View for HTTPClientFactory {
    type V = Seq<char>;

    closed spec fn view(&self) -> Seq<char> {
        self.user_agent@
    }
}

impl HTTPClientFactory {
    /// Create a new factory using the given package name and version as a
    /// basis for the clients' user agents.
    pub fn new(pkg_name: &str, pkg_version: &str) -> (r: Self)
        ensures
            r@ == pkg_name@ + " v"@ + pkg_version@,
    {
        let user_agent = String::from_str(pkg_name).concat(" v").concat(pkg_version);
        HTTPClientFactory::with_user_agent(user_agent.as_str())
    }

    /// Create a new factory that will produce clients with the given user
    /// agent, taken verbatim.
    pub fn with_user_agent(user_agent: &str) -> (r: Self)
        ensures
            r@ == user_agent@,
    {
        Self { user_agent: String::from_str(user_agent) }
    }

    /// Creates a new client that can be used to make HTTP requests,
    /// configured to identify itself with this factory's user agent.
    ///
    /// Client construction is treated as infallible: the only documented
    /// failure conditions of the underlying builder are unrecoverable host
    /// misconfigurations, on which the process aborts.
    pub fn create(&self) -> (r: HTTPClient)
        requires
            valid_user_agent(self@),
        ensures
            client_agent_of(r) == self@,
    {
        build_client(self.user_agent.as_str())
    }

    /// The user agent used in HTTP clients produced by this factory.
    pub fn user_agent(&self) -> (r: &str)
        ensures
            r@ == self@,
    {
        self.user_agent.as_str()
    }
}

/// The result of an HTTP request.
///
/// Often times, the type argument `T` is either a `String` or a
/// deserialized JSON document.
pub type HTTPResult<T> = Result<T, HTTPError>;

/// Indicates an error has occurred when making an HTTP call.
#[derive(Debug)]
pub enum HTTPError {
    /// An error that occurred while making an HTTP request.
    Request(String),
    /// An error that occurred while serializing a POST body or
    /// deserializing a response body.
    Serialization(String),
    /// An unsuccessful HTTP status code in an HTTP response.
    Http(u16),
    /// A missing Content-Type header in a response.
    MissingContentType,
    /// An invalid Content-Type header.
    InvalidContentType(String),
    /// A Content-Type that is not understood by the service.
    UnexpectedContentType(String),
}

impl HTTPError {
    /// The text [`message`](Self::message) renders for this error.
    pub open spec fn message_spec(&self) -> Seq<char> {
        match self {
            HTTPError::Request(d) => "Error while making or processing an HTTP request: "@ + d@,
            HTTPError::Serialization(d) => "Error serializing POST body: "@ + d@,
            HTTPError::Http(code) => "Request returned HTTP "@ + crate::text::dec_digits(
                *code as int,
            ) + " "@ + (match crate::status::status_reason_of(*code) {
                Some(p) => p,
                None => "<unknown status code>"@,
            }),
            HTTPError::MissingContentType => "Missing Content-Type header"@,
            HTTPError::InvalidContentType(d) => "Invalid Content-Type header value: "@ + d@,
            HTTPError::UnexpectedContentType(v) => "Unexpected content type: "@ + v@,
        }
    }

    /// Renders the error as text.
    pub fn message(&self) -> (r: String)
        ensures
            r@ == self.message_spec(),
    {
        match self {
            HTTPError::Request(d) => String::from_str(
                "Error while making or processing an HTTP request: ",
            ).concat(d.as_str()),
            HTTPError::Serialization(d) => String::from_str("Error serializing POST body: ").concat(
                d.as_str(),
            ),
            HTTPError::Http(code) => {
                let digits = crate::text::u16_to_string(*code);
                let base = String::from_str("Request returned HTTP ").concat(
                    digits.as_str(),
                ).concat(" ");
                match crate::status::status_reason(*code) {
                    Some(p) => base.concat(p),
                    None => base.concat("<unknown status code>"),
                }
            },
            HTTPError::MissingContentType => String::from_str("Missing Content-Type header"),
            HTTPError::InvalidContentType(d) => String::from_str(
                "Invalid Content-Type header value: ",
            ).concat(d.as_str()),
            HTTPError::UnexpectedContentType(v) => String::from_str(
                "Unexpected content type: ",
            ).concat(v.as_str()),
        }
    }
}

#[verifier::external_type_specification]
#[verifier::external_body]
pub struct ExReqwestError(reqwest::Error);

/// The text a transport failure renders as its own description.
pub uninterp spec fn transport_text_of(e: reqwest::Error) -> Seq<char>;

/// Relies on `reqwest::Error`'s `Display` implementation for the detail
/// text of a transport failure: the text is a function of the error value
/// alone.
#[verifier::external_body]
fn transport_error_string(e: &reqwest::Error) -> (r: String)
    ensures
        r@ == transport_text_of(*e),
{
    format!("{}", e)
}

impl From<reqwest::Error> for HTTPError {
    /// Wraps a transport failure, carrying its description as the detail.
    fn from(e: reqwest::Error) -> (r: HTTPError)
        ensures
            r matches HTTPError::Request(d) && d@ == transport_text_of(e),
    {
        HTTPError::Request(transport_error_string(&e))
    }
}

impl vstd::std_specs::convert::FromSpecImpl<reqwest::Error> for HTTPError {
    open spec fn obeys_from_spec() -> bool {
        false
    }

    open spec fn from_spec(e: reqwest::Error) -> HTTPError {
        arbitrary()
    }
}

#[verifier::external_type_specification]
#[verifier::external_body]
pub struct ExToStrError(reqwest::header::ToStrError);

/// Relies on `reqwest::header::ToStrError`'s `Display` implementation,
/// which writes one fixed string.
#[verifier::external_body]
fn to_str_error_string(e: &reqwest::header::ToStrError) -> (r: String)
    ensures
        r@ == "failed to convert header to a str"@,
{
    format!("{}", e)
}

impl From<reqwest::header::ToStrError> for HTTPError {
    /// Wraps a Content-Type header value that is not valid text.
    fn from(e: reqwest::header::ToStrError) -> (r: HTTPError)
        ensures
            r matches HTTPError::InvalidContentType(d) && d@ == "failed to convert header to a str"@,
    {
        HTTPError::InvalidContentType(to_str_error_string(&e))
    }
}

impl vstd::std_specs::convert::FromSpecImpl<reqwest::header::ToStrError> for HTTPError {
    open spec fn obeys_from_spec() -> bool {
        false
    }

    open spec fn from_spec(e: reqwest::header::ToStrError) -> HTTPError {
        arbitrary()
    }
}

} // verus!
