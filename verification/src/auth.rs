//! An opaque credential passed along with authenticated requests.

use vstd::prelude::*;

verus! {

/// An API credential handed to a service when making authenticated calls.
///
/// The capability traits only guarantee that the credential is made
/// available to the implementation; how it is translated into wire-level
/// authentication is implementation-defined.
#[derive(Debug)]
pub struct Auth {
    api_key: String,
}

impl View for Auth {
    type V = Seq<char>;

    closed spec fn view(&self) -> Seq<char> {
        self.api_key@
    }
}

impl Auth {
    /// Wraps the given API key.
    pub fn new(api_key: &str) -> (r: Auth)
        ensures
            r@ == api_key@,
    {
        Auth { api_key: String::from_str(api_key) }
    }

    /// The wrapped API key.
    pub fn api_key(&self) -> (r: &str)
        ensures
            r@ == self@,
    {
        self.api_key.as_str()
    }
}

} // verus!
