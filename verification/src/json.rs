//! The trusted boundary to the JSON serialization library.
//!
//! Whether a piece of text deserializes is a fact about the text alone, so
//! it is captured by the unspecified predicate [`json_wf`]; the verified
//! code around [`parse_json`] reasons in terms of that predicate.

use crate::HTTPError;
use vstd::prelude::*;

verus! {

#[verifier::external_type_specification]
#[verifier::external_body]
pub struct ExValue(serde_json::Value);

#[verifier::external_type_specification]
#[verifier::external_body]
pub struct ExJsonError(serde_json::Error);

/// Whether a string is a well-formed JSON document, that is, one the
/// serialization library deserializes successfully.
pub uninterp spec fn json_wf(s: Seq<char>) -> bool;

/// The document a well-formed string deserializes to.
pub uninterp spec fn json_value_of(s: Seq<char>) -> serde_json::Value;

/// The error the serialization library reports for a string that does not
/// deserialize.
pub uninterp spec fn json_error_of(s: Seq<char>) -> serde_json::Error;

/// The text a serialization failure renders as its own description.
pub uninterp spec fn json_error_text_of(e: serde_json::Error) -> Seq<char>;

/// The detail text reported for a string that does not deserialize.
pub open spec fn json_error_detail(s: Seq<char>) -> Seq<char> {
    json_error_text_of(json_error_of(s))
}

/// Relies on `serde_json::from_str::<Value>`: whether a string
/// deserializes, to which document, and with which error otherwise, all
/// depend on the string alone.
#[verifier::external_body]
pub(crate) fn parse_json(s: &str) -> (r: Result<serde_json::Value, serde_json::Error>)
    ensures
        r is Ok <==> json_wf(s@),
        r matches Ok(v) ==> v == json_value_of(s@),
        r matches Err(e) ==> e == json_error_of(s@),
{
    serde_json::from_str(s)
}

/// Relies on `serde_json::Error`'s `Display` implementation for the detail
/// text of a serialization failure: the text is a function of the error
/// value alone.
#[verifier::external_body]
fn json_error_string(e: &serde_json::Error) -> (r: String)
    ensures
        r@ == json_error_text_of(*e),
{
    format!("{}", e)
}

impl From<serde_json::Error> for HTTPError {
    /// Wraps a serialization failure, carrying its description as the
    /// detail.
    fn from(e: serde_json::Error) -> (r: HTTPError)
        ensures
            r matches HTTPError::Serialization(d) && d@ == json_error_text_of(e),
    {
        HTTPError::Serialization(json_error_string(&e))
    }
}

impl vstd::std_specs::convert::FromSpecImpl<serde_json::Error> for HTTPError {
    open spec fn obeys_from_spec() -> bool {
        false
    }

    open spec fn from_spec(e: serde_json::Error) -> HTTPError {
        arbitrary()
    }
}

} // verus!
