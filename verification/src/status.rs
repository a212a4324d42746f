//! The canonical reason phrases for HTTP status codes.
//!
//! The registered phrase is rendered after the status code in error text;
//! a code without one is rendered as `<unknown status code>`, matching how
//! the transport layer displays a status.

use vstd::prelude::*;

verus! {

/// The reason phrase registered for a status code, if any. A code outside
/// the valid range or without a registered phrase has none.
pub uninterp spec fn status_reason_of(code: u16) -> Option<Seq<char>>;

/// Relies on `reqwest::StatusCode::from_u16` and `canonical_reason`: the
/// registered reason phrase is a static table lookup, a function of the
/// code alone, and codes outside `100..=999` are invalid and have no
/// phrase.
#[verifier::external_body]
pub(crate) fn status_reason(code: u16) -> (r: Option<&'static str>)
    ensures
        r is Some <==> status_reason_of(code) is Some,
        r matches Some(p) ==> status_reason_of(code) == Some(p@),
{
    match reqwest::StatusCode::from_u16(code) {
        Ok(status) => status.canonical_reason(),
        Err(_) => None,
    }
}

} // verus!
