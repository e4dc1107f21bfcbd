//! The boundary with `reqwest`: the only thing the library reads from a
//! failed exchange is the status it may carry.

use vstd::prelude::*;

verus! {

/// `reqwest::Error`, the reason for which an exchange with an upstream
/// failed.
#[verifier::external_type_specification]
#[verifier::external_body]
pub struct ExTransportError(reqwest::Error);

/// The status code that a failed exchange carries, as
/// `reqwest::Error::status` reports it, as a number.
pub uninterp spec fn failure_status(error: reqwest::Error) -> Option<u16>;

/// Calls `reqwest::Error::status` and turns the code into its number with
/// `StatusCode::as_u16`. Trusted: the result is `failure_status(error)`.
#[verifier::external_body]
pub(crate) fn status_of_failure(error: &reqwest::Error) -> (r: Option<u16>)
    ensures
        r == failure_status(*error),
{
    match error.status() {
        Some(code) => Some(code.as_u16()),
        None => None,
    }
}

} // verus!
