//! The fetcher's answer: when one liveness probe counts as a success.
//!
//! The probe itself, one GET request with a timeout, is the caller's. It
//! tells the library how the request ended and gets one boolean back:
//! nothing else of a fetch goes on from here.

use vstd::prelude::*;

verus! {

/// The client signature that every request carries.
pub const USER_AGENT: &'static str = "facebookexternalhit";

/// The seconds that a request may take where nothing else is asked for.
pub const DEFAULT_TIMEOUT_SECS: u64 = 30;

/// How one request ended.
#[derive(Debug, PartialEq, Eq)]
pub enum FetchOutcome {
    /// A response came, with this status code.
    Status(u16),
    /// No response came: a timeout, a name that did not resolve, a refused
    /// connection, a failed handshake. The message says which.
    Failed(String),
}

/// The status codes of the success class: 200 to 399.
pub open spec fn is_success_status(code: u16) -> bool {
    200 <= code <= 399
}

/// What a [`FetchOutcome`] means for the output row: a success where a
/// response came with a status of the success class, a failure otherwise.
/// A status outside the class and a request without a response are not
/// told apart.
pub open spec fn outcome_succeeded(outcome: FetchOutcome) -> bool {
    match outcome {
        FetchOutcome::Status(code) => is_success_status(code),
        FetchOutcome::Failed(_) => false,
    }
}

/// Whether `code` is a status of the success class.
pub fn status_is_success(code: u16) -> (success: bool)
    ensures
        success == is_success_status(code),
{
    200 <= code && code <= 399
}

/// Whether the fetch that ended with `outcome` succeeded.
pub fn fetch_succeeded(outcome: &FetchOutcome) -> (success: bool)
    ensures
        success == outcome_succeeded(*outcome),
{
    match outcome {
        FetchOutcome::Status(code) => status_is_success(*code),
        FetchOutcome::Failed(_) => false,
    }
}

} // verus!
