//! What the HTTP transport, `reqwest`, reports of a request that failed.

use crate::client::{classify, failure_of, Failure, Fault};
use vstd::prelude::*;

verus! {

/// `reqwest::Error`, what the transport hands back where a request failed.
#[verifier::external_type_specification]
#[verifier::external_body]
pub struct ExTransportError(reqwest::Error);

/// Whether a timeout stands among the causes of `error`.
pub uninterp spec fn timeout_in(error: reqwest::Error) -> bool;

/// Whether a failure to connect stands among the causes of `error`.
pub uninterp spec fn connect_in(error: reqwest::Error) -> bool;

/// Whether `error` was made from the status of a response.
pub uninterp spec fn status_in(error: reqwest::Error) -> bool;

/// `reqwest::Error::is_timeout`: whether a timeout stands among the causes
/// of the error, which the error alone decides.
#[verifier::external_body]
fn is_timeout(error: &reqwest::Error) -> (b: bool)
    ensures
        b == timeout_in(*error),
{
    error.is_timeout()
}

/// `reqwest::Error::is_connect`: whether a failure to connect stands among
/// the causes of the error, which the error alone decides.
#[verifier::external_body]
fn is_connect(error: &reqwest::Error) -> (b: bool)
    ensures
        b == connect_in(*error),
{
    error.is_connect()
}

/// `reqwest::Error::is_status`: whether the error was made from a response's
/// status, which the error alone decides.
#[verifier::external_body]
fn is_status(error: &reqwest::Error) -> (b: bool)
    ensures
        b == status_in(*error),
{
    error.is_status()
}

/// What the transport reports of `error`.
pub open spec fn fault_in(error: reqwest::Error) -> Fault {
    Fault {
        timed_out: timeout_in(error),
        unreachable: connect_in(error),
        bad_status: status_in(error),
    }
}

/// The kind of failure that a transport error is: the kind of the fault that
/// the transport reports of it.
pub fn diagnose(error: &reqwest::Error) -> (f: Failure)
    ensures
        f == failure_of(fault_in(*error)),
{
    let fault = Fault {
        timed_out: is_timeout(error),
        unreachable: is_connect(error),
        bad_status: is_status(error),
    };
    classify(fault)
}

} // verus!
