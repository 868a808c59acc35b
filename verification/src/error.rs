//! Classification of failed attempts.
//!
//! Every failed attempt of an operation is mapped to exactly one of the kinds
//! below. Client and server errors keep the raw status and raw body bytes so
//! the caller can inspect server-provided diagnostic text.

use vstd::prelude::*;

verus! {

/// How a failed attempt is surfaced to the caller.
#[derive(Clone, Debug, PartialEq, Eq)]
pub enum VssError {
    /// The transport could not complete the call at all (connection, timeout,
    /// name resolution); no status code was obtained.
    TransportError(String),
    /// A completed call whose status lies outside both the success range and
    /// the server-error range; not retryable by default.
    ClientError { status: u16, body: Vec<u8> },
    /// A completed call whose status lies in the server-error range; retryable
    /// by default.
    ServerError { status: u16, body: Vec<u8> },
    /// The status indicated success, but the body could not be decoded into
    /// the expected response shape.
    MalformedResponse(String),
    /// The status indicated success and the body decoded, but the response
    /// violated a mandatory guarantee of the API (a well-formed yet
    /// contractually incomplete response).
    ContractViolation(String),
}

/// The status range the transport reports as success.
pub open spec fn is_success_status(status: u16) -> bool {
    200 <= status <= 299
}

/// The status range classified as a server-side error.
pub open spec fn is_server_error_status(status: u16) -> bool {
    500 <= status <= 599
}

/// The classification of a completed, non-success (status, body) pair. The
/// exact status and the exact body bytes are preserved in the error.
pub open spec fn classified_error(status: u16, body: Vec<u8>) -> VssError {
    if is_server_error_status(status) {
        VssError::ServerError { status, body }
    } else {
        VssError::ClientError { status, body }
    }
}

impl VssError {
    /// Classifies the status and body of a completed attempt that did not
    /// succeed.
    pub fn new(status: u16, body: Vec<u8>) -> (r: VssError)
        requires
            !is_success_status(status),
        ensures
            r == classified_error(status, body),
    {
        if 500 <= status && status <= 599 {
            VssError::ServerError { status, body }
        } else {
            VssError::ClientError { status, body }
        }
    }
}

} // verus!
