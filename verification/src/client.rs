//! The operation dispatcher: the client itself.
//!
//! For each logical operation the dispatcher builds the endpoint path, has the
//! request encoded, has the transport called, and interprets what came back:
//! a non-success status or a transport failure is classified and surfaced, a
//! success body is handed to the codec, and the decoded response is checked
//! against the operation's mandatory-field guarantees. Encoding, decoding and
//! the transport call itself are performed by the surrounding (unverified)
//! plumbing, which feeds each completed call back in as a [`TransportEvent`].
//!
//! Only the put operation is retried; get, delete and list interpret exactly
//! one transport event and surface the first classified error immediately.

use vstd::prelude::*;
use vstd::string::StringExecFns;

use crate::error::{classified_error, is_success_status, VssError};
use crate::retry::RetryPolicy;
use crate::types::GetObjectResponse;

verus! {

/// The transport handle of the `reqwest` crate. The dispatcher only stores and
/// hands it out; every call through it happens outside the verified library.
#[verifier::external_type_specification]
#[verifier::external_body]
pub struct ExClient(reqwest::Client);

/// Relies on reqwest::ClientBuilder::build: constructs a transport handle with
/// the default configuration, or reports an error when the backend cannot be
/// initialized. Nothing is promised of the handle; it is opaque.
#[verifier::external_body]
fn build_transport() -> Option<reqwest::Client> {
    reqwest::Client::builder().build().ok()
}

/// What one transport call produced, as the surrounding plumbing reports it.
#[derive(Clone, Debug, PartialEq, Eq)]
pub enum TransportEvent {
    /// The call could not complete at all; no status code was obtained. The
    /// string describes the transport-level failure.
    Failure(String),
    /// The call completed with this status code and body.
    Response { status: u16, body: Vec<u8> },
}

/// What the dispatcher does with one transport event: hand the body on to the
/// codec, or surface a classified error.
#[derive(Clone, Debug, PartialEq, Eq)]
pub enum Disposition {
    /// The status indicated success: these exact body bytes go to the codec.
    Decode(Vec<u8>),
    /// The attempt failed: this error is surfaced (for put: after consulting
    /// the retry policy).
    Fail(VssError),
}

/// What `screen_event` returns: a transport failure and a non-success status
/// become classified errors with the exact status and body preserved; a
/// success status hands the exact body bytes on.
pub open spec fn disposition_of(event: TransportEvent) -> Disposition {
    match event {
        TransportEvent::Failure(m) => Disposition::Fail(VssError::TransportError(m)),
        TransportEvent::Response { status, body } => {
            if is_success_status(status) {
                Disposition::Decode(body)
            } else {
                Disposition::Fail(classified_error(status, body))
            }
        },
    }
}

/// The status screening every operation applies to a completed transport
/// call. The body bytes pass through unchanged in either direction: to the
/// codec on success, into the classified error otherwise.
pub fn screen_event(event: TransportEvent) -> (r: Disposition)
    ensures
        r == disposition_of(event),
{
    match event {
        TransportEvent::Failure(m) => Disposition::Fail(VssError::TransportError(m)),
        TransportEvent::Response { status, body } => {
            if 200 <= status && status <= 299 {
                Disposition::Decode(body)
            } else {
                Disposition::Fail(VssError::new(status, body))
            }
        },
    }
}

/// The diagnostic text of the contract-violation error a get raises when a
/// success response carries no value.
pub open spec fn missing_value_message() -> Seq<char> {
    "VSS server contract violation: GetObjectResponse carries no value"@
}

/// Completes the success path of a get. A body that did not decode is a
/// malformed response. A decoded response without the mandatory value is a
/// contract violation — the server must populate an explicit value on every
/// success, so its absence signals a server-side bug, never "key absent" and
/// never a mere decode problem. A response with a value is returned unchanged.
pub fn complete_get(decoded: Result<GetObjectResponse, String>) -> (r: Result<
    GetObjectResponse,
    VssError,
>)
    ensures
        decoded matches Ok(resp) ==> {
            &&& resp.value is Some ==> r == Ok::<GetObjectResponse, VssError>(resp)
            &&& resp.value is None ==> (r matches Err(e) && e is ContractViolation
                && e->ContractViolation_0@ == missing_value_message())
        },
        decoded matches Err(m) ==> r == Err::<GetObjectResponse, VssError>(
            VssError::MalformedResponse(m),
        ),
{
    match decoded {
        Err(m) => Err(VssError::MalformedResponse(m)),
        Ok(resp) => {
            if resp.value.is_none() {
                Err(
                    VssError::ContractViolation(
                        String::from_str(
                            "VSS server contract violation: GetObjectResponse carries no value",
                        ),
                    ),
                )
            } else {
                Ok(resp)
            }
        },
    }
}

/// Completes the success path of the operations whose decoded response needs
/// no further checking (put, delete, list): a body that did not decode is a
/// malformed response, and a decoded response is returned unchanged.
pub fn complete_decoded<T>(decoded: Result<T, String>) -> (r: Result<T, VssError>)
    ensures
        decoded matches Ok(resp) ==> r == Ok::<T, VssError>(resp),
        decoded matches Err(m) ==> r == Err::<T, VssError>(VssError::MalformedResponse(m)),
{
    match decoded {
        Err(m) => Err(VssError::MalformedResponse(m)),
        Ok(resp) => Ok(resp),
    }
}

/// Thin client of a hosted Versioned Storage Service instance.
///
/// A client is immutable configuration: the server's base endpoint, the
/// transport handle, and the retry policy consulted by put. Every operation
/// takes the client by shared reference, so one instance is safely shared
/// across arbitrarily many concurrent calls.
pub struct VssClient<R: RetryPolicy> {
    pub base_url: String,
    pub client: reqwest::Client,
    pub retry_policy: R,
}

impl<R: RetryPolicy> VssClient<R> {
    /// Constructs a client for the VSS server endpoint `base_url`, with a
    /// freshly built transport handle. Returns `None` when the transport
    /// backend cannot be initialized.
    pub fn new(base_url: &str, retry_policy: R) -> (r: Option<Self>)
        ensures
            r matches Some(c) ==> c.base_url@ == base_url@ && c.retry_policy == retry_policy,
    {
        match build_transport() {
            Some(client) => Some(Self::from_client(base_url, client, retry_policy)),
            None => None,
        }
    }

    /// Constructs a client for the VSS server endpoint `base_url` from a given
    /// transport handle.
    pub fn from_client(base_url: &str, client: reqwest::Client, retry_policy: R) -> (r: Self)
        ensures
            r.base_url@ == base_url@,
            r.client == client,
            r.retry_policy == retry_policy,
    {
        VssClient { base_url: base_url.to_owned(), client, retry_policy }
    }

    /// Returns the underlying base URL.
    pub fn base_url(&self) -> (r: &str)
        ensures
            r@ == self.base_url@,
    {
        self.base_url.as_str()
    }

    /// The endpoint of the get operation.
    pub fn get_object_url(&self) -> (r: String)
        ensures
            r@ == self.base_url@ + "/getObject"@,
    {
        self.base_url.as_str().to_owned().concat("/getObject")
    }

    /// The endpoint of the put operation.
    pub fn put_objects_url(&self) -> (r: String)
        ensures
            r@ == self.base_url@ + "/putObjects"@,
    {
        self.base_url.as_str().to_owned().concat("/putObjects")
    }

    /// The endpoint of the delete operation.
    pub fn delete_object_url(&self) -> (r: String)
        ensures
            r@ == self.base_url@ + "/deleteObject"@,
    {
        self.base_url.as_str().to_owned().concat("/deleteObject")
    }

    /// The endpoint of the list operation.
    pub fn list_key_versions_url(&self) -> (r: String)
        ensures
            r@ == self.base_url@ + "/listKeyVersions"@,
    {
        self.base_url.as_str().to_owned().concat("/listKeyVersions")
    }
}

} // verus!
