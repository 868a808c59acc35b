//! Request and response values of the VSS wire protocol.
//!
//! All of these are transient values constructed per call; the client holds no
//! state between calls beyond its configuration.

use vstd::prelude::*;

verus! {

/// A stored payload together with the server-assigned version of its key.
///
/// Versions are opaque tokens: the client compares them only for equality and
/// never computes one locally.
#[derive(Clone, Debug, PartialEq, Eq)]
pub struct KeyValue {
    pub key: String,
    pub version: u64,
    pub value: Vec<u8>,
}

/// Identifies one key in one store to read.
#[derive(Clone, Debug, PartialEq, Eq)]
pub struct GetObjectRequest {
    pub store_id: String,
    pub key: String,
}

/// The server's answer to a get.
#[derive(Clone, Debug, PartialEq, Eq)]
pub struct GetObjectResponse {
    /// The stored value. The server must set this field on every success
    /// response; its absence is a server contract violation, not "key absent".
    pub value: Option<KeyValue>,
}

/// One (key, value, version, expected-version) entry of an atomic multi-item write.
#[derive(Clone, Debug, PartialEq, Eq)]
pub struct TransactionItem {
    pub key: String,
    pub value: Vec<u8>,
    pub version: u64,
    /// `None` writes unconditionally; `Some(v)` asks the server to apply the
    /// write only if the stored version still equals `v`.
    pub expected_version: Option<u64>,
}

/// A multi-item write. The server commits all items atomically: either every
/// item's new version is durably recorded, or none is. Keys must be unique
/// within one request; the server enforces this, the client does not
/// deduplicate.
#[derive(Clone, Debug, PartialEq, Eq)]
pub struct PutObjectRequest {
    pub store_id: String,
    pub transaction_items: Vec<TransactionItem>,
}

/// The server's acknowledgement of a put; carries no mandatory payload.
#[derive(Clone, Debug, PartialEq, Eq)]
pub struct PutObjectResponse {}

/// Identifies one item to remove, optionally conditional on its version.
#[derive(Clone, Debug, PartialEq, Eq)]
pub struct DeleteObjectRequest {
    pub store_id: String,
    pub key: String,
    pub expected_version: Option<u64>,
}

/// The server's acknowledgement of a delete; carries no mandatory payload.
#[derive(Clone, Debug, PartialEq, Eq)]
pub struct DeleteObjectResponse {}

/// Asks for the keys of one store and their current versions, optionally
/// filtered by a key prefix and resumed from a pagination token.
#[derive(Clone, Debug, PartialEq, Eq)]
pub struct ListKeyVersionsRequest {
    pub store_id: String,
    pub key_prefix: Option<String>,
    pub page_token: Option<String>,
}

/// One (key, version) pair of a listing; payload-free.
#[derive(Clone, Debug, PartialEq, Eq)]
pub struct KeyVersion {
    pub key: String,
    pub version: u64,
}

/// The server's answer to a listing: the matching keys in server order, and a
/// token to resume from when the listing did not fit one page.
#[derive(Clone, Debug, PartialEq, Eq)]
pub struct ListKeyVersionsResponse {
    pub key_versions: Vec<KeyVersion>,
    pub next_page_token: Option<String>,
}

} // verus!
