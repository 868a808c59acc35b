//! Client-side protocol engine for a Versioned Storage Service (VSS): a remote
//! key-value store whose values carry server-assigned version numbers used for
//! optimistic concurrency control.
//!
//! The engine maps the four logical operations (get, put, delete, list) to wire
//! calls, classifies failures, and defines the retry contract for put. The wire
//! codec and the transport are external collaborators: the codec is an opaque
//! encode/decode pair on byte buffers, and the transport an opaque POST
//! primitive returning a status code and a byte body. The surrounding
//! (unverified) plumbing performs the actual I/O and hands the engine plain
//! values: transport events in, classified results out.

pub mod client;
pub mod error;
pub mod retry;
pub mod types;
