//! Core of an HTTP gateway in front of a content-addressed, blockchain-backed
//! object store.
//!
//! The library holds the request-ingestion and transaction-sequencing
//! pipeline: address and key normalization, the multipart ingestion state
//! machine, list-query normalization and result projection, the transaction
//! sequencer that serializes use of the single faucet signing key, and the
//! mapping from domain errors to HTTP responses. Network transport, route
//! wiring and the chain SDK itself stay outside.

use vstd::prelude::*;

pub mod address;
pub mod errors;
pub mod listing;
pub mod multipart;
pub mod projection;
pub mod requests;
pub mod routes;
pub mod sequencer;
pub mod text;

verus! {

/// Maximum size in bytes of an uploaded file payload.
pub const MAX_FILE_SIZE: u64 = 1024 * 1024 * 100;

} // verus!
