//! Client-side protocol logic for a song-recognition service.
//!
//! The crate prepares the recognition request for an audio fingerprint,
//! rotates the client identity on every call, decides what to do with each
//! reply of the service (retry with a growing delay, accept, or fail) and
//! decodes the answer. It does the same, without retries, for the binary
//! assets that an answer points to. Sending, sleeping, and reading the clock
//! and the proxy variables are left to the caller, which drives the decisions
//! made here.

pub mod body;
pub mod error;
pub mod headers;
pub mod identity;
pub mod replay;
pub mod request;
pub mod response;
pub mod retry;
pub mod transport;
