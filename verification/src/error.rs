//! The failures a recognition call or an asset fetch can end in.

use vstd::prelude::*;

verus! {

/// Why a call did not produce a result. None of these is retried by the
/// caller once it has been returned.
#[derive(Clone, Copy, Debug, PartialEq, Eq, Structural)]
pub enum RecognitionError {
    /// The proxy URL is not usable, or the transport could not be built.
    Configuration,
    /// The signature could not be encoded as a URI.
    Encoding,
    /// The request could not be sent: connection failure or timeout.
    Transport,
    /// The service kept throttling until the retry budget ran out; `status`
    /// is the last status it answered with.
    RateLimitExceeded { status: u16 },
    /// The service answered with a status that is neither a success nor a
    /// throttling signal.
    UnexpectedStatus { status: u16 },
    /// The service answered with a success status, but the body is not a
    /// JSON document.
    Decode,
    /// The binary asset could not be fetched.
    AssetFetch,
}

} // verus!
