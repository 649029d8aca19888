//! The requests themselves: where they go, what they carry, and how long the
//! caller waits for an answer.

use crate::body::{build_request_body, RecognitionRequestBody, SignatureSummary};
use crate::error::RecognitionError;
use crate::headers::{build_headers, is_header_text, RequestHeaders};
use crate::identity::{draw_user_agent, next_identity, RequestIdentity};
use vstd::prelude::*;
use vstd::string::StringExecFns;

verus! {

/// The seconds an attempt to recognise may take.
pub const RECOGNITION_TIMEOUT_SECS: u64 = 15;

/// The seconds an asset fetch may take.
pub const ASSET_TIMEOUT_SECS: u64 = 20;

/// The address of the recognition endpoint up to the two session
/// identifiers.
pub open spec fn endpoint_prefix() -> Seq<char> {
    "https://amp.shazam.com/discovery/v5/en/US/android/-/tag/"@
}

/// The address for a pair of session identifiers: the prefix, the first
/// identifier, a slash, the second identifier.
pub open spec fn recognition_url(upper_id: Seq<char>, lower_id: Seq<char>) -> Seq<char> {
    endpoint_prefix() + upper_id + "/"@ + lower_id
}

/// The query parameters of every recognition request, in order.
pub open spec fn query_pairs() -> Seq<(Seq<char>, Seq<char>)> {
    seq![
        ("sync"@, "true"@),
        ("webv3"@, "true"@),
        ("sampling"@, "true"@),
        ("connected"@, ""@),
        ("shazamapiversion"@, "v3"@),
        ("sharehub"@, "true"@),
        ("video"@, "v3"@),
    ]
}

/// The names and values of a list of parameters.
pub open spec fn pairs_of(query: Seq<(&'static str, &'static str)>) -> Seq<(Seq<char>, Seq<char>)> {
    Seq::new(query.len(), |i: int| (query[i].0@, query[i].1@))
}

/// A recognition request, ready to be posted.
#[derive(Debug)]
pub struct RecognitionRequest {
    /// The address, without the query.
    pub url: String,
    /// The query parameters, in order.
    pub query: Vec<(&'static str, &'static str)>,
    pub headers: RequestHeaders,
    pub body: RecognitionRequestBody,
    /// The seconds each attempt may take.
    pub timeout_secs: u64,
}

impl RecognitionRequest {
    /// The request carries `signature` at the time `timestamp_ms` under
    /// `identity`, to the fixed endpoint with the fixed query and timeout.
    pub open spec fn presents(
        self,
        signature: SignatureSummary,
        timestamp_ms: u128,
        identity: RequestIdentity,
    ) -> bool {
        &&& self.url@ == recognition_url(
            identity.upper_session_id@,
            identity.lower_session_id@,
        )
        &&& pairs_of(self.query@) == query_pairs()
        &&& self.headers.carries(identity.user_agent@)
        &&& self.body.describes(signature, timestamp_ms)
        &&& self.timeout_secs == RECOGNITION_TIMEOUT_SECS
    }
}

/// The address of the recognition endpoint for a pair of session
/// identifiers.
pub fn build_recognition_url(upper_id: &str, lower_id: &str) -> (url: String)
    ensures
        url@ == recognition_url(upper_id@, lower_id@),
{
    let mut url = String::from_str("https://amp.shazam.com/discovery/v5/en/US/android/-/tag/");
    url.append(upper_id);
    url.append("/");
    url.append(lower_id);
    url
}

/// The query parameters of a recognition request.
pub fn query_parameters() -> (query: Vec<(&'static str, &'static str)>)
    ensures
        pairs_of(query@) == query_pairs(),
{
    let mut query: Vec<(&'static str, &'static str)> = Vec::new();
    query.push(("sync", "true"));
    query.push(("webv3", "true"));
    query.push(("sampling", "true"));
    query.push(("connected", ""));
    query.push(("shazamapiversion", "v3"));
    query.push(("sharehub", "true"));
    query.push(("video", "v3"));
    assert(pairs_of(query@) =~= query_pairs());
    query
}

/// What assembling a request for `signature` under an identity with this
/// user agent comes to: an encoding error where the signature has no encoded
/// form, else a configuration error where the user agent cannot stand as a
/// header value, else a request.
pub open spec fn assembly_fails_with(signature: SignatureSummary, user_agent: Seq<char>) -> Option<
    RecognitionError,
> {
    if signature.encoded_uri is None {
        Some(RecognitionError::Encoding)
    } else if !is_header_text(user_agent) {
        Some(RecognitionError::Configuration)
    } else {
        None
    }
}

/// Assembles the recognition request for `signature` at the time
/// `timestamp_ms` under `identity`.
pub fn assemble_recognition(
    signature: SignatureSummary,
    timestamp_ms: u128,
    identity: RequestIdentity,
) -> (assembled: Result<RecognitionRequest, RecognitionError>)
    ensures
        match assembly_fails_with(signature, identity.user_agent@) {
            Some(error) => assembled == Err::<RecognitionRequest, RecognitionError>(error),
            None => assembled is Ok && assembled->Ok_0.presents(
                signature,
                timestamp_ms,
                identity,
            ),
        },
        assembled is Ok ==> assembled->Ok_0.body.timestamp
            == assembled->Ok_0.body.signature.timestamp,
{
    let body = match build_request_body(signature, timestamp_ms) {
        Ok(body) => body,
        Err(error) => {
            return Err(error);
        },
    };
    let url = build_recognition_url(
        identity.upper_session_id.as_str(),
        identity.lower_session_id.as_str(),
    );
    match build_headers(identity.user_agent.as_str()) {
        Some(headers) => Ok(
            RecognitionRequest {
                url,
                query: query_parameters(),
                headers,
                body,
                timeout_secs: RECOGNITION_TIMEOUT_SECS,
            },
        ),
        None => Err(RecognitionError::Configuration),
    }
}

/// Prepares the recognition request for `signature` at the time
/// `timestamp_ms`, under a new identity drawn with `pool`.
///
/// It fails with `Encoding` exactly when the signature has no encoded form,
/// before anything is drawn; only past that point must the pool hold an
/// entry. Otherwise it succeeds whenever the user agent that was drawn can
/// stand as a header value, so always if every entry of the pool can, and
/// fails with `Configuration` when it cannot.
pub fn prepare_recognition(
    signature: SignatureSummary,
    timestamp_ms: u128,
    pool: &[&str],
) -> (prepared: Result<RecognitionRequest, RecognitionError>)
    requires
        signature.encoded_uri is Some ==> pool@.len() > 0,
    ensures
        signature.encoded_uri is None <==> prepared == Err::<RecognitionRequest, RecognitionError>(
            RecognitionError::Encoding,
        ),
        prepared is Ok ==> exists|identity: RequestIdentity|
            identity.drawn_from(pool@) && is_header_text(identity.user_agent@)
                && #[trigger] prepared->Ok_0.presents(signature, timestamp_ms, identity),
        prepared is Err && signature.encoded_uri is Some ==> prepared == Err::<
            RecognitionRequest,
            RecognitionError,
        >(RecognitionError::Configuration) && exists|i: int|
            0 <= i < pool@.len() && !is_header_text((#[trigger] pool@[i])@),
        signature.encoded_uri is Some && (forall|i: int|
            0 <= i < pool@.len() ==> is_header_text((#[trigger] pool@[i])@)) ==> prepared is Ok,
        prepared is Ok ==> prepared->Ok_0.body.timestamp
            == prepared->Ok_0.body.signature.timestamp,
{
    if signature.encoded_uri.is_none() {
        return Err(RecognitionError::Encoding);
    }
    let identity = next_identity(pool);
    assemble_recognition(signature, timestamp_ms, identity)
}

/// A request for a binary asset, ready to be sent with GET.
#[derive(Debug)]
pub struct AssetRequest {
    /// The address of the asset.
    pub url: String,
    pub headers: RequestHeaders,
    /// The seconds the one attempt may take.
    pub timeout_secs: u64,
}

impl AssetRequest {
    /// The request asks for `url` under `user_agent`, with the fixed timeout.
    pub open spec fn asks_for(self, url: Seq<char>, user_agent: Seq<char>) -> bool {
        &&& self.url@ == url
        &&& self.headers.carries(user_agent)
        &&& self.timeout_secs == ASSET_TIMEOUT_SECS
    }
}

/// Assembles the request for the asset at `url` under `user_agent`. It fails,
/// with `AssetFetch`, exactly when the user agent cannot stand as a header
/// value.
pub fn assemble_asset_fetch(url: &str, user_agent: &str) -> (assembled: Result<
    AssetRequest,
    RecognitionError,
>)
    ensures
        is_header_text(user_agent@) ==> assembled is Ok && assembled->Ok_0.asks_for(
            url@,
            user_agent@,
        ),
        !is_header_text(user_agent@) ==> assembled == Err::<AssetRequest, RecognitionError>(
            RecognitionError::AssetFetch,
        ),
{
    match build_headers(user_agent) {
        Some(headers) => Ok(
            AssetRequest {
                url: String::from_str(url),
                headers,
                timeout_secs: ASSET_TIMEOUT_SECS,
            },
        ),
        None => Err(RecognitionError::AssetFetch),
    }
}

/// Prepares the request for the asset at `url`, under a user agent newly
/// drawn from `pool`. It succeeds whenever the user agent that was drawn can
/// stand as a header value, so always if every entry of the pool can, and
/// fails with `AssetFetch` when it cannot.
pub fn prepare_asset_fetch(url: &str, pool: &[&str]) -> (prepared: Result<
    AssetRequest,
    RecognitionError,
>)
    requires
        pool@.len() > 0,
    ensures
        prepared is Ok ==> exists|i: int|
            0 <= i < pool@.len() && is_header_text((#[trigger] pool@[i])@)
                && prepared->Ok_0.asks_for(url@, pool@[i]@),
        prepared is Err ==> prepared == Err::<AssetRequest, RecognitionError>(
            RecognitionError::AssetFetch,
        ) && exists|i: int| 0 <= i < pool@.len() && !is_header_text((#[trigger] pool@[i])@),
        (forall|i: int| 0 <= i < pool@.len() ==> is_header_text((#[trigger] pool@[i])@))
            ==> prepared is Ok,
{
    assemble_asset_fetch(url, draw_user_agent(pool))
}

} // verus!
