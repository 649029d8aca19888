//! What is made of an answer once it has arrived: the recognition result as
//! a JSON document, and the verdict on the reply to an asset fetch.

use crate::error::RecognitionError;
use crate::retry::{is_success, status_is_success, SendOutcome};
use vstd::prelude::*;

verus! {

/// `serde_json::Value`, the document of an answer; nothing here looks inside
/// it.
#[verifier::external_type_specification]
#[verifier::external_body]
pub struct ExJsonValue(serde_json::Value);

/// `serde_json::Error`, the reason a body was refused.
#[verifier::external_type_specification]
#[verifier::external_body]
pub struct ExJsonError(serde_json::Error);

/// The document that `serde_json::from_slice` reads from the bytes, or `None`
/// where it refuses them.
pub uninterp spec fn json_document_of(bytes: Seq<u8>) -> Option<serde_json::Value>;

/// Calls `serde_json::from_slice` for a `serde_json::Value`. The call reads
/// nothing but the bytes, so its result is named: `json_document_of`.
#[verifier::external_body]
fn parse_json(bytes: &[u8]) -> (parsed: Result<serde_json::Value, serde_json::Error>)
    ensures
        parsed is Ok ==> json_document_of(bytes@) == Some(parsed->Ok_0),
        parsed is Err ==> json_document_of(bytes@) is None,
{
    serde_json::from_slice(bytes)
}

/// What the body of a successful answer decodes to: its document, or a decode
/// error where it holds none.
pub open spec fn decoded_body(bytes: Seq<u8>) -> Result<serde_json::Value, RecognitionError> {
    match json_document_of(bytes) {
        Some(document) => Ok(document),
        None => Err(RecognitionError::Decode),
    }
}

/// Turns the outcome of parsing a body into the result of the call: the
/// document as it is, or a decode error.
pub fn settle_document(parsed: Result<serde_json::Value, serde_json::Error>) -> (settled: Result<
    serde_json::Value,
    RecognitionError,
>)
    ensures
        parsed is Ok ==> settled == Ok::<serde_json::Value, RecognitionError>(parsed->Ok_0),
        parsed is Err ==> settled == Err::<serde_json::Value, RecognitionError>(
            RecognitionError::Decode,
        ),
{
    match parsed {
        Ok(document) => Ok(document),
        Err(_) => Err(RecognitionError::Decode),
    }
}

/// Decodes the body of a successful answer. The document is handed on as it
/// was read; nothing in it is interpreted.
pub fn decode_recognition(body: &[u8]) -> (decoded: Result<serde_json::Value, RecognitionError>)
    ensures
        decoded == decoded_body(body@),
{
    settle_document(parse_json(body))
}

/// The verdict on the reply to an asset fetch: the body is wanted after a
/// success, and everything else is an `AssetFetch` error.
pub open spec fn asset_verdict_for(outcome: SendOutcome) -> Result<(), RecognitionError> {
    match outcome {
        SendOutcome::Status(status) if is_success(status) => Ok(()),
        _ => Err(RecognitionError::AssetFetch),
    }
}

/// Judges the one attempt of an asset fetch. There is no verdict to retry:
/// whatever the outcome, the request is not sent again.
pub fn judge_asset_reply(outcome: SendOutcome) -> (verdict: Result<(), RecognitionError>)
    ensures
        verdict == asset_verdict_for(outcome),
        verdict is Ok <==> outcome is Status && is_success(outcome->Status_0),
        verdict is Err ==> verdict == Err::<(), RecognitionError>(RecognitionError::AssetFetch),
{
    match outcome {
        SendOutcome::Status(status) => {
            if status_is_success(status) {
                Ok(())
            } else {
                Err(RecognitionError::AssetFetch)
            }
        },
        SendOutcome::TransportFailure => Err(RecognitionError::AssetFetch),
    }
}

} // verus!
