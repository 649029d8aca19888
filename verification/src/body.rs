//! The document that is posted to the recognition endpoint.

use crate::error::RecognitionError;
use vstd::prelude::*;
use vstd::string::StringExecFns;

verus! {

/// The altitude that every request reports.
pub const ALTITUDE: u32 = 300;

/// The latitude that every request reports.
pub const LATITUDE: u32 = 45;

/// The longitude that every request reports.
pub const LONGITUDE: u32 = 2;

/// The time zone that every request reports.
pub open spec fn timezone() -> Seq<char> {
    "Europe/Paris"@
}

/// The length of `number_samples` samples taken at `sample_rate_hz`, in
/// milliseconds: the quotient `number_samples * 1000 / sample_rate_hz` with
/// its fraction dropped, and no more than `u32::MAX`. At a rate of zero the
/// length is unbounded (`u32::MAX`), unless there is no sample at all.
pub open spec fn sample_duration_ms(number_samples: u32, sample_rate_hz: u32) -> int {
    if sample_rate_hz == 0 {
        if number_samples == 0 {
            0
        } else {
            u32::MAX as int
        }
    } else if number_samples * 1000 / (sample_rate_hz as int) > u32::MAX {
        u32::MAX as int
    } else {
        number_samples * 1000 / (sample_rate_hz as int)
    }
}

/// The low 32 bits of a time in milliseconds since the epoch.
pub open spec fn wall_clock_stamp(timestamp_ms: u128) -> int {
    (timestamp_ms as int) % 0x1_0000_0000
}

/// What a recognition call reads of a decoded signature.
#[derive(Debug)]
pub struct SignatureSummary {
    /// The number of samples the signature covers.
    pub number_samples: u32,
    /// The rate at which they were taken.
    pub sample_rate_hz: u32,
    /// The signature encoded as a URI, or `None` if it cannot be encoded.
    pub encoded_uri: Option<String>,
}

/// The fixed placeholder coordinates.
#[derive(Clone, Copy, Debug, PartialEq, Eq, Structural)]
pub struct Geolocation {
    pub altitude: u32,
    pub latitude: u32,
    pub longitude: u32,
}

/// The part of the body that describes the signature.
#[derive(Debug)]
pub struct SignatureBlock {
    /// The length of the sample in milliseconds.
    pub samplems: u32,
    /// The time of the call.
    pub timestamp: u32,
    /// The encoded signature.
    pub uri: String,
}

/// The body of a recognition request.
#[derive(Debug)]
pub struct RecognitionRequestBody {
    pub geolocation: Geolocation,
    pub signature: SignatureBlock,
    /// The time of the call, the same as `signature.timestamp`.
    pub timestamp: u32,
    pub timezone: String,
}

impl RecognitionRequestBody {
    /// The body describes `signature` at the time `timestamp_ms`, with one
    /// timestamp in both places and the fixed coordinates and time zone.
    pub open spec fn describes(self, signature: SignatureSummary, timestamp_ms: u128) -> bool {
        &&& self.geolocation == (Geolocation {
            altitude: ALTITUDE,
            latitude: LATITUDE,
            longitude: LONGITUDE,
        })
        &&& self.signature.samplems == sample_duration_ms(
            signature.number_samples,
            signature.sample_rate_hz,
        )
        &&& self.signature.timestamp == wall_clock_stamp(timestamp_ms)
        &&& signature.encoded_uri is Some
        &&& self.signature.uri@ == signature.encoded_uri->Some_0@
        &&& self.timestamp == wall_clock_stamp(timestamp_ms)
        &&& self.timezone@ == timezone()
    }
}

/// The length in milliseconds of `number_samples` samples taken at
/// `sample_rate_hz`.
pub fn sample_duration(number_samples: u32, sample_rate_hz: u32) -> (ms: u32)
    ensures
        ms == sample_duration_ms(number_samples, sample_rate_hz),
{
    if sample_rate_hz == 0 {
        if number_samples == 0 {
            0
        } else {
            u32::MAX
        }
    } else {
        let quotient: u64 = (number_samples as u64) * 1000 / (sample_rate_hz as u64);
        if quotient > u32::MAX as u64 {
            u32::MAX
        } else {
            quotient as u32
        }
    }
}

/// For a signature with a sample rate, the duration is the exact quotient
/// `number_samples / sample_rate_hz * 1000` truncated toward zero, as long as
/// that fits 32 bits; beyond that it is `u32::MAX`.
pub proof fn law_duration_is_truncated_quotient(number_samples: u32, sample_rate_hz: u32)
    requires
        sample_rate_hz > 0,
    ensures
        0 <= sample_duration_ms(number_samples, sample_rate_hz) <= u32::MAX,
        sample_duration_ms(number_samples, sample_rate_hz) * sample_rate_hz <= number_samples
            * 1000,
        sample_duration_ms(number_samples, sample_rate_hz) < u32::MAX ==> number_samples * 1000
            < (sample_duration_ms(number_samples, sample_rate_hz) + 1) * sample_rate_hz,
{
    let numerator: int = number_samples * 1000;
    let rate: int = sample_rate_hz as int;
    assert(0 <= (numerator / rate) * rate <= numerator && numerator < (numerator / rate + 1)
        * rate) by (nonlinear_arith)
        requires
            numerator >= 0,
            rate > 0,
    ;
    assert(numerator / rate >= 0) by (nonlinear_arith)
        requires
            numerator >= 0,
            rate > 0,
    ;
    if numerator / rate > u32::MAX {
        assert(u32::MAX * rate <= (numerator / rate) * rate) by (nonlinear_arith)
            requires
                numerator / rate > u32::MAX,
                rate > 0,
        ;
    }
}

/// The low 32 bits of a time in milliseconds since the epoch.
pub fn truncate_timestamp(timestamp_ms: u128) -> (stamp: u32)
    ensures
        stamp == wall_clock_stamp(timestamp_ms),
{
    (timestamp_ms % 0x1_0000_0000) as u32
}

/// Builds the body for `signature` at the time `timestamp_ms`. It fails with
/// `Encoding` exactly when the signature has no encoded form.
pub fn build_request_body(signature: SignatureSummary, timestamp_ms: u128) -> (built: Result<
    RecognitionRequestBody,
    RecognitionError,
>)
    ensures
        signature.encoded_uri is None ==> built == Err::<RecognitionRequestBody, RecognitionError>(
            RecognitionError::Encoding,
        ),
        signature.encoded_uri is Some ==> built is Ok && built->Ok_0.describes(
            signature,
            timestamp_ms,
        ),
        built is Ok ==> built->Ok_0.timestamp == built->Ok_0.signature.timestamp,
{
    let samplems: u32 = sample_duration(signature.number_samples, signature.sample_rate_hz);
    let timestamp: u32 = truncate_timestamp(timestamp_ms);
    match signature.encoded_uri {
        None => Err(RecognitionError::Encoding),
        Some(uri) => Ok(
            RecognitionRequestBody {
                geolocation: Geolocation {
                    altitude: ALTITUDE,
                    latitude: LATITUDE,
                    longitude: LONGITUDE,
                },
                signature: SignatureBlock { samplems, timestamp, uri },
                timestamp,
                timezone: String::from_str("Europe/Paris"),
            },
        ),
    }
}

} // verus!
