use song_recognition::error::RecognitionError;
use song_recognition::replay::replay;
use song_recognition::retry::SendOutcome;

#[test]
fn empty_script_sends_nothing() {
    let record = replay(&[]);
    assert_eq!(record.sends, 0);
    assert!(record.delays_ms.is_empty());
    assert_eq!(record.end, None);
}

#[test]
fn success_at_once_is_one_send_and_no_sleep() {
    let record = replay(&[SendOutcome::Status(200), SendOutcome::Status(429)]);
    assert_eq!(record.sends, 1);
    assert!(record.delays_ms.is_empty());
    assert_eq!(record.end, Some(Ok(())));
}

#[test]
fn server_error_at_once_is_one_send_and_no_sleep() {
    let record = replay(&[SendOutcome::Status(500), SendOutcome::Status(200)]);
    assert_eq!(record.sends, 1);
    assert!(record.delays_ms.is_empty());
    assert_eq!(record.end, Some(Err(RecognitionError::UnexpectedStatus { status: 500 })));
}

#[test]
fn transport_failure_at_once_is_one_send_and_no_sleep() {
    let record = replay(&[SendOutcome::TransportFailure, SendOutcome::Status(200)]);
    assert_eq!(record.sends, 1);
    assert!(record.delays_ms.is_empty());
    assert_eq!(record.end, Some(Err(RecognitionError::Transport)));
}

#[test]
fn endless_throttling_ends_after_eleven_sends() {
    let script = vec![SendOutcome::Status(429); 20];
    let record = replay(&script);
    assert_eq!(record.sends, 11);
    assert_eq!(
        record.delays_ms,
        vec![1000, 1500, 2250, 3375, 5062, 7593, 11390, 17085, 25628, 38443]
    );
    assert_eq!(record.end, Some(Err(RecognitionError::RateLimitExceeded { status: 429 })));
}

#[test]
fn worst_case_sleeps_for_under_two_minutes() {
    let script = vec![SendOutcome::Status(529); 11];
    let record = replay(&script);
    let total: u64 = record.delays_ms.iter().sum();
    assert_eq!(total, 113_326);
    assert_eq!(record.end, Some(Err(RecognitionError::RateLimitExceeded { status: 529 })));
}

#[test]
fn throttled_twice_then_served() {
    let record = replay(&[
        SendOutcome::Status(429),
        SendOutcome::Status(529),
        SendOutcome::Status(200),
        SendOutcome::Status(500),
    ]);
    assert_eq!(record.sends, 3);
    assert_eq!(record.delays_ms, vec![1000, 1500]);
    assert_eq!(record.end, Some(Ok(())));
}

#[test]
fn script_that_runs_out_leaves_the_call_pending() {
    let record = replay(&[SendOutcome::Status(429), SendOutcome::Status(429)]);
    assert_eq!(record.sends, 2);
    assert_eq!(record.delays_ms, vec![1000, 1500]);
    assert_eq!(record.end, None);
}

#[test]
fn throttled_then_refused() {
    let record = replay(&[SendOutcome::Status(429), SendOutcome::Status(403)]);
    assert_eq!(record.sends, 2);
    assert_eq!(record.delays_ms, vec![1000]);
    assert_eq!(record.end, Some(Err(RecognitionError::UnexpectedStatus { status: 403 })));
}
