use song_recognition::error::RecognitionError;
use song_recognition::retry::{
    backoff_delay_ms, status_is_success, status_is_throttling, RetryState, SendOutcome, Verdict,
    MAX_RETRIES,
};

#[test]
fn first_delays_are_one_and_a_half_to_the_attempt() {
    assert_eq!(backoff_delay_ms(0), 1000);
    assert_eq!(backoff_delay_ms(1), 1500);
    assert_eq!(backoff_delay_ms(2), 2250);
    assert_eq!(backoff_delay_ms(3), 3375);
}

#[test]
fn later_delays_drop_the_fraction_of_a_millisecond() {
    assert_eq!(backoff_delay_ms(4), 5062);
    assert_eq!(backoff_delay_ms(5), 7593);
    assert_eq!(backoff_delay_ms(6), 11390);
    assert_eq!(backoff_delay_ms(7), 17085);
    assert_eq!(backoff_delay_ms(8), 25628);
    assert_eq!(backoff_delay_ms(9), 38443);
    assert_eq!(backoff_delay_ms(MAX_RETRIES), 57665);
}

#[test]
fn delay_brackets_the_exact_power() {
    let mut three: u64 = 1;
    let mut two: u64 = 1;
    for attempt in 0..=MAX_RETRIES {
        let delay = backoff_delay_ms(attempt);
        assert!(delay * two <= 1000 * three);
        assert!(1000 * three < (delay + 1) * two);
        three *= 3;
        two *= 2;
    }
}

#[test]
fn the_budget_is_ten_retries() {
    assert_eq!(MAX_RETRIES, 10);
}

#[test]
fn only_429_and_529_are_throttling() {
    assert!(status_is_throttling(429));
    assert!(status_is_throttling(529));
    assert!(!status_is_throttling(428));
    assert!(!status_is_throttling(430));
    assert!(!status_is_throttling(503));
    assert!(!status_is_throttling(200));
}

#[test]
fn success_is_the_two_hundreds() {
    assert!(!status_is_success(199));
    assert!(status_is_success(200));
    assert!(status_is_success(204));
    assert!(status_is_success(299));
    assert!(!status_is_success(300));
    assert!(!status_is_success(429));
}

#[test]
fn a_new_state_awaits_attempt_zero() {
    assert_eq!(RetryState::new().attempt(), 0);
}

#[test]
fn success_on_the_first_attempt_is_accepted_at_once() {
    let mut state = RetryState::new();
    assert_eq!(state.judge(SendOutcome::Status(200)), Verdict::Accept);
    assert_eq!(state.attempt(), 0);
}

#[test]
fn server_error_on_the_first_attempt_is_final() {
    let mut state = RetryState::new();
    assert_eq!(
        state.judge(SendOutcome::Status(500)),
        Verdict::Fail(RecognitionError::UnexpectedStatus { status: 500 })
    );
    assert_eq!(state.attempt(), 0);
}

#[test]
fn service_unavailable_is_not_retried() {
    let mut state = RetryState::new();
    assert_eq!(
        state.judge(SendOutcome::Status(503)),
        Verdict::Fail(RecognitionError::UnexpectedStatus { status: 503 })
    );
}

#[test]
fn redirect_and_client_error_are_unexpected() {
    let mut state = RetryState::new();
    assert_eq!(
        state.judge(SendOutcome::Status(302)),
        Verdict::Fail(RecognitionError::UnexpectedStatus { status: 302 })
    );
    assert_eq!(
        state.judge(SendOutcome::Status(404)),
        Verdict::Fail(RecognitionError::UnexpectedStatus { status: 404 })
    );
}

#[test]
fn transport_failure_is_final() {
    let mut state = RetryState::new();
    assert_eq!(
        state.judge(SendOutcome::TransportFailure),
        Verdict::Fail(RecognitionError::Transport)
    );
    assert_eq!(state.attempt(), 0);
}

#[test]
fn throttling_moves_on_to_the_next_attempt() {
    let mut state = RetryState::new();
    assert_eq!(state.judge(SendOutcome::Status(429)), Verdict::Retry { delay_ms: 1000 });
    assert_eq!(state.attempt(), 1);
    assert_eq!(state.judge(SendOutcome::Status(529)), Verdict::Retry { delay_ms: 1500 });
    assert_eq!(state.attempt(), 2);
    assert_eq!(state.judge(SendOutcome::Status(429)), Verdict::Retry { delay_ms: 2250 });
    assert_eq!(state.attempt(), 3);
}

#[test]
fn throttling_on_every_attempt_sends_eleven_times() {
    let mut state = RetryState::new();
    let mut sends = 0;
    let mut delays = Vec::new();
    let last = loop {
        sends += 1;
        match state.judge(SendOutcome::Status(429)) {
            Verdict::Retry { delay_ms } => delays.push(delay_ms),
            other => break other,
        }
    };
    assert_eq!(sends, 11);
    assert_eq!(delays, vec![1000, 1500, 2250, 3375, 5062, 7593, 11390, 17085, 25628, 38443]);
    assert_eq!(last, Verdict::Fail(RecognitionError::RateLimitExceeded { status: 429 }));
    assert_eq!(state.attempt(), MAX_RETRIES);
}

#[test]
fn exhaustion_reports_the_last_status_seen() {
    let mut state = RetryState::new();
    for _ in 0..MAX_RETRIES {
        assert!(matches!(state.judge(SendOutcome::Status(429)), Verdict::Retry { .. }));
    }
    assert_eq!(
        state.judge(SendOutcome::Status(529)),
        Verdict::Fail(RecognitionError::RateLimitExceeded { status: 529 })
    );
}

#[test]
fn success_after_throttling_is_accepted() {
    let mut state = RetryState::new();
    assert!(matches!(state.judge(SendOutcome::Status(429)), Verdict::Retry { .. }));
    assert!(matches!(state.judge(SendOutcome::Status(429)), Verdict::Retry { .. }));
    assert_eq!(state.judge(SendOutcome::Status(201)), Verdict::Accept);
    assert_eq!(state.attempt(), 2);
}

#[test]
fn success_on_the_last_attempt_is_still_accepted() {
    let mut state = RetryState::new();
    for _ in 0..MAX_RETRIES {
        assert!(matches!(state.judge(SendOutcome::Status(529)), Verdict::Retry { .. }));
    }
    assert_eq!(state.judge(SendOutcome::Status(200)), Verdict::Accept);
}
