//! The retry policy of a recognition call: which replies are retried, how
//! long to wait before each retry, and when to give up.

use crate::error::RecognitionError;
use vstd::arithmetic::power::{lemma_pow_increases, lemma_pow_positive, pow};
use vstd::prelude::*;

verus! {

/// The number of retries after the first attempt. Attempts are numbered from
/// zero, so the last one has this index.
pub const MAX_RETRIES: u32 = 10;

/// The two status codes by which the service signals throttling.
pub open spec fn is_throttling(status: u16) -> bool {
    status == 429 || status == 529
}

/// A status in the range 200..=299.
pub open spec fn is_success(status: u16) -> bool {
    200 <= status && status < 300
}

/// The whole milliseconds in `1.5^attempt` seconds.
pub open spec fn backoff_ms(attempt: nat) -> nat {
    (1000 * pow(3, attempt) / pow(2, attempt)) as nat
}

/// What came of one attempt to send the request.
#[derive(Clone, Copy, Debug, PartialEq, Eq, Structural)]
pub enum SendOutcome {
    /// No response arrived: the connection failed or the timeout expired.
    TransportFailure,
    /// A response arrived with this status code.
    Status(u16),
}

/// What the caller has to do after an attempt.
#[derive(Clone, Copy, Debug, PartialEq, Eq, Structural)]
pub enum Verdict {
    /// Wait for `delay_ms` milliseconds, then send the same request again.
    Retry { delay_ms: u64 },
    /// The response is a success: read and decode its body.
    Accept,
    /// Stop and report this error.
    Fail(RecognitionError),
}

/// The verdict on the outcome of attempt number `attempt`.
pub open spec fn verdict_for(attempt: nat, outcome: SendOutcome) -> Verdict {
    match outcome {
        SendOutcome::TransportFailure => Verdict::Fail(RecognitionError::Transport),
        SendOutcome::Status(status) => if is_throttling(status) {
            if attempt < MAX_RETRIES {
                Verdict::Retry { delay_ms: backoff_ms(attempt) as u64 }
            } else {
                Verdict::Fail(RecognitionError::RateLimitExceeded { status })
            }
        } else if is_success(status) {
            Verdict::Accept
        } else {
            Verdict::Fail(RecognitionError::UnexpectedStatus { status })
        },
    }
}

/// Whether the status is one of the two throttling signals.
pub fn status_is_throttling(status: u16) -> (yes: bool)
    ensures
        yes == is_throttling(status),
{
    status == 429 || status == 529
}

/// Whether the status is a success.
pub fn status_is_success(status: u16) -> (yes: bool)
    ensures
        yes == is_success(status),
{
    200 <= status && status < 300
}

/// The powers of three and of two up to the tenth stay within their values
/// at ten.
proof fn lemma_powers_bounded(attempt: nat)
    requires
        attempt <= 10,
    ensures
        1 <= pow(3, attempt) <= 59049,
        1 <= pow(2, attempt) <= 1024,
{
    assert(pow(3, 10) == 59049 && pow(2, 10) == 1024) by {
        reveal_with_fuel(pow, 11);
    }
    lemma_pow_positive(3, attempt);
    lemma_pow_positive(2, attempt);
    lemma_pow_increases(3, attempt, 10);
    lemma_pow_increases(2, attempt, 10);
}

/// The delay after each attempt of the budget.
pub proof fn lemma_backoff_table()
    ensures
        backoff_ms(0) == 1000,
        backoff_ms(1) == 1500,
        backoff_ms(2) == 2250,
        backoff_ms(3) == 3375,
        backoff_ms(4) == 5062,
        backoff_ms(5) == 7593,
        backoff_ms(6) == 11390,
        backoff_ms(7) == 17085,
        backoff_ms(8) == 25628,
        backoff_ms(9) == 38443,
        backoff_ms(10) == 57665,
{
    assert(pow(3, 0) == 1 && pow(3, 1) == 3 && pow(3, 2) == 9 && pow(3, 3) == 27 && pow(3, 4) == 81
        && pow(3, 5) == 243 && pow(3, 6) == 729 && pow(3, 7) == 2187 && pow(3, 8) == 6561 && pow(
        3,
        9,
    ) == 19683 && pow(3, 10) == 59049) by {
        reveal_with_fuel(pow, 11);
    }
    assert(pow(2, 0) == 1 && pow(2, 1) == 2 && pow(2, 2) == 4 && pow(2, 3) == 8 && pow(2, 4) == 16
        && pow(2, 5) == 32 && pow(2, 6) == 64 && pow(2, 7) == 128 && pow(2, 8) == 256 && pow(2, 9)
        == 512 && pow(2, 10) == 1024) by {
        reveal_with_fuel(pow, 11);
    }
}

/// Within the budget a delay stays under a minute.
pub proof fn lemma_backoff_bounded(attempt: nat)
    requires
        attempt <= MAX_RETRIES,
    ensures
        backoff_ms(attempt) <= 57_665,
{
    lemma_backoff_table();
    assert(attempt == 0 || attempt == 1 || attempt == 2 || attempt == 3 || attempt == 4 || attempt
        == 5 || attempt == 6 || attempt == 7 || attempt == 8 || attempt == 9 || attempt == 10);
}

/// The delay is `1.5^attempt` seconds cut down to whole milliseconds:
/// `delay <= 1000 * 3^attempt / 2^attempt < delay + 1`, stated without
/// fractions.
pub proof fn law_backoff_is_truncated_power(attempt: nat)
    ensures
        pow(2, attempt) > 0,
        backoff_ms(attempt) * pow(2, attempt) <= 1000 * pow(3, attempt),
        1000 * pow(3, attempt) < (backoff_ms(attempt) + 1) * pow(2, attempt),
{
    lemma_pow_positive(2, attempt);
    lemma_pow_positive(3, attempt);
    let numerator = 1000 * pow(3, attempt);
    let denominator = pow(2, attempt);
    assert(numerator >= 0) by (nonlinear_arith)
        requires
            pow(3, attempt) > 0,
            numerator == 1000 * pow(3, attempt),
    ;
    assert(0 <= (numerator / denominator) * denominator <= numerator && numerator < (numerator
        / denominator + 1) * denominator) by (nonlinear_arith)
        requires
            numerator >= 0,
            denominator > 0,
    ;
}

/// The delay before the retry that follows attempt number `attempt`.
pub fn backoff_delay_ms(attempt: u32) -> (delay_ms: u64)
    requires
        attempt <= MAX_RETRIES,
    ensures
        delay_ms == backoff_ms(attempt as nat),
{
    let mut numerator: u64 = 1000;
    let mut denominator: u64 = 1;
    let mut done: u32 = 0;
    proof {
        reveal(pow);
    }
    while done < attempt
        invariant
            done <= attempt <= MAX_RETRIES,
            numerator == 1000 * pow(3, done as nat),
            denominator == pow(2, done as nat),
        decreases attempt - done,
    {
        proof {
            reveal(pow);
            lemma_powers_bounded(done as nat);
            lemma_powers_bounded((done + 1) as nat);
        }
        numerator = numerator * 3;
        denominator = denominator * 2;
        done = done + 1;
    }
    proof {
        lemma_powers_bounded(attempt as nat);
    }
    numerator / denominator
}

/// Where one recognition call stands in its retry budget: the index of the
/// attempt whose outcome is awaited. It never exceeds `MAX_RETRIES`.
#[derive(Debug)]
pub struct RetryState {
    attempt: u32,
}

impl View for RetryState {
    type V = nat;

    /// The index of the attempt whose outcome is awaited.
    closed spec fn view(&self) -> nat {
        self.attempt as nat
    }
}

impl RetryState {
    #[verifier::type_invariant]
    spec fn within_budget(self) -> bool {
        self.attempt <= MAX_RETRIES
    }

    /// The state before the first attempt.
    pub fn new() -> (state: Self)
        ensures
            state@ == 0,
    {
        RetryState { attempt: 0 }
    }

    /// The index of the attempt whose outcome is awaited.
    pub fn attempt(&self) -> (index: u32)
        ensures
            index == self@,
            index <= MAX_RETRIES,
    {
        proof {
            use_type_invariant(self);
        }
        self.attempt
    }

    /// Takes the outcome of the current attempt and says what to do next.
    /// Only a verdict to retry moves the state on to the next attempt.
    pub fn judge(&mut self, outcome: SendOutcome) -> (verdict: Verdict)
        ensures
            verdict == verdict_for(old(self)@, outcome),
            final(self)@ == if verdict is Retry {
                old(self)@ + 1
            } else {
                old(self)@
            },
    {
        proof {
            use_type_invariant(&*self);
        }
        match outcome {
            SendOutcome::TransportFailure => Verdict::Fail(RecognitionError::Transport),
            SendOutcome::Status(status) => {
                if status_is_throttling(status) {
                    if self.attempt < MAX_RETRIES {
                        let delay_ms: u64 = backoff_delay_ms(self.attempt);
                        self.attempt = self.attempt + 1;
                        Verdict::Retry { delay_ms }
                    } else {
                        Verdict::Fail(RecognitionError::RateLimitExceeded { status })
                    }
                } else if status_is_success(status) {
                    Verdict::Accept
                } else {
                    Verdict::Fail(RecognitionError::UnexpectedStatus { status })
                }
            },
        }
    }
}

} // verus!
