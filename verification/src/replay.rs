//! A whole recognition call seen as a script of outcomes: the model of the
//! send-and-retry loop, a dry run of it, and what holds of every run.

use crate::error::RecognitionError;
use crate::retry::{backoff_ms, is_success, is_throttling, verdict_for};
use crate::retry::{lemma_backoff_bounded, lemma_backoff_table};
use crate::retry::{RetryState, SendOutcome, Verdict, MAX_RETRIES};
use vstd::prelude::*;

verus! {

/// What a call did with a script of outcomes.
pub struct Run {
    /// How many times the request was sent.
    pub sends: nat,
    /// The delays slept through, in milliseconds, in order.
    pub delays: Seq<u64>,
    /// How the call ended: `None` while it still waits for an outcome that the
    /// script does not hold.
    pub end: Option<Result<(), RecognitionError>>,
}

/// The run from attempt number `attempt` on, where `outcomes[i]` is what
/// attempt `i` meets.
pub open spec fn run_from(outcomes: Seq<SendOutcome>, attempt: nat) -> Run
    decreases outcomes.len() - attempt,
{
    if attempt >= outcomes.len() {
        Run { sends: 0, delays: Seq::empty(), end: None }
    } else {
        match verdict_for(attempt, outcomes[attempt as int]) {
            Verdict::Retry { delay_ms } => {
                let rest = run_from(outcomes, attempt + 1);
                Run { sends: rest.sends + 1, delays: seq![delay_ms] + rest.delays, end: rest.end }
            },
            Verdict::Accept => Run { sends: 1, delays: Seq::empty(), end: Some(Ok(())) },
            Verdict::Fail(error) => Run { sends: 1, delays: Seq::empty(), end: Some(Err(error)) },
        }
    }
}

/// The run of a call from its first attempt.
pub open spec fn run(outcomes: Seq<SendOutcome>) -> Run {
    run_from(outcomes, 0)
}

/// The record of a dry run.
#[derive(Debug)]
pub struct Replay {
    /// How many times the request would have been sent.
    pub sends: usize,
    /// The delays that would have been slept through, in milliseconds.
    pub delays_ms: Vec<u64>,
    /// How the call would have ended, if the script reached that far.
    pub end: Option<Result<(), RecognitionError>>,
}

impl View for Replay {
    type V = Run;

    open spec fn view(&self) -> Run {
        Run { sends: self.sends as nat, delays: self.delays_ms@, end: self.end }
    }
}

/// Plays a script of outcomes against the retry policy without sending or
/// sleeping: outcome `i` is given to attempt `i`.
pub fn replay(outcomes: &[SendOutcome]) -> (record: Replay)
    ensures
        record@ == run(outcomes@),
{
    let mut state = RetryState::new();
    let mut delays_ms: Vec<u64> = Vec::new();
    let mut end: Option<Result<(), RecognitionError>> = None;
    let mut sends: usize = 0;
    while sends < outcomes.len() && end.is_none()
        invariant
            sends <= outcomes.len(),
            end is None ==> state@ == sends && delays_ms@.len() == sends,
            run(outcomes@).sends == sends + (if end is None {
                run_from(outcomes@, sends as nat).sends
            } else {
                0
            }),
            run(outcomes@).delays == delays_ms@ + (if end is None {
                run_from(outcomes@, sends as nat).delays
            } else {
                Seq::empty()
            }),
            run(outcomes@).end == (if end is None {
                run_from(outcomes@, sends as nat).end
            } else {
                end
            }),
        decreases outcomes.len() - sends,
    {
        let outcome = outcomes[sends];
        let ghost before = delays_ms@;
        match state.judge(outcome) {
            Verdict::Retry { delay_ms } => {
                delays_ms.push(delay_ms);
                proof {
                    let rest = run_from(outcomes@, (sends + 1) as nat);
                    assert(before + (seq![delay_ms] + rest.delays) =~= before.push(delay_ms)
                        + rest.delays);
                }
            },
            Verdict::Accept => {
                end = Some(Ok(()));
            },
            Verdict::Fail(error) => {
                end = Some(Err(error));
            },
        }
        sends = sends + 1;
    }
    Replay { sends, delays_ms, end }
}

/// From any attempt within the budget on, a run sends at most once per
/// attempt left, sleeps once per send but the last, and waits by the backoff
/// schedule.
proof fn lemma_run_from_shape(outcomes: Seq<SendOutcome>, attempt: nat)
    requires
        attempt <= MAX_RETRIES,
    ensures
        run_from(outcomes, attempt).sends + attempt <= MAX_RETRIES + 1,
        run_from(outcomes, attempt).delays.len() + attempt <= MAX_RETRIES,
        run_from(outcomes, attempt).sends + attempt <= outcomes.len() || run_from(
            outcomes,
            attempt,
        ).sends == 0,
        run_from(outcomes, attempt).end is Some ==> run_from(outcomes, attempt).delays.len() + 1
            == run_from(outcomes, attempt).sends,
        run_from(outcomes, attempt).end is None ==> run_from(outcomes, attempt).delays.len()
            == run_from(outcomes, attempt).sends,
        run_from(outcomes, attempt).end is None ==> run_from(outcomes, attempt).sends + attempt
            >= outcomes.len(),
        forall|i: int|
            0 <= i < run_from(outcomes, attempt).delays.len() ==> #[trigger] run_from(
                outcomes,
                attempt,
            ).delays[i] == backoff_ms((attempt + i) as nat),
    decreases outcomes.len() - attempt,
{
    if attempt < outcomes.len() {
        match verdict_for(attempt, outcomes[attempt as int]) {
            Verdict::Retry { delay_ms } => {
                lemma_backoff_bounded(attempt);
                lemma_run_from_shape(outcomes, attempt + 1);
                let rest = run_from(outcomes, attempt + 1);
                let here = run_from(outcomes, attempt);
                assert forall|i: int| 0 <= i < here.delays.len() implies #[trigger] here.delays[i]
                    == backoff_ms((attempt + i) as nat) by {
                    if i > 0 {
                        assert(here.delays[i] == rest.delays[i - 1]);
                    }
                }
            },
            _ => {},
        }
    }
}

/// No call sends the request more than `MAX_RETRIES + 1` times, and it
/// sleeps exactly once between two consecutive sends.
pub proof fn law_sends_within_budget(outcomes: Seq<SendOutcome>)
    ensures
        run(outcomes).sends <= MAX_RETRIES + 1,
        run(outcomes).delays.len() <= MAX_RETRIES,
        run(outcomes).sends <= outcomes.len(),
        run(outcomes).end is Some ==> run(outcomes).delays.len() + 1 == run(outcomes).sends,
        run(outcomes).end is None ==> run(outcomes).delays.len() == run(outcomes).sends
            && run(outcomes).sends == outcomes.len(),
{
    lemma_run_from_shape(outcomes, 0);
}

/// The delay slept through before retry `i + 1` is the whole milliseconds in
/// `1.5^i` seconds.
pub proof fn law_delays_follow_backoff(outcomes: Seq<SendOutcome>)
    ensures
        forall|i: int|
            0 <= i < run(outcomes).delays.len() ==> #[trigger] run(outcomes).delays[i]
                == backoff_ms(i as nat),
{
    lemma_run_from_shape(outcomes, 0);
}

/// The sum of a list of delays, in milliseconds.
pub open spec fn total_ms(delays: Seq<u64>) -> nat
    decreases delays.len(),
{
    if delays.len() == 0 {
        0
    } else {
        total_ms(delays.drop_last()) + delays.last() as nat
    }
}

/// The sum of the first `count` delays of the backoff schedule.
pub open spec fn schedule_ms(count: nat) -> nat
    decreases count,
{
    if count == 0 {
        0
    } else {
        schedule_ms((count - 1) as nat) + backoff_ms((count - 1) as nat)
    }
}

/// The ten delays of a call that uses up its budget add up to 113326
/// milliseconds, and any shorter schedule to no more.
proof fn lemma_schedule_bounded(count: nat)
    requires
        count <= MAX_RETRIES,
    ensures
        schedule_ms(count) <= 113_326,
        schedule_ms(10) == 113_326,
{
    lemma_backoff_table();
    reveal_with_fuel(schedule_ms, 11);
}

/// Delays that follow the backoff schedule add up to the schedule's sum.
proof fn lemma_total_of_schedule(delays: Seq<u64>)
    requires
        forall|i: int| 0 <= i < delays.len() ==> #[trigger] delays[i] == backoff_ms(i as nat),
    ensures
        total_ms(delays) == schedule_ms(delays.len()),
    decreases delays.len(),
{
    if delays.len() > 0 {
        let front = delays.drop_last();
        assert forall|i: int| 0 <= i < front.len() implies #[trigger] front[i] == backoff_ms(
            i as nat,
        ) by {
            assert(front[i] == delays[i]);
        }
        lemma_total_of_schedule(front);
    }
}

/// Whatever the service answers, one call sleeps for less than two minutes
/// in all: at most 113326 milliseconds.
pub proof fn law_total_delay_bounded(outcomes: Seq<SendOutcome>)
    ensures
        total_ms(run(outcomes).delays) <= 113_326,
{
    lemma_run_from_shape(outcomes, 0);
    lemma_total_of_schedule(run(outcomes).delays);
    lemma_schedule_bounded(run(outcomes).delays.len());
}

/// A call that is throttled on every attempt from `attempt` to the last one
/// sends once per attempt and ends with the last status it saw.
proof fn lemma_throttled_from(outcomes: Seq<SendOutcome>, attempt: nat)
    requires
        attempt <= MAX_RETRIES < outcomes.len(),
        forall|i: int|
            attempt <= i <= MAX_RETRIES ==> (#[trigger] outcomes[i]) is Status && is_throttling(
                outcomes[i]->Status_0,
            ),
    ensures
        run_from(outcomes, attempt).sends == MAX_RETRIES + 1 - attempt,
        run_from(outcomes, attempt).end == Some(
            Err::<(), RecognitionError>(
                RecognitionError::RateLimitExceeded {
                    status: outcomes[MAX_RETRIES as int]->Status_0,
                },
            ),
        ),
    decreases MAX_RETRIES - attempt,
{
    assert(outcomes[attempt as int] is Status);
    if attempt < MAX_RETRIES {
        lemma_throttled_from(outcomes, attempt + 1);
    }
}

/// When every attempt is throttled, the request is sent exactly
/// `MAX_RETRIES + 1` times, with a sleep between each two sends, and the call
/// ends in `RateLimitExceeded` with the last status it saw.
pub proof fn law_budget_exhausted(outcomes: Seq<SendOutcome>)
    requires
        outcomes.len() > MAX_RETRIES,
        forall|i: int|
            0 <= i <= MAX_RETRIES ==> (#[trigger] outcomes[i]) is Status && is_throttling(
                outcomes[i]->Status_0,
            ),
    ensures
        run(outcomes).sends == MAX_RETRIES + 1,
        run(outcomes).delays.len() == MAX_RETRIES,
        run(outcomes).end == Some(
            Err::<(), RecognitionError>(
                RecognitionError::RateLimitExceeded {
                    status: outcomes[MAX_RETRIES as int]->Status_0,
                },
            ),
        ),
{
    lemma_throttled_from(outcomes, 0);
    lemma_run_from_shape(outcomes, 0);
}

/// A success on the first attempt ends the call at once: one send, no sleep.
pub proof fn law_success_short_circuits(outcomes: Seq<SendOutcome>)
    requires
        outcomes.len() > 0,
        outcomes[0] is Status,
        is_success(outcomes[0]->Status_0),
    ensures
        run(outcomes) == (Run { sends: 1, delays: Seq::empty(), end: Some(Ok(())) }),
{
}

/// A status that is neither a success nor a throttling signal ends the call
/// at once with `UnexpectedStatus`: one send, no sleep, no retry.
pub proof fn law_unexpected_status_is_final(outcomes: Seq<SendOutcome>)
    requires
        outcomes.len() > 0,
        outcomes[0] is Status,
        !is_success(outcomes[0]->Status_0),
        !is_throttling(outcomes[0]->Status_0),
    ensures
        run(outcomes) == (Run {
            sends: 1,
            delays: Seq::empty(),
            end: Some(
                Err(RecognitionError::UnexpectedStatus { status: outcomes[0]->Status_0 }),
            ),
        }),
{
}

/// A transport failure is never retried, whatever the attempt.
pub proof fn law_transport_failure_is_final(outcomes: Seq<SendOutcome>)
    requires
        outcomes.len() > 0,
        outcomes[0] is TransportFailure,
    ensures
        run(outcomes) == (Run {
            sends: 1,
            delays: Seq::empty(),
            end: Some(Err(RecognitionError::Transport)),
        }),
{
}

} // verus!
