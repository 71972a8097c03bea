//! Bounded connection retries with a fixed pause between attempts.

use vstd::prelude::*;

verus! {

/// Attempts made before the connection is given up.
pub const MAX_ATTEMPTS: u32 = 3;

/// Seconds to wait after a failed attempt before the next one.
pub const RETRY_DELAY_SECS: u64 = 1;

/// Whether a failure of attempt number `attempt` is followed by another one.
pub open spec fn retries_after(attempt: nat) -> bool {
    attempt < MAX_ATTEMPTS
}

/// The attempt in progress, and why the one before it failed.
pub struct ConnectionAttempt {
    /// One-based number of the attempt.
    pub attempt: u32,
    pub last_error: Option<String>,
}

/// What to do after an attempt failed.
pub enum RetryDecision {
    /// Wait `delay_secs` seconds, then make the attempt `next`.
    Retry { next: ConnectionAttempt, delay_secs: u64 },
    /// The ceiling is reached: connecting has failed for good.
    GiveUp { attempts: u32, last_error: String },
}

/// The attempt that connecting starts with.
pub open spec fn first_attempt() -> ConnectionAttempt {
    ConnectionAttempt { attempt: 1, last_error: None }
}

/// What follows the failure of attempt `a` with `error`.
pub open spec fn failure_decision(a: ConnectionAttempt, error: String) -> RetryDecision {
    if retries_after(a.attempt as nat) {
        RetryDecision::Retry {
            next: ConnectionAttempt { attempt: (a.attempt + 1) as u32, last_error: Some(error) },
            delay_secs: RETRY_DELAY_SECS,
        }
    } else {
        RetryDecision::GiveUp { attempts: a.attempt, last_error: error }
    }
}

impl ConnectionAttempt {
    pub open spec fn wf(&self) -> bool {
        1 <= self.attempt <= MAX_ATTEMPTS
    }

    pub fn first() -> (r: Self)
        ensures
            r == first_attempt(),
            r.wf(),
    {
        ConnectionAttempt { attempt: 1, last_error: None }
    }

    /// Decides what follows a failed attempt.
    pub fn after_failure(self, error: String) -> (d: RetryDecision)
        requires
            self.wf(),
        ensures
            d == failure_decision(self, error),
            d matches RetryDecision::Retry { next, .. } ==> next.wf(),
    {
        if self.attempt < MAX_ATTEMPTS {
            RetryDecision::Retry {
                next: ConnectionAttempt { attempt: self.attempt + 1, last_error: Some(error) },
                delay_secs: RETRY_DELAY_SECS,
            }
        } else {
            RetryDecision::GiveUp { attempts: self.attempt, last_error: error }
        }
    }
}

/// How a run of connection attempts ended.
pub struct RetryRun {
    /// Attempts made.
    pub attempts: nat,
    /// Seconds spent waiting between attempts.
    pub waited_secs: nat,
    /// Whether a transport was obtained.
    pub connected: bool,
    /// Whether the run ended in the fatal give-up.
    pub gave_up: bool,
}

/// The run that starts with attempt `a`, where `outcomes[i]` is the result
/// of the `i`-th attempt made from there, each failure followed by
/// `failure_decision`; it stops early when the outcomes run out. A pause
/// counts once the attempt after it is made.
pub open spec fn run_from(a: ConnectionAttempt, outcomes: Seq<Result<(), String>>) -> RetryRun
    decreases outcomes.len(),
{
    if outcomes.len() == 0 {
        RetryRun { attempts: 0, waited_secs: 0, connected: false, gave_up: false }
    } else {
        match outcomes[0] {
            Ok(_) => RetryRun { attempts: 1, waited_secs: 0, connected: true, gave_up: false },
            Err(e) => match failure_decision(a, e) {
                RetryDecision::GiveUp { .. } => RetryRun {
                    attempts: 1,
                    waited_secs: 0,
                    connected: false,
                    gave_up: true,
                },
                RetryDecision::Retry { next, delay_secs } => {
                    let rest = run_from(next, outcomes.drop_first());
                    RetryRun {
                        attempts: rest.attempts + 1,
                        waited_secs: if rest.attempts > 0 { rest.waited_secs + delay_secs as nat } else { 0 },
                        connected: rest.connected,
                        gave_up: rest.gave_up,
                    }
                },
            },
        }
    }
}

/// The run of attempts that `ConnectionAttempt::first` and
/// `ConnectionAttempt::after_failure` produce for the given outcomes.
pub open spec fn retry_run(outcomes: Seq<Result<(), String>>) -> RetryRun {
    run_from(first_attempt(), outcomes)
}

proof fn run_from_bounds(a: ConnectionAttempt, outcomes: Seq<Result<(), String>>)
    requires
        a.wf(),
    ensures
        ({
            let r = run_from(a, outcomes);
            let left = MAX_ATTEMPTS + 1 - a.attempt;
            &&& r.attempts <= left
            &&& r.attempts <= outcomes.len()
            &&& r.attempts > 0 ==> r.waited_secs == (r.attempts - 1) * RETRY_DELAY_SECS
            &&& r.attempts == 0 ==> r.waited_secs == 0
            &&& forall|i: int| 0 <= i < r.attempts - 1 ==> outcomes[i] is Err
            &&& r.connected == (r.attempts > 0 && outcomes[r.attempts - 1] is Ok)
            &&& !r.connected ==> r.attempts == if outcomes.len() < left { outcomes.len() as int } else { left }
            &&& r.gave_up == (!r.connected && outcomes.len() >= left)
        }),
    decreases outcomes.len(),
{
    if outcomes.len() > 0 {
        if let Err(e) = outcomes[0] {
            if let RetryDecision::Retry { next, delay_secs } = failure_decision(a, e) {
                let rest = outcomes.drop_first();
                run_from_bounds(next, rest);
                let r = run_from(next, rest);
                assert forall|i: int| 0 <= i < r.attempts implies outcomes[i] is Err by {
                    if i > 0 {
                        assert(outcomes[i] == rest[i - 1]);
                    }
                }
                if r.attempts > 0 {
                    assert(outcomes[r.attempts as int] == rest[r.attempts - 1]);
                }
            }
        }
    }
}

/// Connecting makes at most `MAX_ATTEMPTS` attempts and none after a
/// success: with `j` the position of the first success, the run makes
/// `min(MAX_ATTEMPTS, j + 1)` attempts when the outcomes reach that far. A
/// pause of `RETRY_DELAY_SECS` comes before every attempt but the first.
/// When `MAX_ATTEMPTS` attempts in a row fail, the run ends in the fatal
/// give-up after exactly that many attempts and
/// `(MAX_ATTEMPTS - 1) * RETRY_DELAY_SECS` seconds of waiting.
pub proof fn retry_run_is_bounded(outcomes: Seq<Result<(), String>>)
    ensures
        ({
            let r = retry_run(outcomes);
            &&& r.attempts <= MAX_ATTEMPTS
            &&& forall|i: int| 0 <= i < r.attempts - 1 ==> outcomes[i] is Err
            &&& r.connected == (r.attempts > 0 && outcomes[r.attempts - 1] is Ok)
            &&& !r.connected ==> r.attempts == if outcomes.len() < MAX_ATTEMPTS { outcomes.len() as int } else { MAX_ATTEMPTS as int }
            &&& r.attempts > 0 ==> r.waited_secs == (r.attempts - 1) * RETRY_DELAY_SECS
            &&& r.gave_up == (outcomes.len() >= MAX_ATTEMPTS
                && forall|i: int| 0 <= i < MAX_ATTEMPTS ==> outcomes[i] is Err)
            &&& r.gave_up ==> r.attempts == MAX_ATTEMPTS
                && r.waited_secs == (MAX_ATTEMPTS - 1) * RETRY_DELAY_SECS
        }),
{
    run_from_bounds(first_attempt(), outcomes);
    let r = retry_run(outcomes);
    if outcomes.len() >= MAX_ATTEMPTS && forall|i: int| 0 <= i < MAX_ATTEMPTS ==> outcomes[i] is Err {
        if r.connected {
            assert(outcomes[r.attempts - 1] is Err);
        }
    }
    if r.gave_up {
        assert forall|i: int| 0 <= i < MAX_ATTEMPTS implies outcomes[i] is Err by {
            if i < r.attempts - 1 {
            } else {
                assert(i == r.attempts - 1);
            }
        }
    }
}

} // verus!
