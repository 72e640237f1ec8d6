//! The policy by which a failed call is tried again: at most five attempts,
//! with a wait between them that starts at 100 ms and doubles each time.
//!
//! The policy makes no call and does not wait. It is told how each attempt
//! ended and answers what to do next; whoever makes the call acts on it.

use vstd::prelude::*;
use vstd::arithmetic::power2::{lemma2_to64, lemma_pow2_pos, lemma_pow2_unfold, pow2};
use crate::error::{FailureCause, SdkError};

verus! {

/// The number of attempts after which a call is given up.
pub const MAX_ATTEMPTS: u32 = 5;

/// The wait after the first failed attempt, in milliseconds.
pub const INITIAL_DELAY_MS: u64 = 100;

/// How one attempt ended.
#[derive(Debug, Clone, Copy, PartialEq, Eq)]
pub enum AttemptOutcome {
    /// The channel did not report ready; no call was made.
    NotReady,
    /// The call was made and failed.
    CallFailed,
    /// The call succeeded, but its payload could not be read.
    Unparsable,
    /// The call succeeded and its payload was read.
    Success,
}

/// What to do after an attempt.
#[derive(Debug, Clone, PartialEq, Eq)]
pub enum RetryAction {
    /// Wait for `delay_ms` milliseconds, then make the next attempt.
    RetryAfter { delay_ms: u64 },
    /// Hand the response to the caller.
    Return,
    /// Give up with this error.
    Fail(SdkError),
}

/// How a call ended: its result, the attempts it took and the time spent
/// waiting between them.
#[derive(Debug, PartialEq, Eq)]
pub struct RetryReport {
    pub result: Result<(), SdkError>,
    pub attempts: u32,
    pub waited_ms: u64,
}

/// The wait that follows a failed attempt which `retries` waits preceded.
pub open spec fn backoff_delay(retries: nat) -> nat {
    INITIAL_DELAY_MS as nat * pow2(retries)
}

/// The sum of the first `retries` waits.
pub open spec fn total_delay(retries: nat) -> nat {
    (INITIAL_DELAY_MS as nat * (pow2(retries) - 1)) as nat
}

/// The first wait is 100 ms and each wait is twice the one before it; the
/// sum of the waits grows by each wait in turn.
pub proof fn lemma_waits_double_and_add_up(retries: nat)
    ensures
        backoff_delay(0) == INITIAL_DELAY_MS,
        backoff_delay(retries + 1) == 2 * backoff_delay(retries),
        total_delay(0) == 0,
        total_delay(retries + 1) == total_delay(retries) + backoff_delay(retries),
{
    lemma2_to64();
    lemma_pow2_unfold(retries + 1);
    lemma_pow2_pos(retries);
}

impl AttemptOutcome {
    /// Why the attempt failed, where it is one that may be tried again.
    pub open spec fn failure(self) -> Option<FailureCause> {
        match self {
            AttemptOutcome::NotReady => Some(FailureCause::NotReady),
            AttemptOutcome::CallFailed => Some(FailureCause::CallFailed),
            _ => None,
        }
    }
}

/// What the policy answers to `outcome` after `retries` waits. A success is
/// handed back at once, and so is a payload that cannot be read: neither is
/// tried again. A failed attempt is tried again after the next wait, unless
/// it was the last that is permitted.
pub open spec fn decide(retries: nat, outcome: AttemptOutcome) -> RetryAction {
    match outcome {
        AttemptOutcome::Success => RetryAction::Return,
        AttemptOutcome::Unparsable => RetryAction::Fail(SdkError::InvalidResponse),
        AttemptOutcome::NotReady | AttemptOutcome::CallFailed => if retries + 1 < MAX_ATTEMPTS {
            RetryAction::RetryAfter { delay_ms: backoff_delay(retries) as u64 }
        } else {
            RetryAction::Fail(
                SdkError::RetriesExhausted {
                    attempts: MAX_ATTEMPTS,
                    cause: outcome.failure()->Some_0,
                },
            )
        },
    }
}

/// How a call ends whose attempts end as `outcomes[at]`, `outcomes[at + 1]`
/// and so on, after `retries` waits; nothing where the outcomes run out
/// before the call has ended.
pub open spec fn run_from(retries: nat, outcomes: Seq<AttemptOutcome>, at: int) -> Option<
    RetryReport,
>
    decreases outcomes.len() - at,
{
    if at < 0 || at >= outcomes.len() {
        None
    } else {
        match decide(retries, outcomes[at]) {
            RetryAction::RetryAfter { .. } => run_from(retries + 1, outcomes, at + 1),
            RetryAction::Return => Some(
                RetryReport {
                    result: Ok(()),
                    attempts: (retries + 1) as u32,
                    waited_ms: total_delay(retries) as u64,
                },
            ),
            RetryAction::Fail(e) => Some(
                RetryReport {
                    result: Err(e),
                    attempts: (retries + 1) as u32,
                    waited_ms: total_delay(retries) as u64,
                },
            ),
        }
    }
}

/// How a call ends whose attempts end as `outcomes`, in order.
pub open spec fn run(outcomes: Seq<AttemptOutcome>) -> Option<RetryReport> {
    run_from(0, outcomes, 0)
}

/// The progress of one call that has not ended.
#[derive(Debug, PartialEq, Eq)]
pub struct RetryState {
    retries: u32,
    next_delay_ms: u64,
    waited_ms: u64,
}

/// What follows an attempt: the action, and with a new attempt the progress
/// of the call from then on. A call that has ended leaves no state behind.
#[derive(Debug, PartialEq, Eq)]
pub enum RetryStep {
    /// Wait for `delay_ms` milliseconds, then make the next attempt.
    Retry { delay_ms: u64, state: RetryState },
    /// Hand the response to the caller.
    Return,
    /// Give up with this error.
    Fail(SdkError),
}

impl RetryStep {
    /// The action of the step.
    pub open spec fn action(self) -> RetryAction {
        match self {
            RetryStep::Retry { delay_ms, .. } => RetryAction::RetryAfter { delay_ms },
            RetryStep::Return => RetryAction::Return,
            RetryStep::Fail(e) => RetryAction::Fail(e),
        }
    }
}

impl RetryState {
    #[verifier::type_invariant]
    spec fn wf(self) -> bool {
        &&& self.retries < MAX_ATTEMPTS
        &&& self.next_delay_ms == backoff_delay(self.retries as nat)
        &&& self.waited_ms == total_delay(self.retries as nat)
    }

    /// The number of waits so far.
    pub closed spec fn spec_retries(self) -> nat {
        self.retries as nat
    }

    /// The state of a call before its first attempt.
    pub fn new() -> (state: RetryState)
        ensures
            state.spec_retries() == 0,
    {
        proof {
            lemma2_to64();
        }
        RetryState { retries: 0, next_delay_ms: INITIAL_DELAY_MS, waited_ms: 0 }
    }

    /// The number of the attempt in progress: one more than the waits so
    /// far.
    pub fn attempts(&self) -> (attempts: u32)
        ensures
            attempts == self.spec_retries() + 1,
            attempts <= MAX_ATTEMPTS,
    {
        proof {
            use_type_invariant(self);
        }
        self.retries + 1
    }

    /// The time spent waiting so far, in milliseconds.
    pub fn waited_ms(&self) -> (waited: u64)
        ensures
            waited == total_delay(self.spec_retries()),
    {
        proof {
            use_type_invariant(self);
        }
        self.waited_ms
    }

    /// Takes note of how the attempt in progress ended, and answers what
    /// follows. Where that is a new attempt, the state that comes back has
    /// one wait more.
    pub fn record(self, outcome: AttemptOutcome) -> (step: RetryStep)
        ensures
            step.action() == decide(self.spec_retries(), outcome),
            step matches RetryStep::Retry { state, .. } ==> state.spec_retries()
                == self.spec_retries() + 1,
    {
        proof {
            use_type_invariant(&self);
            lemma2_to64();
        }
        match outcome {
            AttemptOutcome::Success => RetryStep::Return,
            AttemptOutcome::Unparsable => RetryStep::Fail(SdkError::InvalidResponse),
            AttemptOutcome::NotReady => self.failed(FailureCause::NotReady),
            AttemptOutcome::CallFailed => self.failed(FailureCause::CallFailed),
        }
    }

    fn failed(self, cause: FailureCause) -> (step: RetryStep)
        ensures
            self.retries + 1 < MAX_ATTEMPTS ==> (step matches RetryStep::Retry { delay_ms, state }
                && delay_ms == backoff_delay(self.retries as nat) && state.retries == self.retries
                + 1),
            self.retries + 1 >= MAX_ATTEMPTS ==> (step matches RetryStep::Fail(e) && e
                == (SdkError::RetriesExhausted { attempts: MAX_ATTEMPTS, cause })),
    {
        proof {
            use_type_invariant(&self);
            lemma2_to64();
        }
        if self.retries + 1 < MAX_ATTEMPTS {
            let delay_ms = self.next_delay_ms;
            proof {
                lemma_pow2_unfold((self.retries + 1) as nat);
            }
            RetryStep::Retry {
                delay_ms,
                state: RetryState {
                    retries: self.retries + 1,
                    next_delay_ms: 2 * delay_ms,
                    waited_ms: self.waited_ms + delay_ms,
                },
            }
        } else {
            RetryStep::Fail(SdkError::RetriesExhausted { attempts: MAX_ATTEMPTS, cause })
        }
    }
}

/// Plays a call through whose attempts end as `outcomes`, in order, and
/// reports how it ended; nothing where the outcomes run out before the call
/// has ended. Outcomes after the end of the call are not looked at.
pub fn simulate(outcomes: &Vec<AttemptOutcome>) -> (report: Option<RetryReport>)
    ensures
        report == run(outcomes@),
{
    let mut state = RetryState::new();
    let mut at: usize = 0;
    while at < outcomes.len()
        invariant
            at <= outcomes.len(),
            run(outcomes@) == run_from(state.spec_retries(), outcomes@, at as int),
        decreases outcomes.len() - at,
    {
        let attempts = state.attempts();
        let waited_ms = state.waited_ms();
        match state.record(outcomes[at]) {
            RetryStep::Retry { state: next, .. } => {
                state = next;
            },
            RetryStep::Return => {
                return Some(RetryReport { result: Ok(()), attempts, waited_ms });
            },
            RetryStep::Fail(e) => {
                return Some(RetryReport { result: Err(e), attempts, waited_ms });
            },
        }
        at += 1;
    }
    None
}

/// A call whose first `k` attempts fail, with `k` below the number of
/// permitted attempts, and whose next attempt succeeds, returns the
/// response after `k + 1` attempts and after waiting `100 * (2^k - 1)` ms.
pub proof fn lemma_success_after_failures(outcomes: Seq<AttemptOutcome>, k: nat)
    requires
        k < MAX_ATTEMPTS,
        k < outcomes.len(),
        forall|i: int| 0 <= i < k ==> (#[trigger] outcomes[i]).failure() is Some,
        outcomes[k as int] == AttemptOutcome::Success,
    ensures
        run(outcomes) == Some(
            RetryReport {
                result: Ok(()),
                attempts: (k + 1) as u32,
                waited_ms: (100 * (pow2(k) - 1)) as u64,
            },
        ),
{
    lemma_failures_are_retried(outcomes, 0, k);
    lemma_pow2_pos(k);
}

/// A call whose first five attempts fail is given up after exactly five
/// attempts, with the cause of the fifth failure, after waiting
/// 100 + 200 + 400 + 800 ms.
pub proof fn lemma_exhausted_after_max_attempts(outcomes: Seq<AttemptOutcome>)
    requires
        outcomes.len() >= MAX_ATTEMPTS,
        forall|i: int| 0 <= i < MAX_ATTEMPTS ==> (#[trigger] outcomes[i]).failure() is Some,
    ensures
        run(outcomes) == Some(
            RetryReport {
                result: Err(
                    SdkError::RetriesExhausted {
                        attempts: MAX_ATTEMPTS,
                        cause: outcomes[MAX_ATTEMPTS - 1].failure()->Some_0,
                    },
                ),
                attempts: MAX_ATTEMPTS,
                waited_ms: 1500,
            },
        ),
{
    lemma_failures_are_retried(outcomes, 0, 4);
    lemma2_to64();
}

/// Failed attempts that are not the last permitted one are passed over:
/// after `n` of them the call stands `n` waits further.
proof fn lemma_failures_are_retried(outcomes: Seq<AttemptOutcome>, from: nat, n: nat)
    requires
        from + n < MAX_ATTEMPTS,
        from + n <= outcomes.len(),
        forall|i: int| from <= i < from + n ==> (#[trigger] outcomes[i]).failure() is Some,
    ensures
        run_from(from, outcomes, from as int) == run_from(from + n, outcomes, (from + n) as int),
    decreases n,
{
    if n > 0 {
        assert(outcomes[from as int].failure() is Some);
        lemma_failures_are_retried(outcomes, from + 1, (n - 1) as nat);
    }
}

} // verus!
