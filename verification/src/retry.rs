//! Retry with exponential backoff, as a decision: what to do after a failed
//! attempt. The caller makes the attempt and sleeps; nothing here waits.

use vstd::prelude::*;

verus! {

/// How often an operation is attempted, and how long to wait before the
/// first retry. Each later wait is twice the one before.
#[derive(Debug, Clone, Copy, PartialEq, Eq, Structural)]
pub struct RetryPolicy {
    pub max_attempts: u32,
    pub first_delay_secs: u64,
}

/// Where a sequence of attempts stands: how many have failed, and how long
/// to wait before the next one.
#[derive(Debug, Clone, Copy, PartialEq, Eq, Structural)]
pub struct RetryState {
    pub failures: u32,
    pub delay_secs: u64,
}

/// What to do after a failed attempt.
#[derive(Debug, Clone, Copy, PartialEq, Eq, Structural)]
pub enum RetryDecision {
    /// Wait `delay_secs`, then attempt again and go on from `next`.
    RetryAfter { delay_secs: u64, next: RetryState },
    /// Every attempt is spent: report the last failure.
    GiveUp,
}

/// Twice `delay`, or the greatest delay where that does not fit.
pub open spec fn doubled(delay: u64) -> u64 {
    if delay as int * 2 <= u64::MAX as int {
        (delay * 2) as u64
    } else {
        u64::MAX
    }
}

/// The wait before the retry that follows failure number `failures`,
/// counted from one: the first delay, doubled once for every earlier
/// failure.
pub open spec fn delay_before_retry(first: u64, failures: nat) -> u64
    decreases failures,
{
    if failures <= 1 {
        first
    } else {
        doubled(delay_before_retry(first, (failures - 1) as nat))
    }
}

impl RetryPolicy {
    /// Sending a task message to a remote agent: the first attempt and up to
    /// three retries, the first after one second.
    pub fn task_message() -> (policy: RetryPolicy)
        ensures
            policy == (RetryPolicy { max_attempts: 4, first_delay_secs: 1 }),
    {
        RetryPolicy { max_attempts: 4, first_delay_secs: 1 }
    }

    /// A chat completion that the provider refuses for rate limiting: the
    /// first attempt and up to three retries, the first after one second.
    pub fn chat_completion() -> (policy: RetryPolicy)
        ensures
            policy == (RetryPolicy { max_attempts: 4, first_delay_secs: 1 }),
    {
        RetryPolicy { max_attempts: 4, first_delay_secs: 1 }
    }

    /// Registering with the discovery service: two attempts, one second
    /// apart.
    pub fn discovery_registration() -> (policy: RetryPolicy)
        ensures
            policy == (RetryPolicy { max_attempts: 2, first_delay_secs: 1 }),
    {
        RetryPolicy { max_attempts: 2, first_delay_secs: 1 }
    }

    /// The state before the first attempt.
    pub fn begin(&self) -> (state: RetryState)
        ensures
            state == (RetryState { failures: 0, delay_secs: self.first_delay_secs }),
    {
        RetryState { failures: 0, delay_secs: self.first_delay_secs }
    }

    /// The decision after one more failure in `state`.
    pub open spec fn decide(self, state: RetryState) -> RetryDecision {
        if state.failures as int + 1 >= self.max_attempts as int {
            RetryDecision::GiveUp
        } else {
            RetryDecision::RetryAfter {
                delay_secs: state.delay_secs,
                next: RetryState {
                    failures: (state.failures + 1) as u32,
                    delay_secs: doubled(state.delay_secs),
                },
            }
        }
    }

    /// What to do after an attempt has failed in `state`: retry after the
    /// current delay, with the delay doubled for the time after, as long as
    /// fewer than `max_attempts` attempts have failed; else give up.
    pub fn on_failure(&self, state: RetryState) -> (decision: RetryDecision)
        ensures
            decision == self.decide(state),
    {
        if state.failures >= self.max_attempts || state.failures + 1 >= self.max_attempts {
            return RetryDecision::GiveUp;
        }
        let delay_secs = if state.delay_secs <= u64::MAX / 2 {
            state.delay_secs * 2
        } else {
            u64::MAX
        };
        RetryDecision::RetryAfter {
            delay_secs: state.delay_secs,
            next: RetryState { failures: state.failures + 1, delay_secs },
        }
    }

    /// The state after `failures` failed attempts, each of which was
    /// retried.
    pub open spec fn state_after(self, failures: nat) -> RetryState
        decreases failures,
    {
        if failures == 0 {
            RetryState { failures: 0, delay_secs: self.first_delay_secs }
        } else {
            match self.decide(self.state_after((failures - 1) as nat)) {
                RetryDecision::RetryAfter { delay_secs, next } => next,
                RetryDecision::GiveUp => self.state_after((failures - 1) as nat),
            }
        }
    }

    /// A sequence of attempts is retried exactly while fewer than
    /// `max_attempts` have failed: failure number `k` is followed by a retry
    /// where `k < max_attempts`, after the first delay doubled `k - 1` times,
    /// and by giving up where `k == max_attempts`.
    pub proof fn lemma_attempts_bounded(self, k: nat)
        requires
            1 <= k <= self.max_attempts,
        ensures
            self.state_after((k - 1) as nat).failures == k - 1,
            k < self.max_attempts ==> self.decide(self.state_after((k - 1) as nat))
                == (RetryDecision::RetryAfter {
                delay_secs: delay_before_retry(self.first_delay_secs, k),
                next: self.state_after(k),
            }),
            k == self.max_attempts ==> self.decide(self.state_after((k - 1) as nat))
                == RetryDecision::GiveUp,
        decreases k,
    {
        if k > 1 {
            self.lemma_attempts_bounded((k - 1) as nat);
        }
    }
}

} // verus!
