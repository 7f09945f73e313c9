//! The retry policy of requests to the remote backend: which failures are tried again,
//! how often, and after what delay.

use crate::text::{chars_of, contains_text, has_subtext};
use vstd::prelude::*;

verus! {

/// How often a request is attempted, and the delay before its first retry.
#[derive(Clone, Copy, Debug, PartialEq, Eq, Structural)]
pub struct RetryPolicy {
    /// The most attempts, the first one included.
    pub max_attempts: usize,
    /// The delay before the first retry, in milliseconds.
    pub base_delay_ms: u64,
}

/// What follows a failed attempt.
#[derive(Clone, Copy, Debug, PartialEq, Eq, Structural)]
pub enum RetryDecision {
    /// The request has failed for good.
    GiveUp,
    /// The request is attempted again after this many milliseconds.
    RetryAfter { delay_ms: u64 },
}

/// Whether a failure with this message may be transient: the message names a timeout, a
/// connection, the network, or something temporary.
pub open spec fn is_retryable(message: Seq<char>) -> bool {
    ||| has_subtext(message, "timeout"@)
    ||| has_subtext(message, "connection"@)
    ||| has_subtext(message, "network"@)
    ||| has_subtext(message, "temporary"@)
}

/// `base` doubled `times` times.
pub open spec fn doubled(base: nat, times: nat) -> nat
    decreases times,
{
    if times == 0 {
        base
    } else {
        2 * doubled(base, (times - 1) as nat)
    }
}

/// The delay before the retry that follows the failure numbered `failures`, counted from
/// one: the base delay doubled with each earlier failure, and no more than a `u64` holds.
pub open spec fn backoff_ms(base_delay_ms: u64, failures: nat) -> u64 {
    let delay = doubled(base_delay_ms as nat, (failures - 1) as nat);
    if delay > u64::MAX {
        u64::MAX
    } else {
        delay as u64
    }
}

/// What follows the failure numbered `failures`, counted from one, under `policy`.
pub open spec fn retry_decision(policy: RetryPolicy, failures: nat, message: Seq<char>)
    -> RetryDecision {
    if failures >= policy.max_attempts || !is_retryable(message) {
        RetryDecision::GiveUp
    } else {
        RetryDecision::RetryAfter { delay_ms: backoff_ms(policy.base_delay_ms, failures) }
    }
}

/// Doubling never shrinks.
pub proof fn lemma_doubled_grows(base: nat, times: nat)
    ensures
        doubled(base, times) <= doubled(base, times + 1),
        doubled(base, times + 1) == 2 * doubled(base, times),
{
}

/// The delay before a retry is the base delay times two to the power of the failures
/// that came before.
pub proof fn doubling_multiplies_by_a_power_of_two(base: nat, times: nat)
    ensures
        doubled(base, times) == base * vstd::arithmetic::power2::pow2(times),
    decreases times,
{
    if times == 0 {
        vstd::arithmetic::power2::lemma2_to64();
        assert(base * 1 == base) by (nonlinear_arith);
    } else {
        vstd::arithmetic::power2::lemma_pow2_unfold(times);
        doubling_multiplies_by_a_power_of_two(base, (times - 1) as nat);
        let p = vstd::arithmetic::power2::pow2((times - 1) as nat);
        assert(2 * (base * p) == base * (2 * p)) by (nonlinear_arith);
    }
}

/// Whether a failure with this message may be transient.
pub fn message_is_retryable(message: &str) -> (retryable: bool)
    ensures
        retryable == is_retryable(message@),
{
    let text = chars_of(message);
    let timeout = chars_of("timeout");
    let connection = chars_of("connection");
    let network = chars_of("network");
    let temporary = chars_of("temporary");
    contains_text(&text, &timeout) || contains_text(&text, &connection) || contains_text(
        &text,
        &network,
    ) || contains_text(&text, &temporary)
}

impl RetryPolicy {
    /// The policy of an upload: three attempts, one second before the first retry.
    pub fn upload() -> (policy: RetryPolicy)
        ensures
            policy == (RetryPolicy { max_attempts: 3, base_delay_ms: 1000 }),
    {
        RetryPolicy { max_attempts: 3, base_delay_ms: 1000 }
    }

    /// The policy of a search: three attempts, two seconds before the first retry.
    pub fn search() -> (policy: RetryPolicy)
        ensures
            policy == (RetryPolicy { max_attempts: 3, base_delay_ms: 2000 }),
    {
        RetryPolicy { max_attempts: 3, base_delay_ms: 2000 }
    }

    /// The delay before the retry that follows the failure numbered `failures`.
    pub fn backoff(&self, failures: usize) -> (delay_ms: u64)
        requires
            failures >= 1,
        ensures
            delay_ms == backoff_ms(self.base_delay_ms, failures as nat),
    {
        let mut delay: u64 = self.base_delay_ms;
        let mut times: usize = 1;
        while times < failures
            invariant
                1 <= times <= failures,
                delay == backoff_ms(self.base_delay_ms, times as nat),
            decreases failures - times,
        {
            proof {
                lemma_doubled_grows(self.base_delay_ms as nat, (times - 1) as nat);
            }
            if delay > u64::MAX / 2 {
                delay = u64::MAX;
            } else {
                delay = delay * 2;
            }
            times += 1;
        }
        delay
    }

    /// What follows the failure numbered `failures`, counted from one.
    pub fn decide(&self, failures: usize, message: &str) -> (decision: RetryDecision)
        requires
            failures >= 1,
        ensures
            decision == retry_decision(*self, failures as nat, message@),
    {
        if failures >= self.max_attempts || !message_is_retryable(message) {
            RetryDecision::GiveUp
        } else {
            RetryDecision::RetryAfter { delay_ms: self.backoff(failures) }
        }
    }
}

/// The attempts of one request.
pub struct RetryState {
    pub policy: RetryPolicy,
    /// The attempts that have failed.
    pub failures: usize,
}

impl RetryState {
    /// The state before the first attempt.
    pub fn new(policy: RetryPolicy) -> (state: RetryState)
        ensures
            state.policy == policy,
            state.failures == 0,
    {
        RetryState { policy, failures: 0 }
    }

    /// Whether the policy allows an attempt at all.
    pub fn may_attempt(&self) -> (allowed: bool)
        ensures
            allowed == (self.failures < self.policy.max_attempts),
    {
        self.failures < self.policy.max_attempts
    }

    /// Records that an attempt has failed with `message`, and says what follows.
    pub fn on_failure(&mut self, message: &str) -> (decision: RetryDecision)
        requires
            old(self).failures < old(self).policy.max_attempts,
        ensures
            final(self).policy == old(self).policy,
            final(self).failures == old(self).failures + 1,
            decision == retry_decision(old(self).policy, (old(self).failures + 1) as nat, message@),
            decision is RetryAfter ==> final(self).failures < final(self).policy.max_attempts,
    {
        self.failures = self.failures + 1;
        self.policy.decide(self.failures, message)
    }
}

} // verus!
