//! The protocol that takes the exclusive lock on the engine: non-blocking
//! attempts with bounded exponential backoff and jitter, under a total timeout.
//! The decisions stand here; the caller makes each attempt, sleeps, and reads
//! the clock.
use vstd::prelude::*;
use crate::entity::{nat_decimal, unsigned_text};
use crate::error::AccessError;

verus! {

/// How the exclusive lock is retried. Durations are in milliseconds.
#[derive(Clone, Copy, Debug)]
pub struct RetryConfig {
    /// The pause after the first failed attempt.
    pub initial_delay_ms: u64,
    /// The cap of the doubling pause.
    pub max_delay_ms: u64,
    /// The number of attempts.
    pub max_retries: usize,
    /// The time after which no further attempt is made.
    pub timeout_ms: u64,
}

impl Default for RetryConfig {
    fn default() -> (r: Self)
        ensures
            r.initial_delay_ms == 10,
            r.max_delay_ms == 1000,
            r.max_retries == 10,
            r.timeout_ms == 5000,
    {
        RetryConfig { initial_delay_ms: 10, max_delay_ms: 1000, max_retries: 10, timeout_ms: 5000 }
    }
}

/// The jitter added to a pause: spread by the attempt index over twice a tenth
/// of the pause (at least two milliseconds).
pub open spec fn spec_jitter(delay_ms: nat, attempt: nat) -> nat {
    let tenth = delay_ms / 10;
    let span = if tenth < 1 { 2 } else { 2 * tenth };
    (attempt * 17) % span
}

/// The pause before the next attempt: the delay and its jitter.
pub open spec fn spec_pause(delay_ms: nat, attempt: nat) -> nat {
    let p = delay_ms + spec_jitter(delay_ms, attempt);
    if p > u64::MAX { u64::MAX as nat } else { p }
}

/// The delay after a pause: doubled, at most `max_delay_ms`.
pub open spec fn spec_next_delay(delay_ms: nat, max_delay_ms: nat) -> nat {
    let d = if 2 * delay_ms > u64::MAX { u64::MAX as nat } else { 2 * delay_ms };
    if d < max_delay_ms { d } else { max_delay_ms }
}

pub fn jitter_ms(delay_ms: u64, attempt: usize) -> (r: u64)
    ensures
        r == spec_jitter(delay_ms as nat, attempt as nat),
{
    let tenth = delay_ms / 10;
    let span: u64 = if tenth < 1 { 2 } else { 2 * tenth };
    let spread: u128 = (attempt as u128) * 17;
    ((spread % (span as u128)) as u64)
}

pub fn pause_ms(delay_ms: u64, attempt: usize) -> (r: u64)
    ensures
        r == spec_pause(delay_ms as nat, attempt as nat),
{
    delay_ms.saturating_add(jitter_ms(delay_ms, attempt))
}

pub fn next_delay_ms(delay_ms: u64, max_delay_ms: u64) -> (r: u64)
    ensures
        r == spec_next_delay(delay_ms as nat, max_delay_ms as nat),
{
    let d: u64 = if delay_ms > u64::MAX / 2 { u64::MAX } else { delay_ms * 2 };
    if d < max_delay_ms {
        d
    } else {
        max_delay_ms
    }
}

pub open spec fn timeout_message(attempt: nat) -> Seq<char> {
    "Timeout while acquiring write lock after "@ + nat_decimal(attempt) + " attempts"@
}

pub open spec fn exhausted_message() -> Seq<char> {
    "Please try again later"@
}

/// What to do before an attempt.
#[derive(Clone, Debug)]
pub enum RetryStep {
    /// Try the exclusive lock once, without waiting.
    TryAcquire,
    /// Stop: the lock could not be had.
    GiveUp(AccessError),
}

/// Where a run of attempts stands.
#[derive(Clone, Copy, Debug)]
pub struct RetryState {
    /// The number of attempts made so far.
    pub attempt: usize,
    /// The delay before the jitter of the next pause.
    pub delay_ms: u64,
}

/// The state after one more failed attempt.
pub open spec fn spec_advance(st: RetryState, config: RetryConfig) -> RetryState {
    RetryState {
        attempt: (st.attempt + 1) as usize,
        delay_ms: if st.attempt + 1 < config.max_retries {
            spec_next_delay(st.delay_ms as nat, config.max_delay_ms as nat) as u64
        } else {
            st.delay_ms
        },
    }
}

/// The state after `k` failed attempts from the start.
pub open spec fn state_after(config: RetryConfig, k: nat) -> RetryState
    decreases k,
{
    if k == 0 {
        RetryState { attempt: 0, delay_ms: config.initial_delay_ms }
    } else {
        spec_advance(state_after(config, (k - 1) as nat), config)
    }
}

/// Whether `step` gives up with a retry-later error whose text is `msg`.
pub open spec fn gives_up_with(step: RetryStep, msg: Seq<char>) -> bool {
    match step {
        RetryStep::GiveUp(AccessError::RetryLater(m)) => m@ == msg,
        _ => false,
    }
}

impl RetryState {
    pub fn start(config: &RetryConfig) -> (r: RetryState)
        ensures
            r == state_after(*config, 0),
    {
        RetryState { attempt: 0, delay_ms: config.initial_delay_ms }
    }

    /// Decides, `elapsed_ms` after the first attempt began, whether to make
    /// another attempt.
    pub fn before_attempt(&self, config: &RetryConfig, elapsed_ms: u64) -> (r: RetryStep)
        ensures
            self.attempt >= config.max_retries ==> gives_up_with(r, exhausted_message()),
            self.attempt < config.max_retries && elapsed_ms >= config.timeout_ms ==> gives_up_with(
                r,
                timeout_message(self.attempt as nat),
            ),
            self.attempt < config.max_retries && elapsed_ms < config.timeout_ms ==> r
                is TryAcquire,
    {
        if self.attempt >= config.max_retries {
            RetryStep::GiveUp(AccessError::RetryLater(String::from_str("Please try again later")))
        } else if elapsed_ms >= config.timeout_ms {
            let m = String::from_str("Timeout while acquiring write lock after ");
            let m = m.concat(unsigned_text(self.attempt as u64).as_str());
            let m = m.concat(" attempts");
            RetryStep::GiveUp(AccessError::RetryLater(m))
        } else {
            RetryStep::TryAcquire
        }
    }

    /// After a failed attempt: the pause to sleep before the next attempt
    /// (none after the last one), and the next state.
    pub fn after_failure(&self, config: &RetryConfig) -> (r: (Option<u64>, RetryState))
        requires
            self.attempt < config.max_retries,
        ensures
            r.1 == spec_advance(*self, *config),
            self.attempt + 1 < config.max_retries ==> r.0 == Some(
                spec_pause(self.delay_ms as nat, self.attempt as nat) as u64,
            ),
            self.attempt + 1 >= config.max_retries ==> r.0 is None,
    {
        if self.attempt + 1 < config.max_retries {
            let pause = pause_ms(self.delay_ms, self.attempt);
            let next = RetryState {
                attempt: self.attempt + 1,
                delay_ms: next_delay_ms(self.delay_ms, config.max_delay_ms),
            };
            (Some(pause), next)
        } else {
            (None, RetryState { attempt: self.attempt + 1, delay_ms: self.delay_ms })
        }
    }
}

/// However long the lock stays taken, a run gives up with a retry-later error:
/// after `k` failed attempts (at most `max_retries`) `k` attempts are counted, and
/// the state after `max_retries` of them gives up whatever the clock says; each
/// pause stays within the larger of the first delay and the cap, plus jitter.
pub proof fn lemma_retry_bounded(config: RetryConfig, k: nat)
    requires
        k <= config.max_retries,
    ensures
        state_after(config, k).attempt == k,
        state_after(config, k).delay_ms <= if config.initial_delay_ms < config.max_delay_ms {
            config.max_delay_ms
        } else {
            config.initial_delay_ms
        },
    decreases k,
{
    if k > 0 {
        lemma_retry_bounded(config, (k - 1) as nat);
    }
}

/// A pause exceeds its delay by less than a fifth of it plus two milliseconds.
pub proof fn lemma_pause_bounded(delay_ms: nat, attempt: nat)
    ensures
        spec_pause(delay_ms, attempt) <= delay_ms + delay_ms / 5 + 2,
{
    let tenth = delay_ms / 10;
    let span: nat = if tenth < 1 { 2 } else { 2 * tenth };
    assert((attempt * 17) % span < span) by (nonlinear_arith)
        requires
            span > 0,
    ;
    assert(2 * (delay_ms / 10) <= delay_ms / 5) by (nonlinear_arith);
}

} // verus!
