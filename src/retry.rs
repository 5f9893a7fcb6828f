//! Failure classification and exponential backoff. The retry loop itself
//! alternates attempts and sleeps; what it decides after each failed attempt
//! is `RetryConfig::next_step`.
use crate::error::SfError;
use vstd::arithmetic::power::pow;
use vstd::prelude::*;

verus! {

/// How failed attempts are retried. Intervals are in milliseconds; the
/// multiplier is a whole factor.
#[derive(Debug, Clone, Copy)]
pub struct RetryConfig {
    /// Number of retries after the first attempt.
    pub max_retries: u32,
    /// Delay before the first retry.
    pub initial_interval: u64,
    /// Upper bound of any delay.
    pub max_interval: u64,
    /// Factor by which each delay grows over the one before.
    pub multiplier: u32,
    /// Time after the first attempt past which no retry starts.
    pub max_elapsed_time: Option<u64>,
}

impl Default for RetryConfig {
    fn default() -> (r: Self)
        ensures
            r.max_retries == 3,
            r.initial_interval == 500,
            r.max_interval == 30_000,
            r.multiplier == 2,
            r.max_elapsed_time == Some(300_000u64),
    {
        RetryConfig {
            max_retries: 3,
            initial_interval: 500,
            max_interval: 30_000,
            multiplier: 2,
            max_elapsed_time: Some(300_000),
        }
    }
}

/// What the retry loop does after a failed attempt.
#[derive(Debug, Clone, Copy, PartialEq, Eq)]
pub enum RetryStep {
    /// Sleep this many milliseconds, then attempt again.
    Retry { delay: u64 },
    /// Hand the failure to the caller.
    GiveUp,
}

/// The statuses of a transient server condition.
pub open spec fn transient_status(status: u16) -> bool {
    status == 408 || status == 429 || status == 500 || status == 502 || status == 503 || status
        == 504
}

/// Whether a failure may go away when the attempt is repeated: transport
/// failures, exhausted quota and transient server statuses.
pub open spec fn retryable(e: SfError) -> bool {
    match e {
        SfError::Network(_) => true,
        SfError::RateLimit { .. } => true,
        SfError::Api { status, .. } => transient_status(status),
        _ => false,
    }
}

/// The delay before retry number `n` (counted from 1):
/// `min(initial * multiplier^(n-1), max)`.
pub open spec fn backoff(c: RetryConfig, n: nat) -> nat
    recommends
        n >= 1,
{
    let d = c.initial_interval * pow(c.multiplier as int, (n - 1) as nat);
    if d <= c.max_interval {
        d as nat
    } else {
        c.max_interval as nat
    }
}

pub open spec fn within_budget(c: RetryConfig, elapsed: u64) -> bool {
    match c.max_elapsed_time {
        Some(limit) => elapsed <= limit,
        None => true,
    }
}

/// The step after attempt number `attempt` (counted from 1) failed with `e`,
/// `elapsed` milliseconds after the first attempt started.
pub open spec fn step_after(c: RetryConfig, attempt: u32, e: SfError, elapsed: u64) -> RetryStep {
    if retryable(e) && 1 <= attempt <= c.max_retries && within_budget(c, elapsed) {
        RetryStep::Retry { delay: backoff(c, attempt as nat) as u64 }
    } else {
        RetryStep::GiveUp
    }
}

/// Whether `e` is worth another attempt.
pub fn is_retryable(e: &SfError) -> (r: bool)
    ensures
        r == retryable(*e),
{
    match e {
        SfError::Network(_) => true,
        SfError::RateLimit { .. } => true,
        SfError::Api { status, .. } => *status == 408 || *status == 429 || *status == 500
            || *status == 502 || *status == 503 || *status == 504,
        _ => false,
    }
}

proof fn lemma_backoff_grows(c: RetryConfig, k: nat, prev: nat)
    requires
        k >= 1,
        prev == backoff(c, k),
    ensures
        (if prev * c.multiplier <= c.max_interval {
            (prev * c.multiplier) as nat
        } else {
            c.max_interval as nat
        }) == backoff(c, k + 1),
{
    let m = c.multiplier as int;
    let x = c.initial_interval * pow(m, (k - 1) as nat);
    vstd::arithmetic::power::lemma_pow_adds(m, (k - 1) as nat, 1);
    vstd::arithmetic::power::lemma_pow1(m);
    assert(pow(m, k) == pow(m, (k - 1) as nat) * m);
    assert(c.initial_interval * pow(m, k) == x * m) by (nonlinear_arith)
        requires
            pow(m, k) == pow(m, (k - 1) as nat) * m,
            x == c.initial_interval * pow(m, (k - 1) as nat),
    ;
    if m > 0 {
        vstd::arithmetic::power::lemma_pow_positive(m, (k - 1) as nat);
    } else if k == 1 {
        vstd::arithmetic::power::lemma_pow0(m);
    } else {
        vstd::arithmetic::power::lemma0_pow((k - 1) as nat);
    }
    assert(x >= 0) by (nonlinear_arith)
        requires
            x == c.initial_interval * pow(m, (k - 1) as nat),
            pow(m, (k - 1) as nat) >= 0,
    ;
    let big = c.max_interval as int;
    if x > big {
        assert(prev == big);
        if m >= 1 {
            assert(x * m >= x && big * m >= big) by (nonlinear_arith)
                requires
                    x >= 0,
                    big >= 0,
                    m >= 1,
            ;
        } else {
            assert(m == 0);
            assert(x * m == 0 && big * m == 0) by (nonlinear_arith)
                requires
                    m == 0,
            ;
        }
    }
}

impl RetryConfig {
    /// The default policy: three retries from half a second, doubling, at
    /// most thirty seconds apart, none started after five minutes.
    pub fn new() -> (r: Self)
        ensures
            r.max_retries == 3,
            r.initial_interval == 500,
            r.max_interval == 30_000,
            r.multiplier == 2,
            r.max_elapsed_time == Some(300_000u64),
    {
        Self::default()
    }

    /// Sets the number of retries.
    pub fn max_retries(self, max: u32) -> (r: Self)
        ensures
            r == (RetryConfig { max_retries: max, ..self }),
    {
        RetryConfig { max_retries: max, ..self }
    }

    /// Sets the first delay, in milliseconds.
    pub fn initial_interval(self, millis: u64) -> (r: Self)
        ensures
            r == (RetryConfig { initial_interval: millis, ..self }),
    {
        RetryConfig { initial_interval: millis, ..self }
    }

    /// Sets the largest delay, in milliseconds.
    pub fn max_interval(self, millis: u64) -> (r: Self)
        ensures
            r == (RetryConfig { max_interval: millis, ..self }),
    {
        RetryConfig { max_interval: millis, ..self }
    }

    /// The default policy with retries switched off: one attempt, no delay.
    pub fn no_retry() -> (r: Self)
        ensures
            r.max_retries == 0,
            r.initial_interval == 500,
            r.max_interval == 30_000,
            r.multiplier == 2,
            r.max_elapsed_time == Some(300_000u64),
    {
        RetryConfig { max_retries: 0, ..Self::default() }
    }

    /// The delay before retry number `n`, counted from 1.
    pub fn backoff_delay(&self, n: u32) -> (r: u64)
        requires
            n >= 1,
        ensures
            r == backoff(*self, n as nat),
    {
        let mut delay: u64 = if self.initial_interval <= self.max_interval {
            self.initial_interval
        } else {
            self.max_interval
        };
        proof {
            vstd::arithmetic::power::lemma_pow0(self.multiplier as int);
        }
        let mut k: u32 = 1;
        while k < n
            invariant
                1 <= k <= n,
                delay == backoff(*self, k as nat),
                delay <= self.max_interval,
            decreases n - k,
        {
            proof {
                lemma_backoff_grows(*self, k as nat, delay as nat);
            }
            assert(delay as u128 * self.multiplier as u128 <= u64::MAX as u128 * u32::MAX as u128)
                by (nonlinear_arith)
                requires
                    delay <= u64::MAX,
                    self.multiplier <= u32::MAX,
            ;
            let grown: u128 = delay as u128 * self.multiplier as u128;
            delay = if grown <= self.max_interval as u128 {
                grown as u64
            } else {
                self.max_interval
            };
            k = k + 1;
        }
        delay
    }

    /// What to do after attempt number `attempt` (counted from 1) failed with
    /// `e`, `elapsed` milliseconds after the first attempt started: retry
    /// after the backoff delay while the failure is retryable, retries remain
    /// and the time budget is not spent; else give up.
    pub fn next_step(&self, attempt: u32, e: &SfError, elapsed: u64) -> (r: RetryStep)
        ensures
            r == step_after(*self, attempt, *e, elapsed),
    {
        let in_budget = match self.max_elapsed_time {
            Some(limit) => elapsed <= limit,
            None => true,
        };
        if is_retryable(e) && 1 <= attempt && attempt <= self.max_retries && in_budget {
            RetryStep::Retry { delay: self.backoff_delay(attempt) }
        } else {
            RetryStep::GiveUp
        }
    }
}

/// A failure that is not retryable ends the run at once, whatever the policy,
/// the attempt number and the time spent: nothing is slept.
pub proof fn lemma_fatal_failure_ends_run(c: RetryConfig, attempt: u32, e: SfError, elapsed: u64)
    requires
        !retryable(e),
    ensures
        step_after(c, attempt, e, elapsed) == RetryStep::GiveUp,
{
}

/// With retries switched off, the first failure is handed back and no delay
/// is applied, whatever the failure.
pub proof fn lemma_no_retry_single_attempt(c: RetryConfig, e: SfError, elapsed: u64)
    requires
        c.max_retries == 0,
    ensures
        step_after(c, 1, e, elapsed) == RetryStep::GiveUp,
{
}

/// At most `max_retries` retries happen: a failure of attempt number
/// `max_retries + 1` or later is handed back.
pub proof fn lemma_retries_bounded(c: RetryConfig, attempt: u32, e: SfError, elapsed: u64)
    requires
        attempt > c.max_retries,
    ensures
        step_after(c, attempt, e, elapsed) == RetryStep::GiveUp,
{
}

/// While the delays stay under the cap, doubling delays add up to
/// `initial * (2^n - 1)` over the first `n` retries.
pub proof fn lemma_doubling_total(c: RetryConfig, n: nat)
    requires
        c.multiplier == 2,
        c.initial_interval * pow(2, (n - 1) as nat) <= c.max_interval,
        n >= 1,
    ensures
        total_backoff(c, n) == c.initial_interval * (pow(2, n) - 1),
    decreases n,
{
    vstd::arithmetic::power::lemma_pow_adds(2, (n - 1) as nat, 1);
    vstd::arithmetic::power::lemma_pow1(2);
    vstd::arithmetic::power::lemma_pow_positive(2, (n - 1) as nat);
    if n == 1 {
        vstd::arithmetic::power::lemma_pow0(2);
        assert(total_backoff(c, 0) == 0);
    } else {
        let p = pow(2, (n - 2) as nat);
        vstd::arithmetic::power::lemma_pow_adds(2, (n - 2) as nat, 1);
        vstd::arithmetic::power::lemma_pow_positive(2, (n - 2) as nat);
        assert(pow(2, (n - 1) as nat) == p * 2);
        assert(c.initial_interval * p <= c.initial_interval * (p * 2)) by (nonlinear_arith)
            requires
                p >= 1,
        ;
        lemma_doubling_total(c, (n - 1) as nat);
        assert(c.initial_interval * (pow(2, (n - 1) as nat) - 1) + c.initial_interval * pow(
            2,
            (n - 1) as nat,
        ) == c.initial_interval * (pow(2, n) - 1)) by (nonlinear_arith)
            requires
                pow(2, n) == pow(2, (n - 1) as nat) * 2,
        ;
    }
}

/// The sum of the delays before the first `n` retries.
pub open spec fn total_backoff(c: RetryConfig, n: nat) -> nat
    decreases n,
{
    if n == 0 {
        0
    } else {
        total_backoff(c, (n - 1) as nat) + backoff(c, n)
    }
}

} // verus!
