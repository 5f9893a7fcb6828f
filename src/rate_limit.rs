//! Token-bucket admission control. The bucket holds up to `burst_size`
//! permits and refills continuously at `requests_per_second`; refilling is
//! computed lazily from the clock reading handed to each call, so no timer
//! runs in the background. Clock readings are nanoseconds from any fixed
//! origin.
use crate::error::{SfError, SfResult};
use vstd::prelude::*;

verus! {

/// Nanoseconds in a second; one permit is this many units of bucket fill.
pub const NANOS_PER_SECOND: u64 = 1_000_000_000;

/// Sustained rate and burst capacity of admission.
#[derive(Debug, Clone, Copy)]
pub struct RateLimitConfig {
    /// Permits added per second.
    pub requests_per_second: u32,
    /// Permits available at once.
    pub burst_size: u32,
}

impl Default for RateLimitConfig {
    fn default() -> (r: Self)
        ensures
            r.requests_per_second == 4,
            r.burst_size == 10,
    {
        RateLimitConfig { requests_per_second: 4, burst_size: 10 }
    }
}

impl RateLimitConfig {
    /// Four requests per second with bursts of ten.
    pub fn new() -> (r: Self)
        ensures
            r.requests_per_second == 4,
            r.burst_size == 10,
    {
        Self::default()
    }

    /// Sets the sustained rate.
    pub fn requests_per_second(self, rps: u32) -> (r: Self)
        ensures
            r.requests_per_second == rps,
            r.burst_size == self.burst_size,
    {
        RateLimitConfig { requests_per_second: rps, ..self }
    }

    /// Sets the burst capacity.
    pub fn burst_size(self, size: u32) -> (r: Self)
        ensures
            r.requests_per_second == self.requests_per_second,
            r.burst_size == size,
    {
        RateLimitConfig { burst_size: size, ..self }
    }

    /// No limit at all: every request is admitted at once.
    pub fn unlimited() -> (r: Self)
        ensures
            r.requests_per_second == u32::MAX,
            r.burst_size == u32::MAX,
    {
        RateLimitConfig { requests_per_second: u32::MAX, burst_size: u32::MAX }
    }
}

/// The state of a bucket. `level` counts fill units (a permit is
/// `NANOS_PER_SECOND` of them); `rate` permits per second add `rate` units
/// per nanosecond; `last` is the clock reading of the last refill.
pub struct Bucket {
    pub enabled: bool,
    pub rate: nat,
    pub capacity: nat,
    pub level: nat,
    pub last: nat,
}

pub open spec fn unit() -> nat {
    NANOS_PER_SECOND as nat
}

/// The bucket brought forward to clock reading `now`.
pub open spec fn refill(b: Bucket, now: nat) -> Bucket {
    if now > b.last {
        let grown = (b.level + (now - b.last) * b.rate) as nat;
        Bucket { level: if grown <= b.capacity { grown } else { b.capacity }, last: now, ..b }
    } else {
        b
    }
}

/// One admission attempt at `now`: the new state, and whether a permit was granted.
pub open spec fn attempt(b: Bucket, now: nat) -> (Bucket, bool) {
    if !b.enabled {
        (b, true)
    } else {
        let r = refill(b, now);
        if r.level >= unit() {
            (Bucket { level: (r.level - unit()) as nat, ..r }, true)
        } else {
            (r, false)
        }
    }
}

/// Nanoseconds from `now` until the bucket holds a whole permit.
pub open spec fn wait_for(b: Bucket, now: nat) -> nat {
    let missing = unit() - refill(b, now).level;
    if missing <= 0 {
        0
    } else {
        ((missing + b.rate - 1) / (b.rate as int)) as nat
    }
}

/// Admission attempts at the given clock readings, in order: the final state
/// and how many were granted.
pub open spec fn run(b: Bucket, times: Seq<nat>) -> (Bucket, nat)
    decreases times.len(),
{
    if times.len() == 0 {
        (b, 0)
    } else {
        let (s, n) = run(b, times.drop_last());
        let (s2, ok) = attempt(s, times.last());
        (s2, if ok { n + 1 } else { n })
    }
}

pub open spec fn nondecreasing(times: Seq<nat>) -> bool {
    forall|i: int, j: int| 0 <= i <= j < times.len() ==> times[i] <= times[j]
}

/// Token-bucket rate limiter.
pub struct RateLimiter {
    enabled: bool,
    rate: u64,
    capacity: u64,
    level: u64,
    last: u64,
}

/// Whether a request could be admitted now, and if not, how long until it can.
#[derive(Debug, Clone)]
pub struct RateLimitStatus {
    /// Whether a request can be made immediately.
    pub available: bool,
    /// Nanoseconds to wait before the next request, when not available.
    pub wait_time: Option<u64>,
}

impl View for RateLimiter {
    type V = Bucket;

    closed spec fn view(&self) -> Bucket {
        Bucket {
            enabled: self.enabled,
            rate: self.rate as nat,
            capacity: self.capacity as nat,
            level: self.level as nat,
            last: self.last as nat,
        }
    }
}

impl RateLimiter {
    /// The limiter's internal invariant.
    pub closed spec fn wf(&self) -> bool {
        &&& 1 <= self.rate <= u32::MAX
        &&& unit() <= self.capacity <= u32::MAX as nat * unit()
        &&& self.level <= self.capacity
    }

    /// A limiter for `config`, with a full bucket. A rate of `u32::MAX`
    /// switches limiting off; a rate or burst of zero counts as one.
    pub fn new(config: RateLimitConfig) -> (r: Self)
        ensures
            r.wf(),
            r@.enabled == (config.requests_per_second < u32::MAX),
            r@.rate == (if config.requests_per_second == 0 {
                1
            } else {
                config.requests_per_second as nat
            }),
            r@.capacity == (if config.burst_size == 0 {
                1
            } else {
                config.burst_size as nat
            }) * unit(),
            r@.level == r@.capacity,
            r@.last == 0,
    {
        let rate: u64 = if config.requests_per_second == 0 {
            1
        } else {
            config.requests_per_second as u64
        };
        let burst: u64 = if config.burst_size == 0 {
            1
        } else {
            config.burst_size as u64
        };
        assert(burst * NANOS_PER_SECOND <= u32::MAX as nat * unit()) by (nonlinear_arith)
            requires
                burst <= u32::MAX,
        ;
        assert(burst * NANOS_PER_SECOND >= unit()) by (nonlinear_arith)
            requires
                burst >= 1,
        ;
        let capacity = burst * NANOS_PER_SECOND;
        RateLimiter {
            enabled: config.requests_per_second < u32::MAX,
            rate,
            capacity,
            level: capacity,
            last: 0,
        }
    }

    /// Whether requests are limited at all.
    pub fn is_enabled(&self) -> (r: bool)
        ensures
            r == self@.enabled,
    {
        self.enabled
    }

    fn refilled_level(&self, now: u64) -> (r: u64)
        requires
            self.wf(),
        ensures
            r == refill(self@, now as nat).level,
            r <= self.capacity,
    {
        if now > self.last {
            let elapsed = now - self.last;
            assert(elapsed as u128 * self.rate as u128 <= u64::MAX as u128 * u32::MAX as u128)
                by (nonlinear_arith)
                requires
                    elapsed <= u64::MAX,
                    self.rate <= u32::MAX,
            ;
            let grown: u128 = self.level as u128 + elapsed as u128 * self.rate as u128;
            if grown <= self.capacity as u128 {
                grown as u64
            } else {
                self.capacity
            }
        } else {
            self.level
        }
    }

    fn wait_from(&self, level: u64) -> (r: u64)
        requires
            self.wf(),
            level < NANOS_PER_SECOND,
        ensures
            r == ((unit() - level + self.rate - 1) / (self.rate as int)) as nat,
    {
        let missing = NANOS_PER_SECOND - level;
        (missing + (self.rate - 1)) / self.rate
    }

    /// One admission attempt at clock reading `now`. Grants a permit when the
    /// refilled bucket holds one (or limiting is off); otherwise takes
    /// nothing and returns the nanoseconds until a permit will be there.
    pub fn check(&mut self, now: u64) -> (r: Result<(), u64>)
        requires
            old(self).wf(),
        ensures
            final(self).wf(),
            final(self)@ == attempt(old(self)@, now as nat).0,
            r is Ok == attempt(old(self)@, now as nat).1,
            match r {
                Ok(_) => true,
                Err(w) => w == wait_for(old(self)@, now as nat),
            },
    {
        if !self.enabled {
            return Ok(());
        }
        let level = self.refilled_level(now);
        if now > self.last {
            self.last = now;
        }
        if level >= NANOS_PER_SECOND {
            self.level = level - NANOS_PER_SECOND;
            Ok(())
        } else {
            self.level = level;
            Err(self.wait_from(level))
        }
    }

    /// Like `check`, with a refusal reported as `RateLimit`, whose
    /// `retry_after` is the wait in whole seconds, rounded down.
    pub fn try_acquire(&mut self, now: u64) -> (r: SfResult<()>)
        requires
            old(self).wf(),
        ensures
            final(self).wf(),
            final(self)@ == attempt(old(self)@, now as nat).0,
            r is Ok == attempt(old(self)@, now as nat).1,
            match r {
                Ok(_) => true,
                Err(SfError::RateLimit { retry_after: Some(s) }) => s == wait_for(
                    old(self)@,
                    now as nat,
                ) / unit(),
                Err(_) => false,
            },
    {
        match self.check(now) {
            Ok(()) => Ok(()),
            Err(wait) => Err(SfError::RateLimit { retry_after: Some(wait / NANOS_PER_SECOND) }),
        }
    }

    /// Whether a request would be admitted at `now`, without taking a permit.
    pub fn status(&self, now: u64) -> (r: RateLimitStatus)
        requires
            self.wf(),
        ensures
            r.available == attempt(self@, now as nat).1,
            r.available ==> r.wait_time is None,
            !r.available ==> r.wait_time == Some(wait_for(self@, now as nat) as u64),
    {
        if !self.enabled {
            return RateLimitStatus { available: true, wait_time: None };
        }
        let level = self.refilled_level(now);
        if level >= NANOS_PER_SECOND {
            RateLimitStatus { available: true, wait_time: None }
        } else {
            RateLimitStatus { available: false, wait_time: Some(self.wait_from(level)) }
        }
    }
}

/// Waiting the returned time is enough: a refused attempt at `now` followed
/// by one `wait_for` nanoseconds later is granted, and one a nanosecond
/// earlier would not be.
pub proof fn lemma_wait_is_exact(b: Bucket, now: nat)
    requires
        b.enabled,
        b.rate >= 1,
        b.capacity >= unit(),
        b.level <= b.capacity,
        now >= b.last,
        !attempt(b, now).1,
    ensures
        wait_for(b, now) >= 1,
        attempt(attempt(b, now).0, now + wait_for(b, now)).1,
        !attempt(attempt(b, now).0, (now + wait_for(b, now) - 1) as nat).1,
{
    let r = refill(b, now);
    assert(attempt(b, now).0 == r);
    assert(r.last == now);
    assert(r.level < unit());
    assert(r.level <= r.capacity);
    let missing = unit() - r.level;
    let w = wait_for(b, now);
    assert(w == (missing + b.rate - 1) / (b.rate as int));
    assert(w * b.rate >= missing && (w - 1) * b.rate < missing && w >= 1) by (nonlinear_arith)
        requires
            w == (missing + b.rate - 1) / (b.rate as int),
            missing >= 1,
            b.rate >= 1,
    ;
    let later = refill(r, now + w);
    assert((now + w - r.last) * r.rate == w * b.rate);
    assert(later.level >= unit());
    let t = (now + w - 1) as nat;
    if t > r.last {
        assert((t - r.last) * r.rate == (w - 1) * b.rate);
        assert(refill(r, t).level < unit());
    } else {
        assert(refill(r, t) == r);
    }
}

proof fn lemma_run_last(b: Bucket, times: Seq<nat>)
    requires
        b.enabled,
        times.len() >= 1,
        nondecreasing(times),
        times[0] >= b.last,
    ensures
        run(b, times).0.last == times.last(),
        run(b, times).0.enabled == b.enabled,
        run(b, times).0.rate == b.rate,
        run(b, times).0.capacity == b.capacity,
    decreases times.len(),
{
    let pre = times.drop_last();
    if times.len() > 1 {
        lemma_run_last(b, pre);
        assert(pre.last() <= times.last());
    } else {
        assert(run(b, pre) == (b, 0nat));
    }
}

/// Over any stretch of time, what is granted is bounded by the fill at its
/// start plus what refills during it: attempts at nondecreasing readings
/// `times` are granted at most `(fill + (last - first) * rate) / unit` times.
pub proof fn lemma_admission_window(b: Bucket, times: Seq<nat>)
    requires
        b.enabled,
        b.level <= b.capacity,
        times.len() >= 1,
        nondecreasing(times),
        times[0] >= b.last,
    ensures
        run(b, times).1 * unit() + run(b, times).0.level <= refill(b, times[0]).level + (
        times.last() - times[0]) * b.rate,
    decreases times.len(),
{
    if times.len() > 1 {
        let pre = times.drop_last();
        lemma_admission_window(b, pre);
        lemma_run_last(b, pre);
        let (s, n) = run(b, pre);
        let t0 = times[0];
        let tp = pre.last();
        let tk = times.last();
        assert(pre[0] == t0);
        assert(tp <= tk);
        assert(tp >= t0);
        let r = refill(s, tk);
        assert(s.enabled && s.rate == b.rate);
        if tk > s.last {
            assert(r.level <= s.level + (tk - tp) * b.rate);
        } else {
            assert(r.level == s.level);
        }
        let (s2, ok) = attempt(s, tk);
        assert(run(b, times) == (s2, if ok { n + 1 } else { n }));
        assert((if ok { n + 1 } else { n }) * unit() + s2.level == n * unit() + r.level);
        assert(n * unit() + s.level <= refill(b, t0).level + (tp - t0) * b.rate);
        assert(run(b, times).1 == (if ok { n + 1 } else { n }));
        assert(run(b, times).1 * unit() == (if ok { n + 1 } else { n }) * unit());
        assert(run(b, times).0.level == s2.level);
        assert(r.level <= s.level + (tk - tp) * b.rate);
        assert(n * unit() + r.level <= refill(b, t0).level + (tp - t0) * b.rate + (tk - tp) * b.rate);

        assert((tp - t0) * b.rate + (tk - tp) * b.rate == (tk - t0) * b.rate) by (nonlinear_arith)
            requires
                t0 <= tp <= tk,
        ;
    } else {
        assert(run(b, times.drop_last()) == (b, 0nat));
        assert(times.last() == times[0]);
        let (s2, ok) = attempt(b, times[0]);
        assert(run(b, times) == (s2, if ok { 1nat } else { 0nat }));
        assert((times.last() - times[0]) * b.rate == 0);
        assert((if ok { 1nat } else { 0nat }) * unit() + s2.level == refill(b, times[0]).level);
    }
}

/// Burst then spacing: after `burst` permits granted back to back at one
/// instant `t`, the next grant comes no earlier than one permit's refill
/// time, `1 / rate` seconds, after `t`.
pub proof fn lemma_burst_spacing(b: Bucket, burst: nat, t: nat, t2: nat)
    requires
        b.enabled,
        b.rate >= 1,
        b.capacity == burst * unit(),
        b.level <= b.capacity,
        t >= b.last,
        t2 >= t,
        run(b, Seq::new(burst, |i: int| t).push(t2)).1 == burst + 1,
    ensures
        (t2 - t) * b.rate >= unit(),
{
    let times = Seq::new(burst, |i: int| t).push(t2);
    assert(times.len() >= 1);
    assert(nondecreasing(times));
    assert(times[0] >= b.last) by {
        if burst == 0 {
            assert(times[0] == t2);
        }
    }
    lemma_admission_window(b, times);
    assert(times.last() == t2);
    if burst > 0 {
        assert(times[0] == t);
        assert(refill(b, t).level <= burst * unit());
    } else {
        assert(times[0] == t2);
        assert(unit() <= refill(b, t2).level);
        assert(refill(b, t2).level <= b.capacity);
        assert(b.capacity == 0);
    }
    assert((burst + 1) * unit() == burst * unit() + unit()) by (nonlinear_arith);
}

} // verus!
