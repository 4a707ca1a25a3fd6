//! The bucket record and the refill-and-consume step that is applied to it,
//! as one indivisible unit, on every check.
//!
//! A bucket holds a whole number of units. One token is `UNITS_PER_TOKEN`
//! units, which makes a rate of one request per minute refill exactly one
//! unit per millisecond: no rounding ever enters the stored count.

use vstd::prelude::*;

verus! {

/// Units that make up one token (60 seconds per minute times 1000
/// milliseconds per second).
pub const UNITS_PER_TOKEN: u128 = 60_000;

/// Idle time, in milliseconds, after which a record is gone from the store.
pub const IDLE_WINDOW_MS: i64 = 120_000;

/// The answer to one check.
#[derive(Debug, Clone, Copy, PartialEq, Eq, Structural)]
pub struct RateLimitResult {
    pub allowed: bool,
    /// Whole tokens left after this check.
    pub remaining: i64,
    /// Milliseconds to wait before a retry can succeed; zero when allowed.
    pub retry_after_ms: i64,
}

/// The mathematical content of a bucket record: the token count is
/// `units / 60000`, the timestamp is in milliseconds since the epoch.
pub struct BucketState {
    pub units: int,
    pub last_refill: int,
}

/// One bucket record, as it is stored per client.
#[derive(Debug, Clone, Copy, PartialEq, Eq, Structural)]
pub struct Bucket {
    pub units: u128,
    pub last_refill: i64,
}

impl View for Bucket {
    type V = BucketState;

    open spec fn view(&self) -> BucketState {
        BucketState { units: self.units as int, last_refill: self.last_refill as int }
    }
}

/// Capacity in tokens for a requested burst: never less than one.
pub open spec fn capacity(burst: int) -> int {
    if burst > 1 {
        burst
    } else {
        1
    }
}

/// Capacity in units.
pub open spec fn capacity_units(burst: int) -> int {
    capacity(burst) * 60000
}

/// Milliseconds that count towards a refill: a clock that ran backwards
/// counts as no time at all.
pub open spec fn elapsed(last_refill: int, now: int) -> int {
    if now > last_refill {
        now - last_refill
    } else {
        0
    }
}

/// The invariant of a stored record under the burst of the call that wrote
/// it: between nothing and the capacity.
pub open spec fn fits(s: BucketState, burst: int) -> bool {
    0 <= s.units <= capacity_units(burst)
}

/// A full bucket, last refilled at `now`.
pub open spec fn full(burst: int, now: int) -> BucketState {
    BucketState { units: capacity_units(burst), last_refill: now }
}

/// Whether a record that was last touched at `s.last_refill` has sat idle
/// for the whole window at `now`.
pub open spec fn expired(s: BucketState, now: int) -> bool {
    now - s.last_refill >= 120000
}

/// The record a check starts from: the stored one, or a full bucket where
/// none is stored or the stored one has expired.
pub open spec fn live(record: Option<BucketState>, burst: int, now: int) -> BucketState {
    match record {
        Some(s) => if expired(s, now) {
            full(burst, now)
        } else {
            s
        },
        None => full(burst, now),
    }
}

/// The record after refilling up to `now` at `rpm` requests per minute:
/// one unit per millisecond and request-per-minute, saturating at capacity.
pub open spec fn refilled(s: BucketState, burst: int, rpm: int, now: int) -> BucketState {
    let grown = s.units + elapsed(s.last_refill, now) * rpm;
    BucketState {
        units: if grown < capacity_units(burst) {
            grown
        } else {
            capacity_units(burst)
        },
        last_refill: now,
    }
}

/// Whether a refilled record holds a whole token.
pub open spec fn admits(s: BucketState) -> bool {
    s.units >= 60000
}

/// The record after the consume step: one token less where one was there.
pub open spec fn consumed(s: BucketState) -> BucketState {
    if admits(s) {
        BucketState { units: s.units - 60000, last_refill: s.last_refill }
    } else {
        s
    }
}

/// Waiting time in milliseconds until a whole token is there: the missing
/// units divided by the units gained per millisecond, rounded up.
pub open spec fn wait_ms(s: BucketState, rpm: int) -> int {
    if admits(s) {
        0
    } else {
        (60000 - s.units + rpm - 1) / rpm
    }
}

/// Whether `r` is the answer that the consume step gives on the refilled
/// record `s`.
pub open spec fn answers(r: RateLimitResult, s: BucketState, rpm: int) -> bool {
    &&& r.allowed == admits(s)
    &&& r.remaining == consumed(s).units / 60000
    &&& r.retry_after_ms == wait_ms(s, rpm)
}

/// The record that one whole check leaves behind.
pub open spec fn step(record: Option<BucketState>, burst: int, rpm: int, now: int) -> BucketState {
    consumed(refilled(live(record, burst, now), burst, rpm, now))
}

/// Whether one whole check on `record` is admitted.
pub open spec fn step_admits(record: Option<BucketState>, burst: int, rpm: int, now: int) -> bool {
    admits(refilled(live(record, burst, now), burst, rpm, now))
}

/// The view of an optional stored record.
pub open spec fn record_view(record: Option<Bucket>) -> Option<BucketState> {
    match record {
        Some(b) => Some(b@),
        None => None,
    }
}

/// The waiting time of a denial is the ceiling of the missing tokens over
/// the rate: the least whole number of milliseconds in which the missing
/// units are gained at `rpm` units per millisecond.
pub proof fn lemma_wait_is_ceiling(s: BucketState, rpm: int)
    requires
        rpm > 0,
        0 <= s.units < 60000,
    ensures
        wait_ms(s, rpm) * rpm >= 60000 - s.units,
        (wait_ms(s, rpm) - 1) * rpm < 60000 - s.units,
        1 <= wait_ms(s, rpm) <= 60000 - s.units,
{
    let missing = 60000 - s.units;
    let padded = missing + rpm - 1;
    let wait = padded / rpm;
    vstd::arithmetic::div_mod::lemma_fundamental_div_mod(padded, rpm);
    vstd::arithmetic::div_mod::lemma_mod_bound(padded, rpm);
    assert(wait * rpm == rpm * wait) by (nonlinear_arith);
    assert((wait - 1) * rpm == wait * rpm - rpm) by (nonlinear_arith);
    assert(wait >= 1) by (nonlinear_arith)
        requires
            wait * rpm >= 1,
            rpm > 0,
    ;
    assert(wait - 1 <= (wait - 1) * rpm) by (nonlinear_arith)
        requires
            wait >= 1,
            rpm >= 1,
    ;
}

/// Capacity in tokens for a requested burst.
pub fn capacity_of(burst: i64) -> (cap: i64)
    ensures
        cap == capacity(burst as int),
{
    if burst > 1 {
        burst
    } else {
        1
    }
}

/// Milliseconds from `last_refill` to `now_ms`, zero where the clock ran
/// backwards.
pub fn elapsed_between(last_refill: i64, now_ms: i64) -> (gap: u128)
    ensures
        gap == elapsed(last_refill as int, now_ms as int),
{
    if now_ms > last_refill {
        let span: i128 = (now_ms as i128) - (last_refill as i128);
        span as u128
    } else {
        0
    }
}

impl Bucket {
    /// A record with the given content.
    pub fn new(units: u128, last_refill: i64) -> (b: Bucket)
        ensures
            b.units == units,
            b.last_refill == last_refill,
    {
        Bucket { units, last_refill }
    }

    /// A full bucket for the requested burst, last refilled at `now_ms`.
    pub fn full(burst: i64, now_ms: i64) -> (b: Bucket)
        ensures
            b@ == full(burst as int, now_ms as int),
            fits(b@, burst as int),
    {
        let cap: i64 = capacity_of(burst);
        Bucket { units: (cap as u128) * UNITS_PER_TOKEN, last_refill: now_ms }
    }

    /// Whole tokens held.
    pub fn whole_tokens(&self) -> (n: u128)
        ensures
            n == self@.units / 60000,
    {
        self.units / UNITS_PER_TOKEN
    }

    /// Whether the record has sat idle for the whole window at `now_ms`.
    pub fn is_expired(&self, now_ms: i64) -> (gone: bool)
        ensures
            gone == expired(self@, now_ms as int),
    {
        (now_ms as i128) - (self.last_refill as i128) >= (IDLE_WINDOW_MS as i128)
    }

    /// Adds what has accrued since the last refill, up to capacity, and
    /// stamps the record with `now_ms`. Tokens never exceed
    /// `min(capacity, before + elapsed * rate)`, and a clock that ran
    /// backwards takes nothing away.
    pub fn refill(&mut self, burst: i64, requests_per_minute: i64, now_ms: i64)
        requires
            requests_per_minute > 0,
        ensures
            final(self)@ == refilled(old(self)@, burst as int, requests_per_minute as int, now_ms as int),
            fits(final(self)@, burst as int),
            final(self)@.units <= old(self)@.units + elapsed(old(self)@.last_refill, now_ms as int)
                * requests_per_minute,
    {
        let cap: u128 = (capacity_of(burst) as u128) * UNITS_PER_TOKEN;
        let gap: u128 = elapsed_between(self.last_refill, now_ms);
        let rate: u128 = requests_per_minute as u128;
        let held: u128 = if self.units < cap {
            self.units
        } else {
            cap
        };
        assert(gap * rate <= 0x1_0000_0000_0000_0000 * 0x8000_0000_0000_0000) by (nonlinear_arith)
            requires
                0 <= gap <= 0x1_0000_0000_0000_0000,
                0 <= rate <= 0x8000_0000_0000_0000,
        ;
        assert(gap * rate >= 0) by (nonlinear_arith)
            requires
                0 <= gap,
                0 <= rate,
        ;
        let gain: u128 = gap * rate;
        let grown: u128 = held + gain;
        self.units = if grown < cap {
            grown
        } else {
            cap
        };
        self.last_refill = now_ms;
    }

    /// Takes one token where a whole one is there, and answers either way.
    /// A denial leaves the record as it is and says how long to wait.
    pub fn consume(&mut self, requests_per_minute: i64) -> (r: RateLimitResult)
        requires
            requests_per_minute > 0,
            old(self).units / 60000 <= i64::MAX,
        ensures
            final(self)@ == consumed(old(self)@),
            answers(r, old(self)@, requests_per_minute as int),
    {
        if self.units >= UNITS_PER_TOKEN {
            self.units = self.units - UNITS_PER_TOKEN;
            let left: u128 = self.units / UNITS_PER_TOKEN;
            RateLimitResult { allowed: true, remaining: left as i64, retry_after_ms: 0 }
        } else {
            let missing: u128 = UNITS_PER_TOKEN - self.units;
            let rate: u128 = requests_per_minute as u128;
            assert((missing + rate - 1) / (rate as int) <= missing) by (nonlinear_arith)
                requires
                    missing >= 1,
                    rate >= 1,
            ;
            let wait: u128 = (missing + rate - 1) / rate;
            RateLimitResult { allowed: false, remaining: 0, retry_after_ms: wait as i64 }
        }
    }

    /// One whole check on a live record: refill, then consume.
    pub fn check(&mut self, burst: i64, requests_per_minute: i64, now_ms: i64) -> (r:
        RateLimitResult)
        requires
            requests_per_minute > 0,
        ensures
            final(self)@ == consumed(
                refilled(old(self)@, burst as int, requests_per_minute as int, now_ms as int),
            ),
            answers(
                r,
                refilled(old(self)@, burst as int, requests_per_minute as int, now_ms as int),
                requests_per_minute as int,
            ),
            r.allowed ==> r.retry_after_ms == 0,
            !r.allowed ==> r.remaining == 0 && 1 <= r.retry_after_ms <= 60000,
            0 <= r.remaining < capacity(burst as int),
            fits(final(self)@, burst as int),
            final(self)@.last_refill == now_ms,
    {
        self.refill(burst, requests_per_minute, now_ms);
        proof {
            if !admits(self@) {
                lemma_wait_is_ceiling(self@, requests_per_minute as int);
            }
        }
        let r = self.consume(requests_per_minute);
        r
    }
}

/// The record a check starts from: the stored one, or a full bucket where
/// none is stored or the stored one has expired.
pub fn live_record(record: Option<Bucket>, burst: i64, now_ms: i64) -> (b: Bucket)
    ensures
        b@ == live(record_view(record), burst as int, now_ms as int),
{
    match record {
        Some(b) => {
            if b.is_expired(now_ms) {
                Bucket::full(burst, now_ms)
            } else {
                b
            }
        },
        None => Bucket::full(burst, now_ms),
    }
}

/// One whole check against what the store holds for a client: the record
/// to write back, and the answer.
pub fn check_record(record: Option<Bucket>, burst: i64, requests_per_minute: i64, now_ms: i64) -> (out:
    (Bucket, RateLimitResult))
    requires
        requests_per_minute > 0,
    ensures
        out.0@ == step(record_view(record), burst as int, requests_per_minute as int, now_ms as int),
        out.1.allowed == step_admits(
            record_view(record),
            burst as int,
            requests_per_minute as int,
            now_ms as int,
        ),
        answers(
            out.1,
            refilled(
                live(record_view(record), burst as int, now_ms as int),
                burst as int,
                requests_per_minute as int,
                now_ms as int,
            ),
            requests_per_minute as int,
        ),
        out.0@.last_refill == now_ms,
        fits(out.0@, burst as int),
{
    let mut b = live_record(record, burst, now_ms);
    let r = b.check(burst, requests_per_minute, now_ms);
    (b, r)
}

} // verus!
