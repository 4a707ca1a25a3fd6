//! What holds of the check step over runs of calls: saturation, the bound
//! on refill, and the treatment of records that are absent or expired.

use vstd::prelude::*;
use crate::bucket::{
    admits, capacity, capacity_units, elapsed, expired, fits, full, lemma_wait_is_ceiling, live,
    refilled, step, step_admits, wait_ms, BucketState,
};

verus! {

/// What the store holds after `n` checks in a row, all at the instant
/// `now` and with the same limit and burst.
pub open spec fn after_checks(
    record: Option<BucketState>,
    burst: int,
    rpm: int,
    now: int,
    n: nat,
) -> Option<BucketState>
    decreases n,
{
    if n == 0 {
        record
    } else {
        Some(step(after_checks(record, burst, rpm, now, (n - 1) as nat), burst, rpm, now))
    }
}

/// How many of the first `n` checks of such a run are admitted.
pub open spec fn admitted(record: Option<BucketState>, burst: int, rpm: int, now: int, n: nat) -> nat
    decreases n,
{
    if n == 0 {
        0
    } else {
        let before = after_checks(record, burst, rpm, now, (n - 1) as nat);
        let earlier = admitted(record, burst, rpm, now, (n - 1) as nat);
        if step_admits(before, burst, rpm, now) {
            earlier + 1
        } else {
            earlier
        }
    }
}

/// Whole tokens left of a capacity after `n` of them were asked for.
pub open spec fn left_of(burst: int, n: nat) -> int {
    if n <= capacity(burst) {
        capacity(burst) - n
    } else {
        0
    }
}

/// A check that starts from a full bucket refills to a full bucket,
/// however long the record has lain.
proof fn lemma_full_stays_full(record: Option<BucketState>, burst: int, rpm: int, now: int)
    requires
        rpm > 0,
        live(record, burst, now).units == capacity_units(burst),
    ensures
        refilled(live(record, burst, now), burst, rpm, now) == full(burst, now),
{
    let start = live(record, burst, now);
    assert(elapsed(start.last_refill, now) * rpm >= 0) by (nonlinear_arith)
        requires
            elapsed(start.last_refill, now) >= 0,
            rpm > 0,
    ;
}

/// At the instant of its last refill a record within capacity is live, and
/// refilling it gains nothing.
proof fn lemma_no_time_no_gain(held: BucketState, burst: int, rpm: int)
    requires
        fits(held, burst),
    ensures
        live(Some(held), burst, held.last_refill) == held,
        refilled(held, burst, rpm, held.last_refill) == held,
{
    assert(elapsed(held.last_refill, held.last_refill) * rpm == 0) by (nonlinear_arith)
        requires
            elapsed(held.last_refill, held.last_refill) == 0,
    ;
}

proof fn lemma_run_state(record: Option<BucketState>, burst: int, rpm: int, now: int, n: nat)
    requires
        rpm > 0,
        n >= 1,
        live(record, burst, now).units == capacity_units(burst),
    ensures
        after_checks(record, burst, rpm, now, n) == Some(
            BucketState { units: left_of(burst, n) * 60000, last_refill: now },
        ),
    decreases n,
{
    if n == 1 {
        lemma_full_stays_full(record, burst, rpm, now);
    } else {
        lemma_run_state(record, burst, rpm, now, (n - 1) as nat);
        let held = BucketState { units: left_of(burst, (n - 1) as nat) * 60000, last_refill: now };
        lemma_no_time_no_gain(held, burst, rpm);
    }
}

/// Saturation: on a full bucket of capacity `N`, of any number of checks
/// in a row at one instant the first `N` are admitted and every later one
/// is denied. `k` counts the checks made before the one in question.
pub proof fn lemma_saturation(record: Option<BucketState>, burst: int, rpm: int, now: int, k: nat)
    requires
        rpm > 0,
        live(record, burst, now).units == capacity_units(burst),
    ensures
        step_admits(after_checks(record, burst, rpm, now, k), burst, rpm, now) == (k < capacity(
            burst,
        )),
{
    if k == 0 {
        lemma_full_stays_full(record, burst, rpm, now);
    } else {
        lemma_run_state(record, burst, rpm, now, k);
        let held = BucketState { units: left_of(burst, k) * 60000, last_refill: now };
        lemma_no_time_no_gain(held, burst, rpm);
    }
}

/// No over-admission: of `m` checks at one instant against a full bucket
/// of capacity `N`, taken one after the other in whatever order they
/// arrive, exactly `min(m, N)` are admitted.
pub proof fn lemma_admits_exactly_capacity(
    record: Option<BucketState>,
    burst: int,
    rpm: int,
    now: int,
    m: nat,
)
    requires
        rpm > 0,
        live(record, burst, now).units == capacity_units(burst),
    ensures
        admitted(record, burst, rpm, now, m) == if m <= capacity(burst) {
            m as int
        } else {
            capacity(burst)
        },
    decreases m,
{
    if m > 0 {
        lemma_admits_exactly_capacity(record, burst, rpm, now, (m - 1) as nat);
        lemma_saturation(record, burst, rpm, now, (m - 1) as nat);
    }
}

/// Refill never gives more than the time allows: after `dt` milliseconds
/// the count is at most the count before plus `dt` times the rate, and at
/// most the capacity.
pub proof fn lemma_refill_bounded(s: BucketState, burst: int, rpm: int, dt: int)
    requires
        rpm > 0,
        dt >= 0,
    ensures
        refilled(s, burst, rpm, s.last_refill + dt).units <= s.units + dt * rpm,
        refilled(s, burst, rpm, s.last_refill + dt).units <= capacity_units(burst),
        refilled(s, burst, rpm, s.last_refill + dt).units == if s.units + dt * rpm
            < capacity_units(burst) {
            s.units + dt * rpm
        } else {
            capacity_units(burst)
        },
{
}

/// A clock that ran backwards refills nothing and takes nothing away: the
/// count is the one before, cut to the capacity.
pub proof fn lemma_backward_clock_refills_nothing(s: BucketState, burst: int, rpm: int, now: int)
    requires
        rpm > 0,
        now <= s.last_refill,
    ensures
        refilled(s, burst, rpm, now).units == if s.units < capacity_units(burst) {
            s.units
        } else {
            capacity_units(burst)
        },
{
    assert(elapsed(s.last_refill, now) * rpm == 0) by (nonlinear_arith)
        requires
            elapsed(s.last_refill, now) == 0,
    ;
}

/// Refill grows with time: waiting longer never leaves fewer tokens.
pub proof fn lemma_refill_monotone(s: BucketState, burst: int, rpm: int, sooner: int, later: int)
    requires
        rpm > 0,
        sooner <= later,
    ensures
        refilled(s, burst, rpm, sooner).units <= refilled(s, burst, rpm, later).units,
{
    assert(elapsed(s.last_refill, sooner) * rpm <= elapsed(s.last_refill, later) * rpm)
        by (nonlinear_arith)
        requires
            elapsed(s.last_refill, sooner) <= elapsed(s.last_refill, later),
            rpm > 0,
    ;
}

/// The waiting time of a denial is enough and no more than that: a check
/// made that many milliseconds after the denial is admitted, and one made
/// any sooner is denied again.
pub proof fn lemma_retry_after_is_exact(s: BucketState, burst: int, rpm: int, dt: int)
    requires
        rpm > 0,
        fits(s, burst),
        !admits(s),
        0 <= dt,
    ensures
        dt == wait_ms(s, rpm) ==> step_admits(Some(s), burst, rpm, s.last_refill + dt),
        dt < wait_ms(s, rpm) ==> !step_admits(Some(s), burst, rpm, s.last_refill + dt),
{
    let wait = wait_ms(s, rpm);
    let now = s.last_refill + dt;
    lemma_wait_is_ceiling(s, rpm);
    assert(elapsed(s.last_refill, now) == dt);
    if dt < wait {
        assert(dt * rpm <= (wait - 1) * rpm) by (nonlinear_arith)
            requires
                0 <= dt <= wait - 1,
                rpm > 0,
        ;
    }
}

/// A check on an expired record is a check on a key never seen: both start
/// from a full bucket, leave the same record and give the same answer.
pub proof fn lemma_expired_as_absent(s: BucketState, burst: int, rpm: int, now: int)
    requires
        expired(s, now),
    ensures
        live(Some(s), burst, now) == live(None, burst, now),
        step(Some(s), burst, rpm, now) == step(None, burst, rpm, now),
        step_admits(Some(s), burst, rpm, now) == step_admits(None, burst, rpm, now),
        wait_ms(refilled(live(Some(s), burst, now), burst, rpm, now), rpm) == wait_ms(
            refilled(live(None, burst, now), burst, rpm, now),
            rpm,
        ),
{
}

/// A check on a key never seen is admitted and leaves one token less than
/// the capacity.
pub proof fn lemma_first_check_admitted(burst: int, rpm: int, now: int)
    requires
        rpm > 0,
    ensures
        step_admits(None, burst, rpm, now),
        step(None, burst, rpm, now) == (BucketState {
            units: (capacity(burst) - 1) * 60000,
            last_refill: now,
        }),
{
    lemma_full_stays_full(None, burst, rpm, now);
}

} // verus!
