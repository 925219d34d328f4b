//! One-pole parameter smoothing on fixed-point integers.
//!
//! A smoothed parameter eases from its current value toward a target by the
//! fraction `rate / MICRO` of the remaining distance per step.  The step
//! rounds toward the target, so a positive rate closes any finite distance
//! in finitely many steps; a rate of zero freezes the value and a rate of
//! `MICRO` (that is, `1.0`) snaps straight to the target.  No step ever
//! overshoots the target or moves away from it.

use vstd::prelude::*;
use vstd::arithmetic::div_mod::{
    lemma_basic_div, lemma_div_by_self, lemma_div_is_ordered, lemma_div_pos_is_pos,
    lemma_fundamental_div_mod, lemma_hoist_over_denominator,
};
use vstd::arithmetic::mul::{lemma_mul_inequality, lemma_mul_nonnegative};
use crate::MICRO;

verus! {

/// Largest magnitude the executable smoother accepts, chosen so that the
/// intermediate product `(target - current) * rate` stays within `i64`.
pub const SMOOTH_LIMIT: i64 = 1_000_000_000_000;

/// Distance between two points of the parameter line.
pub open spec fn dist(a: int, b: int) -> int {
    if a <= b {
        b - a
    } else {
        a - b
    }
}

/// One smoothing step: move `rate / MICRO` of the way from `current` to
/// `target`, rounding the step toward the target.
pub open spec fn smooth_step_spec(current: int, target: int, rate: int) -> int {
    if current <= target {
        current + ((target - current) * rate + (MICRO - 1)) / (MICRO as int)
    } else {
        current - ((current - target) * rate + (MICRO - 1)) / (MICRO as int)
    }
}

/// The value after `n` smoothing steps from `current` toward `target`.
pub open spec fn smooth_iter(current: int, target: int, rate: int, n: nat) -> int
    decreases n,
{
    if n == 0 {
        current
    } else {
        smooth_step_spec(smooth_iter(current, target, rate, (n - 1) as nat), target, rate)
    }
}

/// The rounded-up share of a non-negative distance `d` taken by `rate`:
/// it never exceeds `d`, vanishes at rate zero, is all of `d` at rate
/// `MICRO`, and is at least one whenever both `d` and `rate` are.
proof fn lemma_ceil_share_bounds(d: int, rate: int)
    requires
        0 <= d,
        0 <= rate <= MICRO,
    ensures
        0 <= (d * rate + (MICRO - 1)) / (MICRO as int) <= d,
        rate == 0 ==> (d * rate + (MICRO - 1)) / (MICRO as int) == 0,
        rate == MICRO ==> (d * rate + (MICRO - 1)) / (MICRO as int) == d,
        1 <= rate && 1 <= d ==> 1 <= (d * rate + (MICRO - 1)) / (MICRO as int),
{
    let m = MICRO as int;
    let a = d * rate + (m - 1);
    let q = a / m;
    lemma_mul_nonnegative(d, rate);
    lemma_div_pos_is_pos(a, m);
    // Upper bound: a < (d + 1) * m, so the quotient stays at or below d.
    lemma_mul_inequality(rate, m, d);
    assert(d * rate == rate * d && d * m == m * d) by (nonlinear_arith);
    assert(a < (d + 1) * m) by (nonlinear_arith)
        requires
            d * rate <= d * m,
            a == d * rate + (m - 1),
            m == 1_000_000,
    ;
    lemma_fundamental_div_mod(a, m);
    assert(q <= d) by (nonlinear_arith)
        requires
            m * q <= a,
            a < (d + 1) * m,
            m > 0,
    ;
    if rate == 0 {
        lemma_basic_div(m - 1, m);
    }
    if rate == MICRO {
        lemma_basic_div(m - 1, m);
        lemma_hoist_over_denominator(m - 1, d, m as nat);
        assert(d * m == m * d) by (nonlinear_arith);
    }
    if 1 <= rate && 1 <= d {
        lemma_mul_inequality(1, d, rate);
        assert(1 * rate == rate && d * rate == rate * d) by (nonlinear_arith);
        lemma_div_by_self(m);
        lemma_div_is_ordered(m, a, m);
    }
}

/// One smoothing step stays between the current value and the target,
/// freezes at rate zero, snaps at rate `MICRO`, and with any positive rate
/// strictly shrinks a nonzero distance to the target.
pub proof fn lemma_smooth_step_bounds(current: int, target: int, rate: int)
    requires
        0 <= rate <= MICRO,
    ensures
        current <= target ==> current <= smooth_step_spec(current, target, rate) <= target,
        target <= current ==> target <= smooth_step_spec(current, target, rate) <= current,
        rate == 0 ==> smooth_step_spec(current, target, rate) == current,
        rate == MICRO ==> smooth_step_spec(current, target, rate) == target,
        1 <= rate && current != target ==> dist(
            smooth_step_spec(current, target, rate),
            target,
        ) < dist(current, target),
{
    if current <= target {
        lemma_ceil_share_bounds(target - current, rate);
    } else {
        lemma_ceil_share_bounds(current - target, rate);
    }
}

/// One smoothing step, on machine integers.
///
/// The result is exactly `smooth_step_spec` of the arguments; in particular
/// it lies between `current` and `target`.
pub fn smooth_step(current: i64, target: i64, rate: i64) -> (r: i64)
    requires
        -SMOOTH_LIMIT <= current <= SMOOTH_LIMIT,
        -SMOOTH_LIMIT <= target <= SMOOTH_LIMIT,
        0 <= rate <= MICRO,
    ensures
        r == smooth_step_spec(current as int, target as int, rate as int),
        current <= target ==> current <= r <= target,
        target <= current ==> target <= r <= current,
{
    proof {
        lemma_smooth_step_bounds(current as int, target as int, rate as int);
    }
    if current <= target {
        let d: i64 = target - current;
        proof {
            lemma_mul_nonnegative(d as int, rate as int);
            lemma_mul_inequality(d as int, 2 * SMOOTH_LIMIT, rate as int);
            assert(2 * SMOOTH_LIMIT * rate <= 2 * SMOOTH_LIMIT * (MICRO as int)) by (nonlinear_arith)
                requires
                    0 <= rate <= MICRO,
            ;
        }
        let share: i64 = (d * rate + (MICRO - 1)) / MICRO;
        proof {
            lemma_ceil_share_bounds(d as int, rate as int);
        }
        current + share
    } else {
        let d: i64 = current - target;
        proof {
            lemma_mul_nonnegative(d as int, rate as int);
            lemma_mul_inequality(d as int, 2 * SMOOTH_LIMIT, rate as int);
            assert(2 * SMOOTH_LIMIT * rate <= 2 * SMOOTH_LIMIT * (MICRO as int)) by (nonlinear_arith)
                requires
                    0 <= rate <= MICRO,
            ;
        }
        let share: i64 = (d * rate + (MICRO - 1)) / MICRO;
        proof {
            lemma_ceil_share_bounds(d as int, rate as int);
        }
        current - share
    }
}

/// Unrolling the iteration from the front: `n` steps from `current` are one
/// step, then `n - 1` steps from the stepped value.
proof fn lemma_smooth_iter_shift(current: int, target: int, rate: int, n: nat)
    requires
        1 <= n,
    ensures
        smooth_iter(current, target, rate, n) == smooth_iter(
            smooth_step_spec(current, target, rate),
            target,
            rate,
            (n - 1) as nat,
        ),
    decreases n,
{
    let stepped = smooth_step_spec(current, target, rate);
    if n == 1 {
        assert(smooth_iter(current, target, rate, 0) == current);
        assert(smooth_iter(stepped, target, rate, 0) == stepped);
        assert(smooth_iter(current, target, rate, 1) == smooth_step_spec(
            smooth_iter(current, target, rate, 0),
            target,
            rate,
        ));
    } else {
        lemma_smooth_iter_shift(current, target, rate, (n - 1) as nat);
        assert(smooth_iter(current, target, rate, n) == smooth_step_spec(
            smooth_iter(current, target, rate, (n - 1) as nat),
            target,
            rate,
        ));
        assert(smooth_iter(stepped, target, rate, (n - 1) as nat) == smooth_step_spec(
            smooth_iter(stepped, target, rate, (n - 2) as nat),
            target,
            rate,
        ));
    }
}

/// Repeated smoothing toward a fixed target is monotone and never
/// overshoots: with the current value at or below the target the iterates
/// never decrease and never pass the target, and symmetrically from above.
pub proof fn lemma_smoother_monotone(current: int, target: int, rate: int, n: nat)
    requires
        0 <= rate <= MICRO,
    ensures
        current <= target ==> current <= smooth_iter(current, target, rate, n) <= smooth_iter(
            current,
            target,
            rate,
            (n + 1) as nat,
        ) <= target,
        target <= current ==> target <= smooth_iter(current, target, rate, (n + 1) as nat)
            <= smooth_iter(current, target, rate, n) <= current,
    decreases n,
{
    if n == 0 {
        lemma_smooth_step_bounds(current, target, rate);
    } else {
        lemma_smoother_monotone(current, target, rate, (n - 1) as nat);
        lemma_smooth_step_bounds(smooth_iter(current, target, rate, n), target, rate);
    }
}

/// With any positive rate, repeated smoothing reaches the target exactly
/// once the number of steps covers the initial distance.
pub proof fn lemma_smoother_converges(current: int, target: int, rate: int, n: nat)
    requires
        1 <= rate <= MICRO,
        dist(current, target) <= n,
    ensures
        smooth_iter(current, target, rate, n) == target,
    decreases n,
{
    if n >= 1 {
        lemma_smooth_step_bounds(current, target, rate);
        lemma_smooth_iter_shift(current, target, rate, n);
        lemma_smoother_converges(
            smooth_step_spec(current, target, rate),
            target,
            rate,
            (n - 1) as nat,
        );
    }
}

} // verus!
