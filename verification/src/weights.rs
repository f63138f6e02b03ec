//! The weight curve: the weight of one asset of a pool as a function of time.

use vstd::prelude::*;
use vstd::arithmetic::div_mod::lemma_div_is_ordered;
use vstd::arithmetic::div_mod::lemma_div_multiples_vanish;
use vstd::arithmetic::div_mod::lemma_fundamental_div_mod;
use vstd::arithmetic::div_mod::lemma_fundamental_div_mod_converse;

use crate::types::{BlockNumber, LBPWeight};

verus! {

/// The shape of the curve along which a weight moves during the sale.
#[derive(Clone, Copy, Debug, PartialEq, Eq, Structural)]
pub enum WeightCurveType {
    /// From the initial to the final weight in equal steps.
    Linear,
    /// The initial weight throughout; the final weight is unused.
    Constant,
}

/// The part of `delta` that corresponds to `elapsed` out of `length`,
/// rounded towards zero.
pub open spec fn spec_scale(delta: int, elapsed: int, length: int) -> int {
    (delta * elapsed) / length
}

/// The linearly interpolated weight strictly inside the window: the initial
/// weight moved towards the final one by the elapsed share of their
/// distance, that share rounded towards zero.
pub open spec fn spec_linear_weight(
    start: int,
    end: int,
    initial_weight: int,
    final_weight: int,
    now: int,
) -> int {
    if final_weight >= initial_weight {
        initial_weight + spec_scale(final_weight - initial_weight, now - start, end - start)
    } else {
        initial_weight - spec_scale(initial_weight - final_weight, now - start, end - start)
    }
}

/// The weight at time `now` of an asset that moves from `initial_weight` to
/// `final_weight` over the window from `start` to `end`.
///
/// Once `end` is reached the weight is the final one, also for a window of
/// no width; before that, up to and including `start`, it is the initial one.
pub open spec fn spec_weight(
    curve: WeightCurveType,
    start: BlockNumber,
    end: BlockNumber,
    initial_weight: LBPWeight,
    final_weight: LBPWeight,
    now: BlockNumber,
) -> int {
    match curve {
        WeightCurveType::Constant => initial_weight as int,
        WeightCurveType::Linear => if now >= end {
            final_weight as int
        } else if now <= start {
            initial_weight as int
        } else {
            spec_linear_weight(
                start as int,
                end as int,
                initial_weight as int,
                final_weight as int,
                now as int,
            )
        },
    }
}

/// `delta * elapsed / length` without an intermediate overflow.
pub(crate) fn scale(delta: u128, elapsed: u64, length: u64) -> (part: u128)
    requires
        0 < length,
        elapsed <= length,
    ensures
        part == spec_scale(delta as int, elapsed as int, length as int),
        part <= delta,
{
    let len: u128 = length as u128;
    let t: u128 = elapsed as u128;
    let q: u128 = delta / len;
    let r: u128 = delta % len;
    proof {
        lemma_fundamental_div_mod(delta as int, len as int);
        assert(q * t <= q * len) by (nonlinear_arith)
            requires
                t <= len,
                0 <= q,
        ;
        assert(q * len == len * q) by (nonlinear_arith);
        assert(r * t <= 0xffff_ffff_ffff_ffff * 0xffff_ffff_ffff_ffff) by (nonlinear_arith)
            requires
                0 <= r <= 0xffff_ffff_ffff_ffff,
                0 <= t <= 0xffff_ffff_ffff_ffff,
        ;
    }
    let whole: u128 = q * t;
    let x: u128 = r * t;
    let frac: u128 = x / len;
    proof {
        lemma_fundamental_div_mod(x as int, len as int);
        let rest = (x as int) % (len as int);
        assert(delta * t == (q * t + frac) * len + rest) by (nonlinear_arith)
            requires
                delta == len * q + r,
                x == r * t,
                x == len * frac + rest,
        ;
        lemma_fundamental_div_mod_converse(
            delta as int * t as int,
            len as int,
            q as int * t as int + frac as int,
            rest,
        );
        assert(frac * len <= x) by (nonlinear_arith)
            requires
                x == len * frac + rest,
                0 <= rest,
        ;
        assert(frac <= r) by (nonlinear_arith)
            requires
                frac * len <= r * t,
                t <= len,
                0 < len,
                0 <= r,
                0 <= frac,
        ;
    }
    whole + frac
}

/// The weight of an asset at time `now`.
pub fn calculate_weight(
    curve: WeightCurveType,
    start: BlockNumber,
    end: BlockNumber,
    initial_weight: LBPWeight,
    final_weight: LBPWeight,
    now: BlockNumber,
) -> (weight: LBPWeight)
    ensures
        weight == spec_weight(curve, start, end, initial_weight, final_weight, now),
{
    match curve {
        WeightCurveType::Constant => initial_weight,
        WeightCurveType::Linear => {
            if now >= end {
                final_weight
            } else if now <= start {
                initial_weight
            } else if final_weight >= initial_weight {
                initial_weight + scale(final_weight - initial_weight, now - start, end - start)
            } else {
                initial_weight - scale(initial_weight - final_weight, now - start, end - start)
            }
        },
    }
}

/// A share of `delta` lies between nothing and all of it, and grows with the
/// time elapsed.
pub proof fn lemma_scale_bounds(delta: int, earlier: int, later: int, length: int)
    requires
        0 <= delta,
        0 <= earlier <= later <= length,
        0 < length,
    ensures
        0 <= spec_scale(delta, earlier, length) <= spec_scale(delta, later, length) <= delta,
        spec_scale(delta, 0, length) == 0,
        spec_scale(delta, length, length) == delta,
{
    assert(0 <= delta * earlier <= delta * later <= delta * length) by (nonlinear_arith)
        requires
            0 <= delta,
            0 <= earlier <= later <= length,
    ;
    assert(delta * 0 == 0);
    lemma_div_is_ordered(0, delta * earlier, length);
    lemma_div_is_ordered(delta * earlier, delta * later, length);
    lemma_div_is_ordered(delta * later, delta * length, length);
    assert(delta * length == length * delta) by (nonlinear_arith);
    lemma_div_multiples_vanish(delta, length);
}

/// At the start of a window of positive width a linear weight is exactly
/// the initial weight.
pub proof fn lemma_weight_at_start(
    start: BlockNumber,
    end: BlockNumber,
    initial_weight: LBPWeight,
    final_weight: LBPWeight,
)
    requires
        start < end,
    ensures
        spec_weight(WeightCurveType::Linear, start, end, initial_weight, final_weight, start)
            == initial_weight,
{
}

/// At the end of the window a linear weight is exactly the final weight.
pub proof fn lemma_weight_at_end(
    start: BlockNumber,
    end: BlockNumber,
    initial_weight: LBPWeight,
    final_weight: LBPWeight,
)
    ensures
        spec_weight(WeightCurveType::Linear, start, end, initial_weight, final_weight, end)
            == final_weight,
{
}

/// Outside the window a linear weight stays at the nearer endpoint: the
/// final weight from the end on, the initial weight before the start.
pub proof fn lemma_weight_clamps(
    start: BlockNumber,
    end: BlockNumber,
    initial_weight: LBPWeight,
    final_weight: LBPWeight,
    now: BlockNumber,
)
    ensures
        now >= end ==> spec_weight(
            WeightCurveType::Linear,
            start,
            end,
            initial_weight,
            final_weight,
            now,
        ) == final_weight,
        now <= start && now < end ==> spec_weight(
            WeightCurveType::Linear,
            start,
            end,
            initial_weight,
            final_weight,
            now,
        ) == initial_weight,
{
}

/// A weight never leaves the range between its initial and its final value.
pub proof fn lemma_weight_in_range(
    curve: WeightCurveType,
    start: BlockNumber,
    end: BlockNumber,
    initial_weight: LBPWeight,
    final_weight: LBPWeight,
    now: BlockNumber,
)
    ensures
        initial_weight <= final_weight ==> initial_weight <= spec_weight(
            curve,
            start,
            end,
            initial_weight,
            final_weight,
            now,
        ) <= final_weight || curve == WeightCurveType::Constant,
        initial_weight >= final_weight ==> initial_weight >= spec_weight(
            curve,
            start,
            end,
            initial_weight,
            final_weight,
            now,
        ) >= final_weight || curve == WeightCurveType::Constant,
        curve == WeightCurveType::Constant ==> spec_weight(
            curve,
            start,
            end,
            initial_weight,
            final_weight,
            now,
        ) == initial_weight,
{
    if curve == WeightCurveType::Linear && start < now && now < end {
        if final_weight >= initial_weight {
            lemma_scale_bounds(
                final_weight - initial_weight,
                now - start,
                now - start,
                end - start,
            );
        } else {
            lemma_scale_bounds(
                initial_weight - final_weight,
                now - start,
                now - start,
                end - start,
            );
        }
    }
}

/// A linear weight moves in one direction only: between two times, the
/// later weight is at least as far from the initial weight, towards the
/// final one, as the earlier weight.
pub proof fn lemma_weight_monotonic(
    start: BlockNumber,
    end: BlockNumber,
    initial_weight: LBPWeight,
    final_weight: LBPWeight,
    earlier: BlockNumber,
    later: BlockNumber,
)
    requires
        earlier <= later,
    ensures
        initial_weight <= final_weight ==> spec_weight(
            WeightCurveType::Linear,
            start,
            end,
            initial_weight,
            final_weight,
            earlier,
        ) <= spec_weight(
            WeightCurveType::Linear,
            start,
            end,
            initial_weight,
            final_weight,
            later,
        ),
        initial_weight >= final_weight ==> spec_weight(
            WeightCurveType::Linear,
            start,
            end,
            initial_weight,
            final_weight,
            earlier,
        ) >= spec_weight(
            WeightCurveType::Linear,
            start,
            end,
            initial_weight,
            final_weight,
            later,
        ),
{
    let curve = WeightCurveType::Linear;
    lemma_weight_in_range(curve, start, end, initial_weight, final_weight, earlier);
    lemma_weight_in_range(curve, start, end, initial_weight, final_weight, later);
    if start < earlier && later < end {
        if final_weight >= initial_weight {
            lemma_scale_bounds(
                final_weight - initial_weight,
                earlier - start,
                later - start,
                end - start,
            );
        } else {
            lemma_scale_bounds(
                initial_weight - final_weight,
                earlier - start,
                later - start,
                end - start,
            );
        }
    }
}

/// Where the two assets' initial weights and their final weights have the
/// same sum, their weights have that sum at every time.
pub proof fn lemma_weights_keep_sum(
    curve: WeightCurveType,
    start: BlockNumber,
    end: BlockNumber,
    initial_a: LBPWeight,
    final_a: LBPWeight,
    initial_b: LBPWeight,
    final_b: LBPWeight,
    now: BlockNumber,
)
    requires
        initial_a + initial_b == final_a + final_b,
    ensures
        spec_weight(curve, start, end, initial_a, final_a, now) + spec_weight(
            curve,
            start,
            end,
            initial_b,
            final_b,
            now,
        ) == initial_a + initial_b,
{
    if curve == WeightCurveType::Linear && start < now && now < end {
        let elapsed = now - start;
        let length = end - start;
        if final_a >= initial_a {
            assert(initial_b - final_b == final_a - initial_a);
        } else {
            assert(final_b - initial_b == initial_a - final_a);
        }
        assert(spec_scale(0, elapsed, length) == 0) by {
            assert(0 * elapsed == 0);
        }
    }
}

} // verus!
