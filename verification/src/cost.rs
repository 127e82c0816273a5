//! Cost and gain of a batch purchase.
//!
//! A purchase of `amount` items, starting from `current_multiplier` levels
//! already owned, covers the inclusive level range
//! `[current_multiplier, current_multiplier + amount - 1]`.  Its cost is a
//! scaled, floored sum of a real-valued price curve over that range; the
//! caller supplies that sum as a closure over the range's two endpoints.
//! Its gain is exactly `item_gain * amount`.

use vstd::prelude::*;

verus! {

/// `c` is a possible cost of buying `amount` items starting at level
/// `current_multiplier`, as priced by the range kernel `scaled_sum`:
/// an empty purchase costs nothing, and a purchase of one or more items
/// costs whatever the kernel returns for the covered level range.
pub open spec fn cost_result<F: Fn(usize, usize) -> usize>(
    scaled_sum: F,
    amount: usize,
    current_multiplier: usize,
    c: usize,
) -> bool {
    if amount == 0 {
        c == 0
    } else {
        call_ensures(
            scaled_sum,
            (current_multiplier, (current_multiplier + amount - 1) as usize),
            c,
        )
    }
}

/// The range kernel never loses value when the level range is extended
/// upward.  This holds of the intended kernels because every level
/// contributes a non-negative amount to the scaled sum.
pub open spec fn kernel_monotone<F: Fn(usize, usize) -> usize>(scaled_sum: F) -> bool {
    forall|lo: usize, hi1: usize, hi2: usize, r1: usize, r2: usize|
        hi1 <= hi2 && #[trigger] call_ensures(scaled_sum, (lo, hi1), r1)
            && #[trigger] call_ensures(scaled_sum, (lo, hi2), r2) ==> r1 <= r2
}

/// Monotonicity law: for a fixed starting level and a monotone range
/// kernel, buying more items never costs less.
pub proof fn lemma_cost_monotone<F: Fn(usize, usize) -> usize>(
    scaled_sum: F,
    amount1: usize,
    amount2: usize,
    current_multiplier: usize,
    c1: usize,
    c2: usize,
)
    requires
        kernel_monotone(scaled_sum),
        amount1 <= amount2,
        current_multiplier + amount2 <= usize::MAX,
        cost_result(scaled_sum, amount1, current_multiplier, c1),
        cost_result(scaled_sum, amount2, current_multiplier, c2),
    ensures
        c1 <= c2,
{
    if amount1 >= 1 {
        let hi1 = (current_multiplier + amount1 - 1) as usize;
        let hi2 = (current_multiplier + amount2 - 1) as usize;
        assert(call_ensures(scaled_sum, (current_multiplier, hi1), c1));
        assert(call_ensures(scaled_sum, (current_multiplier, hi2), c2));
    }
}

/// Price a batch purchase.
///
/// `scaled_sum(lo, hi)` must return the already scaled and floored sum of
/// the per-level price curve over the inclusive level range `[lo, hi]`;
/// this function never calls it with an empty range.  The returned pair is
/// `(cost, gain)`: the kernel's value for the covered range (or `0` for an
/// empty purchase, whose level range is empty), and exactly
/// `item_gain * amount`.
pub fn cost_and_gain<F: Fn(usize, usize) -> usize>(
    scaled_sum: F,
    amount: usize,
    current_multiplier: usize,
    item_gain: usize,
) -> (r: (usize, usize))
    requires
        current_multiplier + amount <= usize::MAX,
        item_gain * amount <= usize::MAX,
        amount >= 1 ==> call_requires(
            scaled_sum,
            (current_multiplier, (current_multiplier + amount - 1) as usize),
        ),
    ensures
        cost_result(scaled_sum, amount, current_multiplier, r.0),
        r.1 == item_gain * amount,
        amount == 0 ==> r == (0usize, 0usize),
{
    if amount == 0 {
        (0, 0)
    } else {
        let highest_level: usize = current_multiplier + amount - 1;
        let cost: usize = scaled_sum(current_multiplier, highest_level);
        let gain: usize = item_gain * amount;
        (cost, gain)
    }
}

} // verus!
