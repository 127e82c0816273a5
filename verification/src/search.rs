//! Search for the largest affordable purchase.
//!
//! The search brackets the answer between a lower bound that is known to be
//! affordable and an upper bound.  It starts from the bracket `[0, 10]` and
//! runs in two phases: while no probed amount has ever exceeded the budget
//! it doubles the upper bound after every affordable probe (saturating at
//! `usize::MAX`), and once one has, it bisects the bracket.  Each probe is
//! the bracket's midpoint, and the search stops when the midpoint stops
//! changing.  The saturating doubling makes the stop condition provably
//! reachable: termination is checked here by a `decreases` measure.

use vstd::prelude::*;

verus! {

/// Every cost the model `cost_model` can return for `amount` items stays
/// within `budget`.
pub open spec fn cost_within<F: Fn(usize) -> (usize, usize)>(
    cost_model: F,
    amount: usize,
    budget: usize,
) -> bool {
    forall|out: (usize, usize)| #[trigger] call_ensures(cost_model, (amount,), out) ==> out.0 <= budget
}

/// Every cost the model `cost_model` can return for `amount` items exceeds
/// `budget`.
pub open spec fn cost_exceeds<F: Fn(usize) -> (usize, usize)>(
    cost_model: F,
    amount: usize,
    budget: usize,
) -> bool {
    forall|out: (usize, usize)| #[trigger] call_ensures(cost_model, (amount,), out) ==> out.0 > budget
}

/// Find the largest amount of items whose cost stays within the budget.
///
/// `cost_model(amount)` must return `(cost, gain)` for buying `amount`
/// items; it must be callable on every amount, its cost must depend on the
/// amount alone, and zero items must cost nothing.  The result
/// `(amount, cost, gain)` is a possible output of the model for that
/// amount, its cost stays within the budget, and buying one item more
/// would exceed the budget - except when the result is `usize::MAX - 1`,
/// where the search's upper bound has saturated and the very last amount
/// may go unexamined.  Nothing here asks the model to be monotone: the
/// maximality claim is about exactly one more item.
pub fn max_affordable<F: Fn(usize) -> (usize, usize)>(
    cost_model: F,
    available_budget: usize,
) -> (r: (usize, usize, usize))
    requires
        forall|a: usize| #[trigger] call_requires(cost_model, (a,)),
        forall|a: usize, o1: (usize, usize), o2: (usize, usize)|
            call_ensures(cost_model, (a,), o1) && call_ensures(cost_model, (a,), o2)
                ==> o1.0 == o2.0,
        forall|out: (usize, usize)| call_ensures(cost_model, (0usize,), out) ==> out.0 == 0,
    ensures
        call_ensures(cost_model, (r.0,), (r.1, r.2)),
        r.1 <= available_budget,
        r.0 < usize::MAX - 1 ==> cost_exceeds(cost_model, (r.0 + 1) as usize, available_budget),
{
    let mut max_reached = false;
    let mut min_amount: usize = 0;
    let mut max_amount: usize = 10;
    let mut prev_amount: usize = 10;
    let mut amount: usize = min_amount + (max_amount - min_amount) / 2;
    let first = cost_model(amount);
    let mut cost: usize = first.0;
    let mut gain: usize = first.1;

    while amount != prev_amount
        invariant
            forall|a: usize| #[trigger] call_requires(cost_model, (a,)),
            forall|a: usize, o1: (usize, usize), o2: (usize, usize)|
                call_ensures(cost_model, (a,), o1) && call_ensures(cost_model, (a,), o2)
                    ==> o1.0 == o2.0,
            forall|out: (usize, usize)| call_ensures(cost_model, (0usize,), out) ==> out.0 == 0,
            min_amount <= max_amount,
            amount == min_amount + (max_amount - min_amount) / 2,
            call_ensures(cost_model, (amount,), (cost, gain)),
            prev_amount == min_amount || prev_amount == max_amount,
            cost_within(cost_model, min_amount, available_budget),
            max_reached ==> cost_exceeds(cost_model, max_amount, available_budget),
            !max_reached ==> max_amount >= 10 && min_amount < max_amount
                && (max_amount - min_amount >= 2 || max_amount == usize::MAX),
        decreases
            (if max_reached { 0int } else { 1int }),
            (if max_reached { 0int } else { usize::MAX - max_amount }),
            max_amount - min_amount,
            (if amount == prev_amount { 0int } else { 1int }),
    {
        if cost > available_budget {
            max_amount = amount;
            max_reached = true;
        } else {
            min_amount = amount;
            if !max_reached {
                max_amount = if max_amount <= usize::MAX / 2 {
                    max_amount * 2
                } else {
                    usize::MAX
                };
            }
        }
        prev_amount = amount;
        amount = min_amount + (max_amount - min_amount) / 2;
        let next = cost_model(amount);
        cost = next.0;
        gain = next.1;
    }
    proof {
        // The loop exits only when the midpoint stalls: amount == prev_amount.
        if min_amount == max_amount {
            // Both bound invariants then speak about the stalled amount itself,
            // so the budget would have to be both respected and exceeded.
            assert(amount == min_amount);
            assert(call_ensures(cost_model, (min_amount,), (cost, gain)));
            assert(call_ensures(cost_model, (max_amount,), (cost, gain)));
            if max_reached {
                assert(cost <= available_budget);
                assert(cost > available_budget);
            }
            assert(false);
        }
        // With min_amount < max_amount the midpoint is below max_amount, so the
        // stalled amount is min_amount, and stalling forces the bracket down to
        // a single step.
        assert(amount == min_amount);
        assert(max_amount - min_amount == 1);
        assert(call_ensures(cost_model, (min_amount,), (cost, gain)));
        assert(cost <= available_budget);
        if amount < usize::MAX - 1 {
            // The upper bound saturates at usize::MAX only while it has never
            // been exceeded, and then the stalled amount is usize::MAX - 1.
            assert(max_reached);
            assert(cost_exceeds(cost_model, max_amount, available_budget));
        }
    }
    (amount, cost, gain)
}

} // verus!
