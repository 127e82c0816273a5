use multiplier_pricing::cost::cost_and_gain;
use multiplier_pricing::search::max_affordable;

/// The real price curve: each level `x` in the covered range contributes
/// `x^1.3`; the sum is scaled by the item price and floored.
fn scaled_sum(item_price: usize) -> impl Fn(usize, usize) -> usize {
    move |lo: usize, hi: usize| {
        ((lo..=hi).map(|x| (x as f64).powf(1.3)).sum::<f64>() * (item_price as f64)).floor()
            as usize
    }
}

/// The full cost model for a fixed starting level, price and gain factor.
fn model(
    current_multiplier: usize,
    item_price: usize,
    item_gain: usize,
) -> impl Fn(usize) -> (usize, usize) {
    move |amount: usize| {
        cost_and_gain(scaled_sum(item_price), amount, current_multiplier, item_gain)
    }
}

#[test]
fn first_item_is_free_at_level_zero() {
    // one item from level zero covers only level 0, and 0^1.3 == 0
    let r = cost_and_gain(scaled_sum(10), 1, 0, 1);
    assert_eq!(r, (0, 1));
}

#[test]
fn two_items_from_level_one() {
    // 1^1.3 + 2^1.3 is about 3.462; times 10 and floored gives 34
    let r = cost_and_gain(scaled_sum(10), 2, 1, 1);
    assert_eq!(r, (34, 2));
}

#[test]
fn empty_purchase_costs_and_gains_nothing() {
    assert_eq!(cost_and_gain(scaled_sum(10), 0, 0, 1), (0, 0));
    assert_eq!(cost_and_gain(scaled_sum(10), 0, 5, 7), (0, 0));
    assert_eq!(cost_and_gain(scaled_sum(0), 0, 123, 456), (0, 0));
}

#[test]
fn gain_is_exactly_linear() {
    for amount in 0..25usize {
        for item_gain in [0usize, 1, 3, 1000] {
            let r = cost_and_gain(scaled_sum(10), amount, 2, item_gain);
            assert_eq!(r.1, item_gain * amount);
        }
    }
}

#[test]
fn cost_is_monotone_in_amount() {
    for current_multiplier in 0..4usize {
        for item_price in [0usize, 1, 10, 37] {
            let mut last: usize = 0;
            for amount in 0..40usize {
                let r = cost_and_gain(scaled_sum(item_price), amount, current_multiplier, 1);
                assert!(r.0 >= last);
                last = r.0;
            }
        }
    }
}

#[test]
fn zero_budget_buys_nothing_from_level_one() {
    let r = max_affordable(model(1, 10, 1), 0);
    assert_eq!(r, (0, 0, 0));
}

#[test]
fn zero_budget_still_buys_the_free_item_at_level_zero() {
    // from level zero the first item covers only level 0 and costs nothing,
    // so even an empty budget affords exactly one item
    let r = max_affordable(model(0, 10, 1), 0);
    assert_eq!(r, (1, 0, 1));
}

#[test]
fn search_result_is_affordable_and_maximal() {
    for budget in [0usize, 5, 9, 10, 34, 35, 100, 1000, 123456] {
        for current_multiplier in [0usize, 1, 5] {
            for item_price in [1usize, 10] {
                let f = model(current_multiplier, item_price, 2);
                let (amount, cost, gain) = max_affordable(&f, budget);
                assert!(cost <= budget);
                assert_eq!((cost, gain), f(amount));
                let (next_cost, _) = f(amount + 1);
                assert!(next_cost > budget);
            }
        }
    }
}

#[test]
fn search_matches_a_linear_scan() {
    for budget in 0..220usize {
        for current_multiplier in [0usize, 1, 2] {
            let f = model(current_multiplier, 10, 3);
            let (amount, cost, gain) = max_affordable(&f, budget);
            let mut best: usize = 0;
            for a in 0..100usize {
                if f(a).0 <= budget {
                    best = a;
                }
            }
            assert_eq!(amount, best);
            assert_eq!((cost, gain), f(best));
        }
    }
}

#[test]
fn exact_boundary_around_a_known_price() {
    // from level one at price 10: one item costs 10, two items cost 34
    let f = model(1, 10, 1);
    assert_eq!(max_affordable(&f, 9), (0, 0, 0));
    assert_eq!(max_affordable(&f, 10), (1, 10, 1));
    assert_eq!(max_affordable(&f, 33), (1, 10, 1));
    assert_eq!(max_affordable(&f, 34), (2, 34, 2));
}

#[test]
fn free_items_saturate_the_search() {
    // a cost model that never charges lets the doubling phase climb until
    // its upper bound saturates; the search then stalls one short of it
    let r = max_affordable(|_a: usize| (0usize, 0usize), 7);
    assert_eq!(r, (usize::MAX - 1, 0, 0));
}
