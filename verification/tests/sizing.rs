//! Resolver scenarios.  Quantities are in units of 1e-4 contracts, prices
//! in whole dollars, balances and notionals in units of 1e-4 dollars.

use portfolio_trader::constraints::SymbolConstraints;
use portfolio_trader::sizing::adjust_trade_quantity;

fn example_constraints() -> SymbolConstraints {
    // step 0.001, min qty 0.002, min notional 5 dollars, tick 0.1
    SymbolConstraints {
        step_size: 10,
        min_qty: 20,
        max_qty: None,
        min_notional: 50000,
        tick_size: 1,
    }
}

#[test]
fn resolver_rejects_when_ceiling_blocks_notional_floor() {
    // desired 0.0005, allocation ceiling 0.01, funds 1000 dollars, price 100:
    // the notional floor asks for 0.05, the ceiling caps back to 0.01, and
    // 0.01 * 100 = 1 dollar stays under the 5-dollar floor.
    let c = example_constraints();
    assert_eq!(adjust_trade_quantity(5, 100, 10_000_000, 100, &c), None);
}

#[test]
fn resolver_accepts_notional_floor_within_ceiling() {
    // Same wish with ceiling 0.1: raised to 0.05, which fits, and
    // 0.05 * 100 = 5 dollars meets the floor exactly.
    let c = example_constraints();
    assert_eq!(adjust_trade_quantity(5, 1000, 10_000_000, 100, &c), Some(500));
}

#[test]
fn resolver_rejects_zero_allocation_ceiling() {
    let c = example_constraints();
    assert_eq!(adjust_trade_quantity(500, 0, 10_000_000, 100, &c), None);
}

#[test]
fn resolver_defaults_a_zero_wish() {
    // No notional floor: a zero wish starts from max(min_qty, step) = 0.002
    // and stays there.
    let mut c = example_constraints();
    c.min_notional = 0;
    assert_eq!(adjust_trade_quantity(0, 1000, 10_000_000, 100, &c), Some(20));
}

#[test]
fn resolver_caps_by_allocated_balance() {
    // Funds 0.1 dollar at price 100 buy 0.00001 contracts: under the
    // quantity floor, and without a notional floor the raise to min_qty is
    // re-capped... the balance limit of 10 units floors the wish, the raise
    // to 0.002 then exceeds the balance-derived ceiling and is cut back to
    // 0.001, under min_qty: reject.
    let mut c = example_constraints();
    c.min_notional = 0;
    assert_eq!(adjust_trade_quantity(500, 1000, 1000, 100, &c), None);
}

#[test]
fn resolver_respects_exchange_max_qty() {
    let mut c = example_constraints();
    c.min_notional = 0;
    c.max_qty = Some(55);
    // wish 0.05 is cut to the exchange cap 0.0055, then to its grid 0.005.
    assert_eq!(adjust_trade_quantity(500, 1000, 10_000_000, 100, &c), Some(50));
}

#[test]
fn resolver_rejects_all_zero_result() {
    let c = SymbolConstraints {
        step_size: 10,
        min_qty: 0,
        max_qty: None,
        min_notional: 0,
        tick_size: 0,
    };
    // wish 0.0005 floors to the empty grid cell: nothing tradable.
    assert_eq!(adjust_trade_quantity(5, 1000, 0, 0, &c), None);
}

#[test]
fn resolver_passes_through_without_quantization() {
    let c = SymbolConstraints {
        step_size: 0,
        min_qty: 0,
        max_qty: None,
        min_notional: 0,
        tick_size: 0,
    };
    assert_eq!(adjust_trade_quantity(123, 1000, 0, 0, &c), Some(123));
}

#[test]
fn resolver_rejects_when_balance_buys_less_than_one_unit() {
    // Funds worth 5 notional units at price 10000 buy no whole quantity
    // unit: the effective ceiling is zero and every wish is rejected
    // rather than traded beyond the allocation.
    let c = SymbolConstraints {
        step_size: 10,
        min_qty: 20,
        max_qty: None,
        min_notional: 0,
        tick_size: 0,
    };
    assert_eq!(adjust_trade_quantity(20, 100, 5, 10000, &c), None);
}
