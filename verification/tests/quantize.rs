use portfolio_trader::constraints::constraints_from_filters;
use portfolio_trader::constraints::quantize_down;
use portfolio_trader::constraints::quantize_price;
use portfolio_trader::constraints::quantize_up;
use portfolio_trader::constraints::SymbolFilter;

#[test]
fn quantize_down_truncates_to_step_grid() {
    assert_eq!(quantize_down(1234, 10), 1230);
    assert_eq!(quantize_down(5, 10), 0);
    assert_eq!(quantize_down(50, 10), 50);
    assert_eq!(quantize_down(999, 1000), 0);
}

#[test]
fn quantize_down_result_at_most_input_and_on_grid() {
    for v in [0u64, 1, 7, 99, 100, 101, 12345] {
        for s in [1u64, 2, 3, 7, 100] {
            let r = quantize_down(v, s);
            assert!(r <= v);
            assert_eq!(r % s, 0);
            assert!(v - r < s);
        }
    }
}

#[test]
fn quantize_down_zero_step_is_identity() {
    assert_eq!(quantize_down(1234, 0), 1234);
    assert_eq!(quantize_down(0, 0), 0);
}

#[test]
fn quantize_up_raises_to_step_grid() {
    assert_eq!(quantize_up(1234, 10), 1240);
    assert_eq!(quantize_up(5, 10), 10);
    assert_eq!(quantize_up(50, 10), 50);
    assert_eq!(quantize_up(1, 1000), 1000);
}

#[test]
fn quantize_up_result_at_least_input_and_on_grid() {
    for v in [0u64, 1, 7, 99, 100, 101, 12345] {
        for s in [1u64, 2, 3, 7, 100] {
            let r = quantize_up(v, s);
            assert!(r >= v);
            assert_eq!(r % s, 0);
            assert!(r - v < s);
        }
    }
}

#[test]
fn quantize_up_zero_step_is_identity() {
    assert_eq!(quantize_up(1234, 0), 1234);
}

#[test]
fn quantize_price_rounds_to_nearest_tick_ties_up() {
    assert_eq!(quantize_price(1234, 10), 1230);
    assert_eq!(quantize_price(1235, 10), 1240);
    assert_eq!(quantize_price(1236, 10), 1240);
    assert_eq!(quantize_price(1230, 10), 1230);
    assert_eq!(quantize_price(7, 0), 7);
}

#[test]
fn filters_fold_into_constraints() {
    let filters = vec![
        SymbolFilter::LotSize { min_qty: 20, max_qty: 5000, step_size: 10 },
        SymbolFilter::PriceFilter { tick_size: 5 },
        SymbolFilter::MinNotional { notional: 50000 },
        SymbolFilter::Other,
    ];
    let c = constraints_from_filters(&filters);
    assert_eq!(c.min_qty, 20);
    assert_eq!(c.max_qty, Some(5000));
    assert_eq!(c.step_size, 10);
    assert_eq!(c.tick_size, 5);
    assert_eq!(c.min_notional, 50000);
}

#[test]
fn later_filter_of_same_kind_wins_and_zero_max_means_unbounded() {
    let filters = vec![
        SymbolFilter::LotSize { min_qty: 20, max_qty: 5000, step_size: 10 },
        SymbolFilter::LotSize { min_qty: 1, max_qty: 0, step_size: 2 },
    ];
    let c = constraints_from_filters(&filters);
    assert_eq!(c.min_qty, 1);
    assert_eq!(c.max_qty, None);
    assert_eq!(c.step_size, 2);
    assert_eq!(c.tick_size, 0);
    assert_eq!(c.min_notional, 0);
}

#[test]
fn no_filters_mean_no_constraints() {
    let c = constraints_from_filters(&Vec::new());
    assert_eq!(c.step_size, 0);
    assert_eq!(c.min_qty, 0);
    assert_eq!(c.max_qty, None);
    assert_eq!(c.min_notional, 0);
    assert_eq!(c.tick_size, 0);
}
