use portfolio_trader::logging::logs_directory;
use portfolio_trader::performance::PerformanceTracker;
use portfolio_trader::signing::generate_signature;
use portfolio_trader::types::TradeAction;
use portfolio_trader::types::TradeResult;

fn trade(action: TradeAction, pnl: Option<i128>) -> TradeResult {
    TradeResult {
        symbol: "BTCUSDT".to_string(),
        action,
        price: 100,
        amount: 10,
        timestamp: 1,
        reason: "test".to_string(),
        pnl,
        order_details: None,
    }
}

#[test]
fn hold_records_do_not_count() {
    let mut t = PerformanceTracker::new();
    assert!(!t.update(&trade(TradeAction::Hold, Some(5)), 42));
    assert_eq!(t.snapshot().total_trades, 0);
    assert_eq!(t.snapshot().last_update, None);
}

#[test]
fn profits_and_losses_accumulate() {
    let mut t = PerformanceTracker::new();
    assert!(t.update(&trade(TradeAction::OpenLong, Some(50)), 1));
    assert!(t.update(&trade(TradeAction::OpenShort, Some(-20)), 2));
    assert!(t.update(&trade(TradeAction::OpenLong, None), 3));
    let s = t.snapshot();
    assert_eq!(s.total_trades, 3);
    assert_eq!(s.total_realized_pnl, 30);
    assert_eq!(s.winning_trades, 1);
    assert_eq!(s.losing_trades, 1);
    assert_eq!(s.best_trade, Some(50));
    assert_eq!(s.worst_trade, Some(-20));
    assert_eq!(s.last_update, Some(3));
}

#[test]
fn drawdown_measures_fall_from_peak() {
    let mut t = PerformanceTracker::new();
    t.update(&trade(TradeAction::OpenLong, Some(100)), 1);
    assert_eq!(t.snapshot().equity_peak, 100);
    assert_eq!(t.snapshot().max_drawdown, 0);
    t.update(&trade(TradeAction::OpenLong, Some(-70)), 2);
    assert_eq!(t.snapshot().equity_peak, 100);
    assert_eq!(t.snapshot().max_drawdown, 70);
    t.update(&trade(TradeAction::OpenLong, Some(30)), 3);
    assert_eq!(t.snapshot().max_drawdown, 70);
    t.update(&trade(TradeAction::OpenLong, Some(60)), 4);
    assert_eq!(t.snapshot().equity_peak, 120);
    assert_eq!(t.snapshot().max_drawdown, 70);
}

#[test]
fn zero_pnl_trade_counts_neither_win_nor_loss() {
    let mut t = PerformanceTracker::new();
    t.update(&trade(TradeAction::OpenLong, Some(0)), 1);
    let s = t.snapshot();
    assert_eq!(s.total_trades, 1);
    assert_eq!(s.winning_trades, 0);
    assert_eq!(s.losing_trades, 0);
    assert_eq!(s.best_trade, Some(0));
    assert_eq!(s.worst_trade, Some(0));
}

#[test]
fn signature_matches_published_hmac_sha256_vector() {
    // HMAC-SHA-256 test vector: key "Jefe", data "what do ya want for
    // nothing?".
    let tag = generate_signature("what do ya want for nothing?", "Jefe");
    assert_eq!(
        tag,
        "5bdcc146bf60754e6a042426089575c75a003f089d2739839dec58b964ec3843"
    );
}

#[test]
fn signature_of_empty_message_under_empty_key() {
    let tag = generate_signature("", "");
    assert_eq!(
        tag,
        "b613679a0814d9ec772f95d778c35fc5ff1697c493715653c6c712144292c5ad"
    );
}

#[test]
fn logs_live_under_the_logs_directory() {
    assert_eq!(logs_directory(), "logs");
}
