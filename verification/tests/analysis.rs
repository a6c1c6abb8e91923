use portfolio_trader::indicators::calculate_indicators;
use portfolio_trader::indicators::IndicatorError;
use portfolio_trader::position::select_position;
use portfolio_trader::position::PositionRecord;
use portfolio_trader::position::ReportedSide;
use portfolio_trader::providers::extract_json_span;
use portfolio_trader::retry::kline_fetch_retry;
use portfolio_trader::retry::FetchFailure;
use portfolio_trader::retry::FetchRetry;
use portfolio_trader::types::Kline;
use portfolio_trader::types::PositionSide;

fn candle(close: u64, volume: u64) -> Kline {
    Kline {
        timestamp: 0,
        open: close,
        high: close + 2,
        low: close - 2,
        close,
        volume,
    }
}

#[test]
fn indicators_need_five_candles() {
    let klines: Vec<Kline> = (0..4).map(|i| candle(10 * (i + 1), 1)).collect();
    assert_eq!(calculate_indicators(&klines), Err(IndicatorError::NotEnoughData));
}

#[test]
fn indicators_exact_small_history() {
    // closes 10, 20, 30, 40, 50; volumes 1..5
    let klines: Vec<Kline> = (1..=5).map(|i| candle(10 * i, i)).collect();
    let ti = calculate_indicators(&klines).unwrap();
    assert_eq!(ti.sma_5, 30);
    assert_eq!(ti.sma_20, 30);
    assert_eq!(ti.sma_50, 30);
    assert_eq!(ti.sma_100, 30);
    // 40 -> 50 is +25%, in basis points
    assert_eq!(ti.price_change_1, 2500);
    // 20 -> 50 is +150%
    assert_eq!(ti.price_change_3, 15000);
    // not enough history for 6 and 12 periods
    assert_eq!(ti.price_change_6, 0);
    assert_eq!(ti.price_change_12, 0);
    // each of the last 4 candles gaps 12 units above the previous close
    assert_eq!(ti.atr_14, 12);
    // 12 of 50, in basis points
    assert_eq!(ti.atr_percent, 2400);
    // volume 5 against average 3
    assert_eq!(ti.volume_ratio, 166);
}

#[test]
fn indicators_falling_history_has_negative_momentum() {
    let klines: Vec<Kline> = (1..=5).rev().map(|i| candle(10 * i, 1)).collect();
    let ti = calculate_indicators(&klines).unwrap();
    // 20 -> 10 is -50%
    assert_eq!(ti.price_change_1, -5000);
}

fn record(symbol: &str, side: ReportedSide, amount: i64) -> PositionRecord {
    PositionRecord {
        symbol: symbol.to_string(),
        position_side: side,
        amount,
        entry_price: 100,
        unrealized_pnl: 7,
    }
}

#[test]
fn flat_records_and_other_symbols_are_ignored() {
    let records = vec![
        record("ETHUSDT", ReportedSide::Long, 500),
        record("BTCUSDT", ReportedSide::Long, 0),
    ];
    assert_eq!(select_position(&records, &"BTCUSDT".to_string(), 1), None);
}

#[test]
fn larger_amount_is_authoritative() {
    let records = vec![
        record("BTCUSDT", ReportedSide::Long, 300),
        record("BTCUSDT", ReportedSide::Short, -800),
        record("BTCUSDT", ReportedSide::Long, 400),
    ];
    let p = select_position(&records, &"BTCUSDT".to_string(), 1).unwrap();
    assert_eq!(p.side, PositionSide::Short);
    assert_eq!(p.amount, 800);
    assert_eq!(p.entry_price, 100);
    assert_eq!(p.unrealized_pnl, 7);
}

#[test]
fn first_record_wins_a_tie() {
    let records = vec![
        record("BTCUSDT", ReportedSide::Long, 300),
        record("BTCUSDT", ReportedSide::Short, -300),
    ];
    let p = select_position(&records, &"BTCUSDT".to_string(), 1).unwrap();
    assert_eq!(p.side, PositionSide::Long);
}

#[test]
fn unlabelled_side_follows_the_sign() {
    let records = vec![record("BTCUSDT", ReportedSide::Unspecified, -300)];
    let p = select_position(&records, &"BTCUSDT".to_string(), 1).unwrap();
    assert_eq!(p.side, PositionSide::Short);
    let records = vec![record("BTCUSDT", ReportedSide::Unspecified, 300)];
    let p = select_position(&records, &"BTCUSDT".to_string(), 1).unwrap();
    assert_eq!(p.side, PositionSide::Long);
}

#[test]
fn microscopic_amount_counts_as_flat() {
    // threshold of one whole unit at a 1e-4 scale: 0.00009 is flat
    let records = vec![record("BTCUSDT", ReportedSide::Long, 0)];
    assert_eq!(select_position(&records, &"BTCUSDT".to_string(), 1), None);
}

#[test]
fn json_span_is_cut_from_fenced_reply() {
    let reply = b"```json\n{\"signal\": \"BUY\"}\n```";
    let span = extract_json_span(reply).unwrap();
    assert_eq!(span, b"{\"signal\": \"BUY\"}".to_vec());
}

#[test]
fn json_span_keeps_nested_braces() {
    let reply = b"note {\"a\": {\"b\": 1}} end";
    let span = extract_json_span(reply).unwrap();
    assert_eq!(span, b"{\"a\": {\"b\": 1}}".to_vec());
}

#[test]
fn reply_without_object_is_malformed() {
    assert_eq!(extract_json_span(b"no json here"), None);
    assert_eq!(extract_json_span(b"only { open"), None);
    assert_eq!(extract_json_span(b"} reversed {"), None);
}

#[test]
fn transport_failures_retry_then_give_up() {
    assert_eq!(
        kline_fetch_retry(FetchFailure::Transport, 1),
        FetchRetry::RetryAfter { pause_secs: 2 }
    );
    assert_eq!(
        kline_fetch_retry(FetchFailure::Transport, 2),
        FetchRetry::RetryAfter { pause_secs: 2 }
    );
    assert_eq!(kline_fetch_retry(FetchFailure::Transport, 3), FetchRetry::GiveUp);
}

#[test]
fn decode_failure_is_never_retried() {
    assert_eq!(kline_fetch_retry(FetchFailure::Decode, 1), FetchRetry::GiveUp);
}
