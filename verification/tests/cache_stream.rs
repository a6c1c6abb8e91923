use portfolio_trader::account::apply_push_update;
use portfolio_trader::account::plan_cache_read;
use portfolio_trader::account::resolve_cache_wait;
use portfolio_trader::account::AccountInfo;
use portfolio_trader::account::AfterWait;
use portfolio_trader::account::CacheRead;
use portfolio_trader::account::CACHE_READ_WAIT_SECS;
use portfolio_trader::stream::session_advance;
use portfolio_trader::stream::streaming_step;
use portfolio_trader::stream::ReconnectBackoff;
use portfolio_trader::stream::SessionPhase;
use portfolio_trader::stream::StreamFrame;
use portfolio_trader::stream::StreamStep;
use portfolio_trader::stream::BACKOFF_BASE_SECS;
use portfolio_trader::stream::CLEAN_CLOSE_PAUSE_SECS;

fn snapshot(total: u64, available: u64) -> AccountInfo {
    AccountInfo { totalWalletBalance: total, availableBalance: available }
}

#[test]
fn cached_value_is_returned_without_waiting() {
    let cached = Some(snapshot(1000, 900));
    match plan_cache_read(&cached) {
        CacheRead::Immediate { snapshot: s } => {
            assert_eq!(s.totalWalletBalance, 1000);
            assert_eq!(s.availableBalance, 900);
        }
        _ => panic!("a cached value must be returned at once"),
    }
}

#[test]
fn empty_cache_waits_at_most_the_bound() {
    match plan_cache_read(&None) {
        CacheRead::AwaitPush { max_wait_secs } => {
            assert_eq!(max_wait_secs, CACHE_READ_WAIT_SECS);
            assert_eq!(max_wait_secs, 3);
        }
        _ => panic!("an empty cache must wait for a push"),
    }
}

#[test]
fn timed_out_wait_degrades_to_direct_query() {
    assert!(matches!(resolve_cache_wait(None), AfterWait::QueryDirect));
    match resolve_cache_wait(Some(snapshot(5, 4))) {
        AfterWait::Deliver { snapshot: s } => assert_eq!(s.availableBalance, 4),
        _ => panic!("an update inside the bound must be delivered"),
    }
}

#[test]
fn push_update_replaces_snapshot_in_full() {
    let mut cached = Some(snapshot(1000, 900));
    apply_push_update(&mut cached, snapshot(1, 2));
    let now = cached.unwrap();
    assert_eq!(now.totalWalletBalance, 1);
    assert_eq!(now.availableBalance, 2);
}

#[test]
fn backoff_sequence_doubles_then_resets() {
    let mut b = ReconnectBackoff::new();
    assert_eq!(b.on_failure(), 5);
    assert_eq!(b.on_failure(), 10);
    assert_eq!(b.on_failure(), 20);
    assert_eq!(b.on_clean_close(), CLEAN_CLOSE_PAUSE_SECS);
    assert_eq!(b.on_failure(), BACKOFF_BASE_SECS);
    assert_eq!(b.on_failure(), 10);
}

#[test]
fn backoff_is_capped_at_a_minute() {
    let mut b = ReconnectBackoff::new();
    let waits: Vec<u64> = (0..6).map(|_| b.on_failure()).collect();
    assert_eq!(waits, vec![5, 10, 20, 40, 60, 60]);
}

#[test]
fn balance_frame_replaces_snapshot() {
    match streaming_step(StreamFrame::BalanceUpdate { snapshot: snapshot(3, 2) }) {
        StreamStep::ReplaceSnapshot { snapshot: s } => assert_eq!(s.totalWalletBalance, 3),
        _ => panic!("a balance update must replace the snapshot"),
    }
}

#[test]
fn ping_is_answered_with_same_payload() {
    match streaming_step(StreamFrame::Ping { payload: vec![1, 2, 3] }) {
        StreamStep::SendPong { payload } => assert_eq!(payload, vec![1, 2, 3]),
        _ => panic!("a ping must be answered"),
    }
}

#[test]
fn session_expiry_and_stream_failures_reconnect() {
    assert!(matches!(streaming_step(StreamFrame::SessionExpired), StreamStep::Reconnect));
    assert!(matches!(streaming_step(StreamFrame::Closed), StreamStep::Reconnect));
    assert!(matches!(streaming_step(StreamFrame::TransportError), StreamStep::Reconnect));
    assert!(matches!(streaming_step(StreamFrame::Ended), StreamStep::Reconnect));
    assert!(matches!(streaming_step(StreamFrame::Pong), StreamStep::KeepStreaming));
    assert!(matches!(streaming_step(StreamFrame::Irrelevant), StreamStep::KeepStreaming));
}

#[test]
fn session_phases_advance_in_order() {
    assert_eq!(
        session_advance(SessionPhase::RequestSessionToken, true),
        Some(SessionPhase::Connect)
    );
    assert_eq!(session_advance(SessionPhase::Connect, true), Some(SessionPhase::Streaming));
    assert_eq!(session_advance(SessionPhase::Streaming, true), Some(SessionPhase::Streaming));
    assert_eq!(session_advance(SessionPhase::Connect, false), None);
}
