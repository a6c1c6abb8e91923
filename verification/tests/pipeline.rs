use portfolio_trader::account::AccountInfo;
use portfolio_trader::constraints::SymbolConstraints;
use portfolio_trader::pipeline::analysis_only_entry;
use portfolio_trader::pipeline::analysis_position_source;
use portfolio_trader::pipeline::apply_strategy_override;
use portfolio_trader::pipeline::merge_cycle_results;
use portfolio_trader::pipeline::phase3_admission;
use portfolio_trader::pipeline::resolution_rejected_result;
use portfolio_trader::pipeline::CacheEntry;
use portfolio_trader::pipeline::Phase3Admission;
use portfolio_trader::pipeline::PositionSource;
use portfolio_trader::pipeline::SymbolCycleResult;
use portfolio_trader::pipeline::SymbolOutcome;
use portfolio_trader::types::AllocationPriority;
use portfolio_trader::types::PortfolioAllocation;
use portfolio_trader::types::PortfolioStrategy;
use portfolio_trader::types::Position;
use portfolio_trader::types::PositionSide;
use portfolio_trader::types::SymbolAllocation;

fn snapshot(total: u64, available: u64) -> AccountInfo {
    AccountInfo { totalWalletBalance: total, availableBalance: available }
}

fn long_position(amount: u64) -> Position {
    Position { side: PositionSide::Long, amount, entry_price: 100, unrealized_pnl: 0 }
}

fn allocation(priority: AllocationPriority, balance: u64) -> SymbolAllocation {
    SymbolAllocation {
        symbol: "BTCUSDT".to_string(),
        allocated_balance: balance,
        weight: 5000,
        priority,
        max_amount_override: None,
    }
}

fn constraints() -> SymbolConstraints {
    SymbolConstraints { step_size: 10, min_qty: 20, max_qty: None, min_notional: 0, tick_size: 1 }
}

#[test]
fn usable_entry_position_replaces_query() {
    let entry = Some(CacheEntry {
        account: None,
        position: Some(long_position(30)),
        usable: true,
    });
    match analysis_position_source(&entry) {
        PositionSource::UseCached { position } => assert_eq!(position.unwrap().amount, 30),
        _ => panic!("a usable entry must be reused"),
    }
}

#[test]
fn unusable_or_missing_entry_queries_fresh() {
    let entry = Some(CacheEntry {
        account: None,
        position: Some(long_position(30)),
        usable: false,
    });
    assert!(matches!(analysis_position_source(&entry), PositionSource::QueryFresh));
    assert!(matches!(analysis_position_source(&None), PositionSource::QueryFresh));
}

#[test]
fn skip_priority_is_excluded_and_keeps_position() {
    let gate = phase3_admission(
        &allocation(AllocationPriority::Skip, 1000),
        &Some(constraints()),
        &Some(long_position(30)),
        500,
    );
    match gate {
        Phase3Admission::SkipSymbol { entry } => {
            assert_eq!(entry.account, None);
            assert_eq!(entry.position.unwrap().amount, 30);
            assert!(entry.usable);
        }
        _ => panic!("skip priority must not execute"),
    }
}

#[test]
fn missing_constraints_reset_the_entry() {
    let gate = phase3_admission(
        &allocation(AllocationPriority::High, 1000),
        &None,
        &Some(long_position(30)),
        500,
    );
    match gate {
        Phase3Admission::SkipSymbol { entry } => {
            assert_eq!(entry.account, None);
            assert!(entry.position.is_none());
            assert!(!entry.usable);
        }
        _ => panic!("a symbol without constraints must not execute"),
    }
}

#[test]
fn zero_budget_and_zero_ceiling_are_excluded() {
    let gate = phase3_admission(
        &allocation(AllocationPriority::High, 0),
        &Some(constraints()),
        &None,
        500,
    );
    assert!(matches!(gate, Phase3Admission::SkipSymbol { .. }));

    let gate = phase3_admission(
        &allocation(AllocationPriority::High, 1000),
        &Some(constraints()),
        &None,
        0,
    );
    assert!(matches!(gate, Phase3Admission::SkipSymbol { .. }));
}

#[test]
fn min_qty_above_ceiling_is_excluded() {
    let gate = phase3_admission(
        &allocation(AllocationPriority::High, 1000),
        &Some(constraints()),
        &None,
        15,
    );
    assert!(matches!(gate, Phase3Admission::SkipSymbol { .. }));
}

#[test]
fn override_and_exchange_cap_shape_the_ceiling() {
    let mut alloc = allocation(AllocationPriority::High, 1000);
    alloc.max_amount_override = Some(700);
    let mut c = constraints();
    c.max_qty = Some(600);
    match phase3_admission(&alloc, &Some(c), &None, 500) {
        Phase3Admission::Execute { max_amount, allocated_balance } => {
            assert_eq!(max_amount, 600);
            assert_eq!(allocated_balance, 1000);
        }
        _ => panic!("an allocated symbol must execute"),
    }
}

#[test]
fn configured_strategy_overrides_plan_tag_only() {
    let mut plan = PortfolioAllocation {
        allocations: vec![allocation(AllocationPriority::High, 1000)],
        total_available: 5000,
        strategy: PortfolioStrategy::Aggressive,
        reasoning: "concentrate".to_string(),
    };
    let warned = apply_strategy_override(&mut plan, PortfolioStrategy::Balanced);
    assert!(warned);
    assert_eq!(plan.strategy, PortfolioStrategy::Balanced);
    assert_eq!(plan.allocations.len(), 1);
    assert_eq!(plan.allocations[0].allocated_balance, 1000);
    assert_eq!(plan.reasoning, "concentrate");
    assert_eq!(plan.total_available, 5000);

    let warned = apply_strategy_override(&mut plan, PortfolioStrategy::Balanced);
    assert!(!warned);
}

#[test]
fn failed_symbol_does_not_disturb_the_other() {
    let start = || {
        vec![
            CacheEntry { account: None, position: None, usable: false },
            CacheEntry { account: None, position: None, usable: false },
        ]
    };
    let b_outcome = || SymbolOutcome {
        symbol_id: 1,
        analysis_position: None,
        result: Ok(SymbolCycleResult {
            traded: true,
            keep_prior_entry: false,
            account_snapshot: Some(snapshot(800, 700)),
            position_snapshot: Some(long_position(40)),
        }),
    };

    // One cycle where the first symbol's submission threw...
    let mut cache_with_failure = start();
    let outcomes = vec![
        SymbolOutcome {
            symbol_id: 0,
            analysis_position: Some(long_position(9)),
            result: Err("order submission failed".to_string()),
        },
        b_outcome(),
    ];
    let any = merge_cycle_results(&mut cache_with_failure, &outcomes);
    assert!(any);

    // ...and one where it succeeded without trading.
    let mut cache_without_failure = start();
    let outcomes = vec![
        SymbolOutcome {
            symbol_id: 0,
            analysis_position: Some(long_position(9)),
            result: Ok(SymbolCycleResult {
                traded: false,
                keep_prior_entry: false,
                account_snapshot: None,
                position_snapshot: None,
            }),
        },
        b_outcome(),
    ];
    merge_cycle_results(&mut cache_without_failure, &outcomes);

    // The second symbol's entry is identical in both cycles.
    for cache in [&cache_with_failure, &cache_without_failure] {
        let b = &cache[1];
        assert_eq!(b.account.unwrap().availableBalance, 700);
        assert_eq!(b.position.unwrap().amount, 40);
        assert!(b.usable);
    }
    // The failed symbol alone was reset.
    assert!(!cache_with_failure[0].usable);
    assert!(cache_with_failure[0].position.is_none());
    // Its success in the other cycle kept the analysed position.
    assert_eq!(cache_without_failure[0].position.unwrap().amount, 9);
}

#[test]
fn merge_keeps_entries_without_outcome() {
    let mut cache = vec![
        CacheEntry { account: None, position: Some(long_position(5)), usable: true },
        CacheEntry { account: None, position: None, usable: false },
    ];
    let outcomes = vec![SymbolOutcome {
        symbol_id: 1,
        analysis_position: None,
        result: Err("provider failure".to_string()),
    }];
    let any = merge_cycle_results(&mut cache, &outcomes);
    assert!(!any);
    assert_eq!(cache[0].position.unwrap().amount, 5);
    assert!(cache[0].usable);
}

#[test]
fn analysis_only_entry_is_usable_exactly_when_position_known() {
    let with_pos = analysis_only_entry(Some(long_position(3)));
    assert!(with_pos.usable);
    assert!(with_pos.account.is_none());
    let without = analysis_only_entry(None);
    assert!(!without.usable);
}

#[test]
fn rejected_resolution_keeps_prior_entry() {
    let mut cache = vec![CacheEntry {
        account: Some(snapshot(100, 90)),
        position: Some(long_position(7)),
        usable: true,
    }];
    let outcomes = vec![SymbolOutcome {
        symbol_id: 0,
        analysis_position: None,
        result: Ok(resolution_rejected_result()),
    }];
    let any = merge_cycle_results(&mut cache, &outcomes);
    assert!(!any);
    assert_eq!(cache[0].account.unwrap().availableBalance, 90);
    assert_eq!(cache[0].position.unwrap().amount, 7);
    assert!(cache[0].usable);
}
