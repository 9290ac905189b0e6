use trading_core::money::AMOUNT_SCALE;
use trading_core::processor::{GenerationOutcome, SignalOutcome, TradeProcessor};
use trading_core::signal::TradeSignal;
use trading_core::strategy::{
    default_risk_level, default_selected_pairs, default_strategy_config, default_type, Strategy,
    StrategyStatus,
};
use trading_core::trade::{MarketType, Side, TradeStatus};

const AMOUNT_001: i64 = AMOUNT_SCALE / 100;
const PRICE_50000: i64 = 5_000_000;

fn strategy_with(id: u64, budget: i64, status: StrategyStatus) -> Strategy {
    Strategy {
        id,
        user_id: 9,
        name: "momentum one".to_string(),
        description: None,
        strategy_type: default_type(),
        status,
        risk_level: default_risk_level(),
        market_type: MarketType::Spot,
        selected_pairs: default_selected_pairs(),
        strategy_config: default_strategy_config(),
        performance_bp: 0,
        last_adapted_at: None,
        budget,
        created_at: None,
        updated_at: None,
    }
}

fn make_signal(side: Side, amount: i64, price: i64) -> TradeSignal {
    TradeSignal {
        symbol: "BTC/USDT".to_string(),
        side,
        amount,
        price,
        stop_loss: None,
        take_profit: None,
        trailing_stop: None,
        leverage: None,
        confidence_bp: Some(7_500),
        extra: String::new(),
    }
}

#[test]
fn signal_skipped_when_cost_exceeds_available() {
    // Budget rejection: available 100.00, signal cost 500.00 — the
    // signal is skipped, no trade is created, available is unchanged.
    let mut p = TradeProcessor::new();
    let s = strategy_with(1, 10_000, StrategyStatus::Active);
    p.initialize_strategy(&s, 10).unwrap();
    let outcome = p.process_trade_signal(&s, &make_signal(Side::Buy, AMOUNT_001, PRICE_50000), 11);
    assert!(matches!(outcome, SignalOutcome::Skipped));
    assert_eq!(p.get_available_budget(1), 10_000);
    assert!(p.trades.trade_ids().is_empty());
}

#[test]
fn signal_processed_creates_and_executes_trade() {
    let mut p = TradeProcessor::new();
    let s = strategy_with(1, 100_000, StrategyStatus::Active);
    p.initialize_strategy(&s, 10).unwrap();
    let outcome = p.process_trade_signal(&s, &make_signal(Side::Buy, AMOUNT_001, PRICE_50000), 11);
    let trade_id = match outcome {
        SignalOutcome::Executed { trade_id } => trade_id,
        other => panic!("expected an executed trade, got {:?}", other),
    };
    let t = p.trades.get(trade_id).unwrap();
    assert!(matches!(t.status, TradeStatus::Open));
    assert_eq!(t.strategy_id, 1);
    assert_eq!(t.cost, 50_000);
    assert_eq!(p.get_available_budget(1), 50_000);
    let entry = p.ledger.get_budget(1).unwrap();
    assert_eq!(entry.allocated, 50_000);
}

#[test]
fn generation_skips_inactive_strategy() {
    let mut p = TradeProcessor::new();
    let s = strategy_with(1, 100_000, StrategyStatus::Inactive);
    p.initialize_strategy(&s, 10).unwrap();
    let sigs = vec![make_signal(Side::Buy, AMOUNT_001, PRICE_50000)];
    let r = p.generate_trades_for_strategy(&s, &sigs, 11);
    assert!(matches!(r, GenerationOutcome::Inactive));
    assert!(p.trades.trade_ids().is_empty());
    assert_eq!(p.get_available_budget(1), 100_000);
}

#[test]
fn generation_skips_budget_under_floor() {
    // The floor is ten whole quote units: 9.99 is not enough.
    let mut p = TradeProcessor::new();
    let s = strategy_with(1, 999, StrategyStatus::Active);
    p.initialize_strategy(&s, 10).unwrap();
    let sigs = vec![make_signal(Side::Buy, AMOUNT_SCALE / 10_000, 10_000)];
    let r = p.generate_trades_for_strategy(&s, &sigs, 11);
    assert!(matches!(r, GenerationOutcome::BudgetTooLow));
}

#[test]
fn generation_processes_each_signal_independently() {
    let mut p = TradeProcessor::new();
    let s = strategy_with(1, 60_000, StrategyStatus::Active);
    p.initialize_strategy(&s, 10).unwrap();
    // First costs 500.00 and fits; second costs 500.00 more and no
    // longer fits; third is malformed. Each gets its own outcome.
    let sigs = vec![
        make_signal(Side::Buy, AMOUNT_001, PRICE_50000),
        make_signal(Side::Buy, AMOUNT_001, PRICE_50000),
        make_signal(Side::Buy, -5, PRICE_50000),
    ];
    let r = p.generate_trades_for_strategy(&s, &sigs, 11);
    let outcomes = match r {
        GenerationOutcome::Processed(os) => os,
        other => panic!("expected processed outcomes, got {:?}", other),
    };
    assert_eq!(outcomes.len(), 3);
    assert!(matches!(outcomes[0], SignalOutcome::Executed { .. }));
    assert!(matches!(outcomes[1], SignalOutcome::Skipped));
    assert!(matches!(outcomes[2], SignalOutcome::Failed(_)));
    assert_eq!(p.get_available_budget(1), 10_000);
}

#[test]
fn monitor_closes_trades_whose_conditions_crossed() {
    let mut p = TradeProcessor::new();
    let s = strategy_with(1, 200_000, StrategyStatus::Active);
    p.initialize_strategy(&s, 10).unwrap();
    let mut with_tp = make_signal(Side::Buy, AMOUNT_001, PRICE_50000);
    with_tp.take_profit = Some(5_200_000);
    let outcome = p.process_trade_signal(&s, &with_tp, 11);
    let trade_id = match outcome {
        SignalOutcome::Executed { trade_id } => trade_id,
        other => panic!("expected an executed trade, got {:?}", other),
    };

    // Below the take profit: nothing happens.
    let failures = p.monitor_open_trades(&vec![(trade_id, 5_100_000)], 12);
    assert!(failures.is_empty());
    assert!(matches!(p.trades.get(trade_id).unwrap().status, TradeStatus::Open));

    // At the take profit: the trade is closed at the listed price.
    let failures = p.monitor_open_trades(&vec![(trade_id, 5_200_000)], 13);
    assert!(failures.is_empty());
    let t = p.trades.get(trade_id).unwrap();
    assert!(matches!(t.status, TradeStatus::Closed));
    assert_eq!(t.exit_price, Some(5_200_000));
    assert_eq!(t.profit, Some(2_000));
    // 1500.00 after reserve, plus cost 500.00 plus profit 20.00 back.
    assert_eq!(p.get_available_budget(1), 200_000 + 2_000);
}

#[test]
fn check_trade_conditions_reports_what_it_did() {
    let mut p = TradeProcessor::new();
    let s = strategy_with(1, 100_000, StrategyStatus::Active);
    p.initialize_strategy(&s, 10).unwrap();
    let mut with_sl = make_signal(Side::Buy, AMOUNT_001, PRICE_50000);
    with_sl.stop_loss = Some(4_900_000);
    let trade_id = match p.process_trade_signal(&s, &with_sl, 11) {
        SignalOutcome::Executed { trade_id } => trade_id,
        other => panic!("expected an executed trade, got {:?}", other),
    };
    assert_eq!(p.check_trade_conditions(trade_id, 4_950_000, 12).unwrap(), false);
    assert_eq!(p.check_trade_conditions(trade_id, 4_900_000, 13).unwrap(), true);
    assert!(matches!(p.trades.get(trade_id).unwrap().status, TradeStatus::Closed));
    assert!(p.check_trade_conditions(9_999, 1, 14).is_err());
}

#[test]
fn cleanup_force_closes_open_trades_then_drops_budget() {
    // Cleanup: a still-open trade is force-closed — its closed_at is
    // set — before the strategy's budget entry is removed.
    let mut p = TradeProcessor::new();
    let s = strategy_with(1, 100_000, StrategyStatus::Active);
    p.initialize_strategy(&s, 10).unwrap();
    let trade_id = match p.process_trade_signal(&s, &make_signal(Side::Buy, AMOUNT_001, PRICE_50000), 11)
    {
        SignalOutcome::Executed { trade_id } => trade_id,
        other => panic!("expected an executed trade, got {:?}", other),
    };

    let failures = p.cleanup_strategy(1, &vec![], 12);
    assert!(failures.is_empty());
    let t = p.trades.get(trade_id).unwrap();
    assert!(matches!(t.status, TradeStatus::Closed));
    assert!(t.closed_at.is_some());
    assert!(p.ledger.get_budget(1).is_none());
}

#[test]
fn load_active_trades_keeps_only_non_terminal_records() {
    let mut source = TradeProcessor::new();
    let s = strategy_with(1, 200_000, StrategyStatus::Active);
    source.initialize_strategy(&s, 10).unwrap();
    let open_id = match source.process_trade_signal(
        &s,
        &make_signal(Side::Buy, AMOUNT_001, PRICE_50000),
        11,
    ) {
        SignalOutcome::Executed { trade_id } => trade_id,
        other => panic!("expected an executed trade, got {:?}", other),
    };
    let closed_id = match source.process_trade_signal(
        &s,
        &make_signal(Side::Buy, AMOUNT_001, PRICE_50000),
        11,
    ) {
        SignalOutcome::Executed { trade_id } => trade_id,
        other => panic!("expected an executed trade, got {:?}", other),
    };
    source.close_trade(closed_id, PRICE_50000, 12).unwrap();
    let persisted: Vec<_> = vec![
        source.trades.get(open_id).unwrap().clone(),
        source.trades.get(closed_id).unwrap().clone(),
    ];

    let mut fresh = TradeProcessor::new();
    fresh.initialize_strategy(&s, 20).unwrap();
    let failures = fresh.load_active_trades(&persisted, 21);
    assert!(failures.is_empty());
    assert!(fresh.trades.contains(open_id));
    assert!(!fresh.trades.contains(closed_id));
    // The reload re-reserved the open trade's cost: the ledger
    // accounts for it again.
    let entry = fresh.ledger.get_budget(1).unwrap();
    assert_eq!(entry.allocated, 50_000);
    assert_eq!(entry.available, 150_000);
}

#[test]
fn restored_trade_closes_cleanly_after_restart() {
    let mut source = TradeProcessor::new();
    let s = strategy_with(1, 100_000, StrategyStatus::Active);
    source.initialize_strategy(&s, 10).unwrap();
    let open_id = match source.process_trade_signal(
        &s,
        &make_signal(Side::Buy, AMOUNT_001, PRICE_50000),
        11,
    ) {
        SignalOutcome::Executed { trade_id } => trade_id,
        other => panic!("expected an executed trade, got {:?}", other),
    };
    let persisted = vec![source.trades.get(open_id).unwrap().clone()];

    // After a restart the strategy is registered afresh and the open
    // trade reloaded; closing it releases the re-reserved cost.
    let mut fresh = TradeProcessor::new();
    fresh.initialize_strategy(&s, 20).unwrap();
    assert!(fresh.load_active_trades(&persisted, 21).is_empty());
    fresh.close_trade(open_id, 5_100_000, 22).unwrap();
    let entry = fresh.ledger.get_budget(1).unwrap();
    assert_eq!(entry.allocated, 0);
    assert_eq!(entry.available, 100_000 + 1_000);
}

#[test]
fn reload_without_a_budget_entry_is_reported() {
    let mut source = TradeProcessor::new();
    let s = strategy_with(1, 100_000, StrategyStatus::Active);
    source.initialize_strategy(&s, 10).unwrap();
    let open_id = match source.process_trade_signal(
        &s,
        &make_signal(Side::Buy, AMOUNT_001, PRICE_50000),
        11,
    ) {
        SignalOutcome::Executed { trade_id } => trade_id,
        other => panic!("expected an executed trade, got {:?}", other),
    };
    let persisted = vec![source.trades.get(open_id).unwrap().clone()];

    let mut fresh = TradeProcessor::new();
    let failures = fresh.load_active_trades(&persisted, 20);
    assert_eq!(failures.len(), 1);
    assert_eq!(failures[0].0, open_id);
    assert!(!fresh.trades.contains(open_id));
}

#[test]
fn start_and_stop_toggle_the_running_flag() {
    let mut p = TradeProcessor::new();
    assert!(!p.is_running);
    p.start();
    assert!(p.is_running);
    p.stop();
    assert!(!p.is_running);
}
