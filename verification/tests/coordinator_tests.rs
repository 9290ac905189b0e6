use trading_core::coordinator::BackgroundProcessor;
use trading_core::money::AMOUNT_SCALE;
use trading_core::processor::SignalOutcome;
use trading_core::signal::TradeSignal;
use trading_core::strategy::{
    default_risk_level, default_selected_pairs, default_strategy_config, default_type, Strategy,
    StrategyStatus,
};
use trading_core::trade::{MarketType, Side, TradeStatus};

fn active_strategy(id: u64, budget: i64) -> Strategy {
    Strategy {
        id,
        user_id: 9,
        name: "momentum one".to_string(),
        description: Some("demo".to_string()),
        strategy_type: default_type(),
        status: StrategyStatus::Active,
        risk_level: default_risk_level(),
        market_type: MarketType::Spot,
        selected_pairs: default_selected_pairs(),
        strategy_config: default_strategy_config(),
        performance_bp: 0,
        last_adapted_at: None,
        budget,
        created_at: Some(1),
        updated_at: Some(1),
    }
}

#[test]
fn add_strategy_twice_keeps_one_entry_per_table() {
    // Idempotent registration: two add_strategy calls with the same id
    // produce exactly one budget entry and one monitoring status.
    let mut c = BackgroundProcessor::new();
    c.add_strategy(active_strategy(1, 100_000), 10).unwrap();
    let first_status_id = c.get_strategy_status(1).unwrap().id;
    let first_budget = *c.trade_processor.ledger.get_budget(1).unwrap();

    c.add_strategy(active_strategy(1, 55_000), 20).unwrap();
    assert_eq!(c.get_all_strategy_statuses().len(), 1);
    let second = c.get_strategy_status(1).unwrap();
    assert_eq!(second.id, first_status_id);
    assert_eq!(second.created_at, 10);
    let budget = *c.trade_processor.ledger.get_budget(1).unwrap();
    assert_eq!(budget, first_budget);
    assert_eq!(budget.total, 100_000);
}

#[test]
fn add_strategy_seeds_monitor_and_ledger() {
    let mut c = BackgroundProcessor::new();
    c.add_strategy(active_strategy(3, 42_000), 100).unwrap();
    let st = c.get_strategy_status(3).unwrap();
    assert_eq!(st.strategy_id, 3);
    assert_eq!(st.status, "active");
    assert_eq!(st.last_check, 100);
    assert_eq!(st.next_check, 100 + 60_000);
    assert_eq!(st.error_count, 0);
    let b = c.trade_processor.ledger.get_budget(3).unwrap();
    assert_eq!(b.available, 42_000);
    assert_eq!(b.allocated, 0);
}

#[test]
fn add_strategy_rejects_negative_budget() {
    let mut c = BackgroundProcessor::new();
    assert!(c.add_strategy(active_strategy(1, -1), 10).is_err());
    assert!(c.get_strategy_status(1).is_none());
}

#[test]
fn remove_strategy_force_closes_open_trades_first() {
    // Cleanup scenario: removing a strategy with one open trade closes
    // that trade — closed_at becomes set — and the budget entry goes.
    let mut c = BackgroundProcessor::new();
    let s = active_strategy(1, 100_000);
    c.add_strategy(s.clone(), 10).unwrap();
    let sig = TradeSignal {
        symbol: "BTC/USDT".to_string(),
        side: Side::Buy,
        amount: AMOUNT_SCALE / 100,
        price: 5_000_000,
        stop_loss: None,
        take_profit: None,
        trailing_stop: None,
        leverage: None,
        confidence_bp: None,
        extra: String::new(),
    };
    let trade_id = match c.trade_processor.process_trade_signal(&s, &sig, 11) {
        SignalOutcome::Executed { trade_id } => trade_id,
        other => panic!("expected an executed trade, got {:?}", other),
    };
    assert!(matches!(
        c.trade_processor.trades.get(trade_id).unwrap().status,
        TradeStatus::Open
    ));

    let failures = c.remove_strategy(1, &vec![], 12);
    assert!(failures.is_empty());
    let t = c.trade_processor.trades.get(trade_id).unwrap();
    assert!(matches!(t.status, TradeStatus::Closed));
    assert!(t.closed_at.is_some());
    assert!(c.trade_processor.ledger.get_budget(1).is_none());
    assert!(c.get_strategy_status(1).is_none());
    assert!(!c.active_strategies.contains_key(&1));
}

#[test]
fn remove_strategy_is_idempotent() {
    let mut c = BackgroundProcessor::new();
    c.add_strategy(active_strategy(1, 100_000), 10).unwrap();
    c.remove_strategy(1, &vec![], 11);
    let failures = c.remove_strategy(1, &vec![], 12);
    assert!(failures.is_empty());
    assert!(c.get_strategy_status(1).is_none());
}

#[test]
fn start_and_stop_drive_all_components() {
    let mut c = BackgroundProcessor::new();
    c.start().unwrap();
    assert!(c.trade_processor.is_running);
    c.stop().unwrap();
    assert!(!c.trade_processor.is_running);
}

#[test]
fn status_queries_answer_for_known_strategies_only() {
    let mut c = BackgroundProcessor::new();
    assert!(c.get_strategy_status(1).is_none());
    c.add_strategy(active_strategy(1, 100_000), 10).unwrap();
    assert!(c.get_strategy_status(1).is_some());
    assert_eq!(c.get_all_strategy_statuses().len(), 1);
}
