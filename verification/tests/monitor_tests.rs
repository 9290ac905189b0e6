use trading_core::monitor::{
    assess_market_conditions, assess_strategy_health, calculate_performance_metrics,
    calculate_risk_metrics, MarketConditions, MarketSnapshot, PerformanceMetrics, StrategyHealth,
    StrategyMonitor,
};
use trading_core::money::AMOUNT_SCALE;
use trading_core::strategy::{
    default_risk_level, default_selected_pairs, default_strategy_config, default_type, Strategy,
    StrategyStatus,
};
use trading_core::trade::{MarketType, Side, Trade, TradeStatus};

fn watched_strategy(id: u64) -> Strategy {
    Strategy {
        id,
        user_id: 9,
        name: "momentum one".to_string(),
        description: None,
        strategy_type: default_type(),
        status: StrategyStatus::Active,
        risk_level: default_risk_level(),
        market_type: MarketType::Spot,
        selected_pairs: default_selected_pairs(),
        strategy_config: default_strategy_config(),
        performance_bp: 0,
        last_adapted_at: None,
        budget: 100_000,
        created_at: None,
        updated_at: None,
    }
}

fn closed_trade(id: u64, strategy_id: u64, profit: i64) -> Trade {
    Trade {
        id,
        strategy_id,
        user_id: 9,
        symbol: "BTC/USDT".to_string(),
        side: Side::Buy,
        status: TradeStatus::Closed,
        amount: AMOUNT_SCALE / 100,
        entry_price: Some(5_000_000),
        exit_price: Some(5_100_000),
        profit: Some(profit),
        cost: 50_000,
        stop_loss: None,
        take_profit: None,
        trailing_stop: None,
        leverage: None,
        market_type: MarketType::Spot,
        order_id: Some(1),
        created_at: 1,
        executed_at: Some(2),
        closed_at: Some(3),
        metadata: String::new(),
    }
}

fn open_trade(id: u64, strategy_id: u64, cost: i64) -> Trade {
    Trade {
        id,
        strategy_id,
        user_id: 9,
        symbol: "BTC/USDT".to_string(),
        side: Side::Buy,
        status: TradeStatus::Open,
        amount: AMOUNT_SCALE / 100,
        entry_price: Some(5_000_000),
        exit_price: None,
        profit: None,
        cost,
        stop_loss: None,
        take_profit: None,
        trailing_stop: None,
        leverage: None,
        market_type: MarketType::Spot,
        order_id: Some(1),
        created_at: 1,
        executed_at: Some(2),
        closed_at: None,
        metadata: String::new(),
    }
}

#[test]
fn add_remove_and_query_statuses() {
    let mut m = StrategyMonitor::new();
    let s = watched_strategy(1);
    m.add_strategy(&s, 100).unwrap();
    let st = m.get_strategy_status(1).unwrap();
    assert_eq!(st.status, "active");
    assert_eq!(st.last_check, 100);
    assert_eq!(st.next_check, 100 + 60_000);

    // Adding again keeps the first status.
    let first_id = st.id;
    m.add_strategy(&s, 200).unwrap();
    assert_eq!(m.get_strategy_status(1).unwrap().id, first_id);
    assert_eq!(m.get_all_statuses().len(), 1);

    m.remove_strategy(1).unwrap();
    assert!(m.get_strategy_status(1).is_none());
    // Removal is idempotent.
    m.remove_strategy(1).unwrap();
}

#[test]
fn evaluation_always_advances_the_check_timestamps() {
    let mut m = StrategyMonitor::new();
    let s = watched_strategy(1);
    m.add_strategy(&s, 100).unwrap();
    let snapshot = MarketSnapshot { timestamp: 500, volatility_bp: 100, trend_bp: 0, volume_change_bp: 0 };
    let adapt = m.evaluate_strategy(&s, &snapshot, &vec![], 500);
    assert!(!adapt);
    let st = m.get_strategy_status(1).unwrap();
    assert_eq!(st.last_check, 500);
    assert_eq!(st.next_check, 500 + 60_000);
    assert!(st.metadata.is_some());
}

#[test]
fn evaluation_replaces_metadata_wholesale() {
    let mut m = StrategyMonitor::new();
    let s = watched_strategy(1);
    m.add_strategy(&s, 100).unwrap();
    let bullish = MarketSnapshot { timestamp: 1, volatility_bp: 100, trend_bp: 50, volume_change_bp: 0 };
    m.evaluate_strategy(&s, &bullish, &vec![], 200);
    assert_eq!(
        m.get_strategy_status(1).unwrap().metadata.unwrap().market_conditions,
        MarketConditions::Bullish
    );
    let volatile = MarketSnapshot { timestamp: 2, volatility_bp: 900, trend_bp: 50, volume_change_bp: 0 };
    m.evaluate_strategy(&s, &volatile, &vec![], 300);
    let meta = m.get_strategy_status(1).unwrap().metadata.unwrap();
    assert_eq!(meta.market_conditions, MarketConditions::Volatile);
    assert_eq!(meta.timestamp, 300);
}

#[test]
fn performance_metrics_count_the_strategy_trades_only() {
    let trades = vec![
        closed_trade(1, 1, 1_000),
        closed_trade(2, 1, -200),
        closed_trade(3, 2, 9_999),
        open_trade(4, 1, 50_000),
    ];
    let p = calculate_performance_metrics(&trades, 1);
    assert_eq!(p.total_trades, 2);
    assert_eq!(p.winning_trades, 1);
    assert_eq!(p.losing_trades, 1);
    assert_eq!(p.profit_loss, 800);

    let r = calculate_risk_metrics(&trades, 1);
    assert_eq!(r.open_positions, 1);
    assert_eq!(r.current_exposure, 50_000);
}

#[test]
fn labels_follow_the_snapshot_and_the_metrics() {
    let calm = MarketSnapshot { timestamp: 1, volatility_bp: 0, trend_bp: 0, volume_change_bp: 0 };
    assert_eq!(assess_market_conditions(&calm), MarketConditions::Neutral);
    let falling = MarketSnapshot { timestamp: 1, volatility_bp: 0, trend_bp: -10, volume_change_bp: 0 };
    assert_eq!(assess_market_conditions(&falling), MarketConditions::Bearish);

    let losing = PerformanceMetrics {
        total_trades: 3,
        winning_trades: 1,
        losing_trades: 2,
        profit_loss: -100,
    };
    assert_eq!(assess_strategy_health(&losing), StrategyHealth::Degraded);
    let level = PerformanceMetrics {
        total_trades: 2,
        winning_trades: 1,
        losing_trades: 1,
        profit_loss: 0,
    };
    assert_eq!(assess_strategy_health(&level), StrategyHealth::Healthy);
}

#[test]
fn evaluating_an_unwatched_strategy_changes_nothing() {
    let mut m = StrategyMonitor::new();
    let s = watched_strategy(1);
    let snapshot = MarketSnapshot { timestamp: 1, volatility_bp: 0, trend_bp: 0, volume_change_bp: 0 };
    m.evaluate_strategy(&s, &snapshot, &vec![], 100);
    assert!(m.get_strategy_status(1).is_none());
}
