use trading_core::strategy::{
    default_risk_level, default_selected_pairs, default_status, default_strategy_config,
    default_type, RiskLevel, Strategy, StrategyStatus,
};
use trading_core::trade::{default_market_type, MarketType};

fn sample_strategy() -> Strategy {
    Strategy {
        id: 1,
        user_id: 9,
        name: "momentum one".to_string(),
        description: None,
        strategy_type: default_type(),
        status: default_status(),
        risk_level: default_risk_level(),
        market_type: default_market_type(),
        selected_pairs: default_selected_pairs(),
        strategy_config: default_strategy_config(),
        performance_bp: 0,
        last_adapted_at: None,
        budget: 100_000,
        created_at: None,
        updated_at: None,
    }
}

#[test]
fn defaults_match_the_documented_values() {
    assert_eq!(default_type(), "custom");
    assert_eq!(default_status(), StrategyStatus::Inactive);
    assert_eq!(default_risk_level(), RiskLevel::Medium);
    assert_eq!(default_market_type(), MarketType::Spot);
    assert_eq!(default_selected_pairs(), vec!["BTC/USDT"]);
    let cfg = default_strategy_config();
    assert_eq!(cfg.indicator_type, "momentum");
    assert_eq!(cfg.position_size_bp, 1_000);
    assert_eq!(cfg.max_open_positions, 1);
    assert_eq!(cfg.stop_loss_bp, 200);
    assert_eq!(cfg.take_profit_bp, 400);
}

#[test]
fn activate_and_deactivate_flip_the_status() {
    let mut s = sample_strategy();
    s.activate(50);
    assert_eq!(s.status, StrategyStatus::Active);
    assert_eq!(s.updated_at, Some(50));
    s.deactivate(60);
    assert_eq!(s.status, StrategyStatus::Inactive);
    assert_eq!(s.updated_at, Some(60));
}

#[test]
fn adapt_replaces_the_configuration_and_records_when() {
    let mut s = sample_strategy();
    let mut cfg = default_strategy_config();
    cfg.stop_loss_bp = 300;
    s.adapt(cfg, 70);
    assert_eq!(s.strategy_config.stop_loss_bp, 300);
    assert_eq!(s.last_adapted_at, Some(70));
    assert_eq!(s.updated_at, Some(70));
}

#[test]
fn symbols_returns_the_traded_pairs() {
    let s = sample_strategy();
    assert_eq!(s.symbols(), &vec!["BTC/USDT".to_string()]);
}

#[test]
fn clone_copies_every_field() {
    let s = sample_strategy();
    let c = s.clone();
    assert_eq!(c.id, s.id);
    assert_eq!(c.name, s.name);
    assert_eq!(c.selected_pairs, s.selected_pairs);
    assert_eq!(c.budget, s.budget);
}
