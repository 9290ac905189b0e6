use trading_core::errors::ApiError;
use trading_core::ledger::BudgetLedger;
use trading_core::lifecycle::TradeLifecycle;
use trading_core::money::{trade_cost, AMOUNT_SCALE};
use trading_core::processor::TradeProcessor;
use trading_core::signal::TradeSignal;
use trading_core::trade::{
    default_market_type, should_close_trade, trade_profit, MarketType, Side, Trade, TradeStatus,
};

fn signal(side: Side, amount: i64, price: i64) -> TradeSignal {
    TradeSignal {
        symbol: "BTC/USDT".to_string(),
        side,
        amount,
        price,
        stop_loss: None,
        take_profit: None,
        trailing_stop: None,
        leverage: None,
        confidence_bp: None,
        extra: String::new(),
    }
}

// Amounts are scaled by 10^8, prices and capital are in cents.
const AMOUNT_001: i64 = AMOUNT_SCALE / 100; // 0.01 of the asset
const PRICE_50000: i64 = 5_000_000; // 50,000.00 quote units
const PRICE_51000: i64 = 5_100_000; // 51,000.00 quote units

#[test]
fn trade_cost_is_amount_times_price() {
    // 0.01 * 50,000.00 = 500.00 quote units.
    assert_eq!(trade_cost(AMOUNT_001, PRICE_50000), 50_000);
    // 2 * 1.25 = 2.50 quote units.
    assert_eq!(trade_cost(2 * AMOUNT_SCALE, 125), 250);
}

#[test]
fn trade_profit_by_side() {
    // Buy: (51,000 - 50,000) * 0.01 = 10.00 quote units.
    assert_eq!(trade_profit(Side::Buy, AMOUNT_001, PRICE_50000, PRICE_51000), 1_000);
    // Sell the same move loses the same.
    assert_eq!(trade_profit(Side::Sell, AMOUNT_001, PRICE_50000, PRICE_51000), -1_000);
    // Sell into a falling market wins.
    assert_eq!(trade_profit(Side::Sell, AMOUNT_001, PRICE_51000, PRICE_50000), 1_000);
}

#[test]
fn happy_path_create_execute_close() {
    // Budget 1000.00; buy 0.01 at 50,000.00: cost 500.00, available
    // drops to 500.00; execute; close at 51,000.00: profit 10.00,
    // available becomes 500 + 500 + 10 = 1010.00.
    let mut ledger = BudgetLedger::new();
    let mut trades = TradeLifecycle::new();
    ledger.initialize(1, 100_000, 0, 10).unwrap();

    let sig = signal(Side::Buy, AMOUNT_001, PRICE_50000);
    trades.create(&mut ledger, 77, 1, 9, MarketType::Spot, &sig, 11).unwrap();
    {
        let t = trades.get(77).unwrap();
        assert!(matches!(t.status, TradeStatus::Pending));
        assert_eq!(t.cost, 50_000);
        assert_eq!(t.entry_price, Some(PRICE_50000));
        assert_eq!(t.exit_price, None);
    }
    assert_eq!(ledger.get(1), Some(50_000));

    trades.execute(77, None, 500, 12).unwrap();
    {
        let t = trades.get(77).unwrap();
        assert!(matches!(t.status, TradeStatus::Open));
        assert_eq!(t.executed_at, Some(12));
        assert_eq!(t.order_id, Some(500));
    }

    trades.close(&mut ledger, 77, PRICE_51000, 13).unwrap();
    {
        let t = trades.get(77).unwrap();
        assert!(matches!(t.status, TradeStatus::Closed));
        assert_eq!(t.exit_price, Some(PRICE_51000));
        assert_eq!(t.profit, Some(1_000));
        assert_eq!(t.closed_at, Some(13));
    }
    assert_eq!(ledger.get(1), Some(101_000));
}

#[test]
fn create_rejected_on_insufficient_budget() {
    let mut ledger = BudgetLedger::new();
    let mut trades = TradeLifecycle::new();
    ledger.initialize(1, 10_000, 0, 10).unwrap();
    // Cost 500.00 against available 100.00.
    let sig = signal(Side::Buy, AMOUNT_001, PRICE_50000);
    let err = trades.create(&mut ledger, 77, 1, 9, MarketType::Spot, &sig, 11).unwrap_err();
    assert!(matches!(err, ApiError::InsufficientBudget(_)));
    assert!(!trades.contains(77));
    assert_eq!(ledger.get(1), Some(10_000));
}

#[test]
fn create_rejects_nonpositive_amount() {
    let mut ledger = BudgetLedger::new();
    let mut trades = TradeLifecycle::new();
    ledger.initialize(1, 100_000, 0, 10).unwrap();
    let sig = signal(Side::Buy, 0, PRICE_50000);
    let err = trades.create(&mut ledger, 77, 1, 9, MarketType::Spot, &sig, 11).unwrap_err();
    assert!(matches!(err, ApiError::Validation(_)));
}

#[test]
fn close_on_pending_trade_is_invalid_state() {
    // Closing a pending trade returns InvalidState and leaves both the
    // trade and the budget untouched.
    let mut ledger = BudgetLedger::new();
    let mut trades = TradeLifecycle::new();
    ledger.initialize(1, 100_000, 0, 10).unwrap();
    let sig = signal(Side::Buy, AMOUNT_001, PRICE_50000);
    trades.create(&mut ledger, 77, 1, 9, MarketType::Spot, &sig, 11).unwrap();

    let err = trades.close(&mut ledger, 77, PRICE_51000, 12).unwrap_err();
    assert!(matches!(err, ApiError::InvalidState(_)));
    let t = trades.get(77).unwrap();
    assert!(matches!(t.status, TradeStatus::Pending));
    assert_eq!(t.exit_price, None);
    assert_eq!(ledger.get(1), Some(50_000));
}

#[test]
fn execute_on_open_or_closed_trade_is_invalid_state() {
    let mut ledger = BudgetLedger::new();
    let mut trades = TradeLifecycle::new();
    ledger.initialize(1, 100_000, 0, 10).unwrap();
    let sig = signal(Side::Buy, AMOUNT_001, PRICE_50000);
    trades.create(&mut ledger, 77, 1, 9, MarketType::Spot, &sig, 11).unwrap();
    trades.execute(77, None, 500, 12).unwrap();

    let err = trades.execute(77, None, 501, 13).unwrap_err();
    assert!(matches!(err, ApiError::InvalidState(_)));

    trades.close(&mut ledger, 77, PRICE_51000, 14).unwrap();
    let err = trades.execute(77, None, 502, 15).unwrap_err();
    assert!(matches!(err, ApiError::InvalidState(_)));
}

#[test]
fn execute_uses_live_price_when_supplied() {
    let mut ledger = BudgetLedger::new();
    let mut trades = TradeLifecycle::new();
    ledger.initialize(1, 100_000, 0, 10).unwrap();
    let sig = signal(Side::Buy, AMOUNT_001, PRICE_50000);
    trades.create(&mut ledger, 77, 1, 9, MarketType::Spot, &sig, 11).unwrap();
    trades.execute(77, Some(PRICE_51000), 500, 12).unwrap();
    assert_eq!(trades.get(77).unwrap().entry_price, Some(PRICE_51000));
}

#[test]
fn unknown_trade_is_not_found() {
    let mut ledger = BudgetLedger::new();
    let mut trades = TradeLifecycle::new();
    let err = trades.execute(1, None, 2, 3).unwrap_err();
    assert!(matches!(err, ApiError::NotFound(_)));
    let err = trades.close(&mut ledger, 1, 100, 3).unwrap_err();
    assert!(matches!(err, ApiError::NotFound(_)));
}

#[test]
fn delete_pending_returns_reservation_and_refuses_open() {
    let mut ledger = BudgetLedger::new();
    let mut trades = TradeLifecycle::new();
    ledger.initialize(1, 100_000, 0, 10).unwrap();
    let sig = signal(Side::Buy, AMOUNT_001, PRICE_50000);
    trades.create(&mut ledger, 77, 1, 9, MarketType::Spot, &sig, 11).unwrap();
    trades.create(&mut ledger, 78, 1, 9, MarketType::Spot, &sig, 11).unwrap();
    trades.execute(78, None, 500, 12).unwrap();

    trades.delete(&mut ledger, 77, 13).unwrap();
    assert!(!trades.contains(77));
    assert_eq!(ledger.get(1), Some(50_000));

    let err = trades.delete(&mut ledger, 78, 13).unwrap_err();
    assert!(matches!(err, ApiError::InvalidState(_)));
    assert!(trades.contains(78));
}

#[test]
fn open_trades_of_lists_exactly_the_open_ones() {
    let mut ledger = BudgetLedger::new();
    let mut trades = TradeLifecycle::new();
    ledger.initialize(1, 1_000_000, 0, 10).unwrap();
    ledger.initialize(2, 1_000_000, 0, 10).unwrap();
    let sig = signal(Side::Buy, AMOUNT_001, PRICE_50000);
    trades.create(&mut ledger, 10, 1, 9, MarketType::Spot, &sig, 11).unwrap();
    trades.create(&mut ledger, 11, 1, 9, MarketType::Spot, &sig, 11).unwrap();
    trades.create(&mut ledger, 12, 2, 9, MarketType::Spot, &sig, 11).unwrap();
    trades.execute(11, None, 500, 12).unwrap();
    trades.execute(12, None, 501, 12).unwrap();

    let open = trades.open_trades_of(1);
    assert_eq!(open, vec![11]);
    let open2 = trades.open_trades_of(2);
    assert_eq!(open2, vec![12]);
}

#[test]
fn close_conditions_for_buy_and_sell() {
    let mut ledger = BudgetLedger::new();
    let mut trades = TradeLifecycle::new();
    ledger.initialize(1, 10_000_000, 0, 10).unwrap();
    let mut sig = signal(Side::Buy, AMOUNT_001, PRICE_50000);
    sig.stop_loss = Some(4_900_000);
    sig.take_profit = Some(5_200_000);
    trades.create(&mut ledger, 1, 1, 9, MarketType::Spot, &sig, 11).unwrap();
    trades.execute(1, None, 500, 12).unwrap();
    {
        let t = trades.get(1).unwrap();
        assert!(!should_close_trade(t, 5_000_000));
        assert!(should_close_trade(t, 4_900_000)); // stop loss hit
        assert!(should_close_trade(t, 5_200_000)); // take profit hit
    }

    let mut sell = signal(Side::Sell, AMOUNT_001, PRICE_50000);
    sell.stop_loss = Some(5_100_000);
    sell.take_profit = Some(4_800_000);
    trades.create(&mut ledger, 2, 1, 9, MarketType::Spot, &sell, 11).unwrap();
    trades.execute(2, None, 501, 12).unwrap();
    {
        let t = trades.get(2).unwrap();
        assert!(!should_close_trade(t, 5_000_000));
        assert!(should_close_trade(t, 5_100_000)); // stop loss hit
        assert!(should_close_trade(t, 4_800_000)); // take profit hit
    }

    let mut trailing = signal(Side::Buy, AMOUNT_001, PRICE_50000);
    trailing.trailing_stop = Some(100_000); // 1,000.00 adverse move
    trades.create(&mut ledger, 3, 1, 9, MarketType::Spot, &trailing, 11).unwrap();
    trades.execute(3, None, 502, 12).unwrap();
    {
        let t = trades.get(3).unwrap();
        assert!(!should_close_trade(t, 4_950_000));
        assert!(should_close_trade(t, 4_900_000)); // fell 1,000.00 from entry
    }
}

#[test]
fn reload_accepts_only_well_formed_records() {
    let mut p = TradeProcessor::new();
    p.ledger.initialize(1, 100_000, 0, 10).unwrap();
    let good = Trade {
        id: 5,
        strategy_id: 1,
        user_id: 9,
        symbol: "BTC/USDT".to_string(),
        side: Side::Buy,
        status: TradeStatus::Open,
        amount: AMOUNT_001,
        entry_price: Some(PRICE_50000),
        exit_price: None,
        profit: None,
        cost: 50_000,
        stop_loss: None,
        take_profit: None,
        trailing_stop: None,
        leverage: None,
        market_type: default_market_type(),
        order_id: Some(12),
        created_at: 1,
        executed_at: Some(2),
        closed_at: None,
        metadata: String::new(),
    };
    // An open trade without an execution timestamp is malformed.
    let bad = Trade { id: 6, executed_at: None, order_id: None, ..good.clone() };

    let failures = p.load_active_trades(&vec![good, bad], 20);
    assert!(p.trades.contains(5));
    assert!(!p.trades.contains(6));
    assert_eq!(failures.len(), 1);
    assert_eq!(failures[0].0, 6);
    assert!(matches!(failures[0].1, ApiError::Validation(_)));
}
