//! The trade model and its lifecycle state machine.
//!
//! A trade moves from `Pending` through `Open` to `Closed`, one step at
//! a time and never backwards. `exit_price`, `profit` and `closed_at`
//! are set exactly on closed trades; `executed_at` and `order_id`
//! exactly on open or closed ones. Each trade remembers the quote
//! capital reserved for it at creation (`cost`), which its close
//! returns to the strategy's budget together with the realized profit.

use vstd::prelude::*;
use crate::money::{cost_of, valid_amount, valid_price};

verus! {

/// The direction of a trade.
#[derive(Clone, Copy, Debug, PartialEq, Eq, Structural)]
pub enum Side {
    Buy,
    Sell,
}

/// The lifecycle state of a trade.
#[derive(Clone, Copy, Debug, PartialEq, Eq, Structural)]
pub enum TradeStatus {
    Pending,
    Open,
    Closed,
}

/// The market a trade or strategy works on.
#[derive(Clone, Copy, Debug, PartialEq, Eq, Structural)]
pub enum MarketType {
    Spot,
    Futures,
}

/// The market a trade belongs to when none is named.
pub fn default_market_type() -> (r: MarketType)
    ensures
        r == MarketType::Spot,
{
    MarketType::Spot
}

/// How far along the lifecycle a status is. Every permitted transition
/// raises it by exactly one, so the statuses a trade passes through
/// form a prefix-contiguous subsequence of pending, open, closed.
pub open spec fn status_rank(s: TradeStatus) -> int {
    match s {
        TradeStatus::Pending => 0,
        TradeStatus::Open => 1,
        TradeStatus::Closed => 2,
    }
}

/// One buy or sell position, generated by a strategy or attached to it.
/// Amounts are in asset sub-units, prices and capital in quote minor
/// units, timestamps in milliseconds.
#[derive(Debug)]
pub struct Trade {
    pub id: u64,
    pub strategy_id: u64,
    pub user_id: u64,
    pub symbol: String,
    pub side: Side,
    pub status: TradeStatus,
    pub amount: i64,
    /// The requested price while pending; the resolved fill price once
    /// executed.
    pub entry_price: Option<i64>,
    pub exit_price: Option<i64>,
    pub profit: Option<i64>,
    /// The quote capital reserved for this trade at creation.
    pub cost: i64,
    pub stop_loss: Option<i64>,
    pub take_profit: Option<i64>,
    pub trailing_stop: Option<i64>,
    pub leverage: Option<i64>,
    pub market_type: MarketType,
    pub order_id: Option<u64>,
    pub created_at: i64,
    pub executed_at: Option<i64>,
    pub closed_at: Option<i64>,
    /// Opaque passthrough, e.g. the confidence and source recorded by
    /// the signal provider.
    pub metadata: String,
}

impl Trade {
    /// The structural invariant of a trade under lifecycle management.
    pub open spec fn wf(self) -> bool {
        &&& valid_amount(self.amount as int)
        &&& self.entry_price matches Some(p) && valid_price(p as int)
        &&& (self.status is Closed <==> self.exit_price is Some)
        &&& (self.status is Closed <==> self.profit is Some)
        &&& (self.status is Closed <==> self.closed_at is Some)
        &&& (!(self.status is Pending) <==> self.executed_at is Some)
        &&& (!(self.status is Pending) <==> self.order_id is Some)
        &&& 0 <= self.cost <= 10_000_000_000_000_000
        &&& (self.profit matches Some(p) ==> -10_000_000_000_000_000 <= p
            <= 10_000_000_000_000_000)
    }
}

impl Clone for Trade {
    /// An exact copy.
    fn clone(&self) -> (res: Self)
        ensures
            res == *self,
    {
        Trade {
            id: self.id,
            strategy_id: self.strategy_id,
            user_id: self.user_id,
            symbol: self.symbol.clone(),
            side: self.side,
            status: self.status,
            amount: self.amount,
            entry_price: self.entry_price,
            exit_price: self.exit_price,
            profit: self.profit,
            cost: self.cost,
            stop_loss: self.stop_loss,
            take_profit: self.take_profit,
            trailing_stop: self.trailing_stop,
            leverage: self.leverage,
            market_type: self.market_type,
            order_id: self.order_id,
            created_at: self.created_at,
            executed_at: self.executed_at,
            closed_at: self.closed_at,
            metadata: self.metadata.clone(),
        }
    }
}

/// The realized profit of a trade of `amount` entered at `entry` and
/// left at `exit`: the difference between the trade's value at exit and
/// at entry, signed by the side.
pub open spec fn profit_of(side: Side, amount: int, entry: int, exit: int) -> int {
    match side {
        Side::Buy => cost_of(amount, exit) - cost_of(amount, entry),
        Side::Sell => cost_of(amount, entry) - cost_of(amount, exit),
    }
}

/// Computes the realized profit of a closing trade.
pub fn trade_profit(side: Side, amount: i64, entry: i64, exit: i64) -> (p: i64)
    requires
        valid_amount(amount as int),
        valid_price(entry as int),
        valid_price(exit as int),
    ensures
        p == profit_of(side, amount as int, entry as int, exit as int),
        -10_000_000_000_000_000 <= p <= 10_000_000_000_000_000,
{
    let entry_value = crate::money::trade_cost(amount, entry);
    let exit_value = crate::money::trade_cost(amount, exit);
    match side {
        Side::Buy => exit_value - entry_value,
        Side::Sell => entry_value - exit_value,
    }
}

/// The trade as `execute` leaves it: open, entered at the resolved
/// fill price, with its order id and execution time recorded.
pub open spec fn spec_executed(t: Trade, fill: i64, order_id: u64, now: i64) -> Trade {
    Trade {
        status: TradeStatus::Open,
        entry_price: Some(fill),
        executed_at: Some(now),
        order_id: Some(order_id),
        ..t
    }
}

/// The trade as `close` leaves it: closed, with its exit price, its
/// realized profit and its close time recorded.
pub open spec fn spec_closed(t: Trade, exit: i64, profit: i64, now: i64) -> Trade {
    Trade {
        status: TradeStatus::Closed,
        exit_price: Some(exit),
        profit: Some(profit),
        closed_at: Some(now),
        ..t
    }
}

/// One lifecycle transition requested of a trade.
pub enum TradeOp {
    Execute { fill: i64, order_id: u64, now: i64 },
    Close { exit: i64, now: i64 },
}

/// Whether the transition is legal on the trade's current status: a
/// trade is executed only while pending and closed only while open.
/// No transition skips a state.
pub open spec fn trade_op_admitted(t: Trade, op: TradeOp) -> bool {
    match op {
        TradeOp::Execute { .. } => t.status is Pending,
        TradeOp::Close { .. } => t.status is Open,
    }
}

/// The trade after an admitted transition.
pub open spec fn apply_trade_op(t: Trade, op: TradeOp) -> Trade {
    match op {
        TradeOp::Execute { fill, order_id, now } => spec_executed(t, fill, order_id, now),
        TradeOp::Close { exit, now } => spec_closed(
            t,
            exit,
            profit_of(t.side, t.amount as int, t.entry_price->0 as int, exit as int) as i64,
            now,
        ),
    }
}

/// The trade after a sequence of transitions, applied left to right.
pub open spec fn apply_trade_ops(t: Trade, ops: Seq<TradeOp>) -> Trade
    decreases ops.len(),
{
    if ops.len() == 0 {
        t
    } else {
        apply_trade_ops(apply_trade_op(t, ops[0]), ops.skip(1))
    }
}

/// Whether every transition of the sequence is legal on the trade it
/// meets.
pub open spec fn trade_ops_admitted(t: Trade, ops: Seq<TradeOp>) -> bool
    decreases ops.len(),
{
    ops.len() == 0 || (trade_op_admitted(t, ops[0]) && trade_ops_admitted(
        apply_trade_op(t, ops[0]),
        ops.skip(1),
    ))
}

/// Lifecycle monotonicity: every admitted transition advances a trade's
/// status by exactly one step, so across any admitted sequence the
/// statuses a trade passes through are consecutive and never repeat or
/// go back — a subsequence of pending, open, closed — and no trade
/// takes more than two transitions in its life.
pub proof fn lemma_lifecycle_monotonic(t: Trade, ops: Seq<TradeOp>)
    requires
        trade_ops_admitted(t, ops),
    ensures
        status_rank(apply_trade_ops(t, ops).status) == status_rank(t.status) + ops.len(),
        status_rank(t.status) + ops.len() <= 2,
    decreases ops.len(),
{
    if ops.len() > 0 {
        lemma_lifecycle_monotonic(apply_trade_op(t, ops[0]), ops.skip(1));
    }
}

/// Whether an open trade's close conditions are crossed at `price`:
/// its stop loss or take profit level is reached, or the adverse move
/// from its entry price meets its trailing-stop distance.
pub open spec fn close_condition(
    side: Side,
    entry: int,
    stop_loss: Option<i64>,
    take_profit: Option<i64>,
    trailing_stop: Option<i64>,
    price: int,
) -> bool {
    match side {
        Side::Buy => {
            ||| stop_loss matches Some(sl) && price <= sl
            ||| take_profit matches Some(tp) && price >= tp
            ||| trailing_stop matches Some(ts) && entry - price >= ts
        },
        Side::Sell => {
            ||| stop_loss matches Some(sl) && price >= sl
            ||| take_profit matches Some(tp) && price <= tp
            ||| trailing_stop matches Some(ts) && price - entry >= ts
        },
    }
}

/// Evaluates the close-condition predicate of a trade at the latest
/// `price`. Only open trades are asked; an open trade always carries
/// its resolved entry price.
pub fn should_close_trade(trade: &Trade, price: i64) -> (r: bool)
    requires
        trade.wf(),
        trade.status is Open,
    ensures
        r == close_condition(
            trade.side,
            trade.entry_price->0 as int,
            trade.stop_loss,
            trade.take_profit,
            trade.trailing_stop,
            price as int,
        ),
{
    let entry = match trade.entry_price {
        Some(p) => p,
        None => {
            proof {
                assert(false);
            }
            0
        },
    };
    let sl_hit = match trade.stop_loss {
        Some(sl) => match trade.side {
            Side::Buy => price <= sl,
            Side::Sell => price >= sl,
        },
        None => false,
    };
    let tp_hit = match trade.take_profit {
        Some(tp) => match trade.side {
            Side::Buy => price >= tp,
            Side::Sell => price <= tp,
        },
        None => false,
    };
    let ts_hit = match trade.trailing_stop {
        Some(ts) => {
            let adverse: i128 = match trade.side {
                Side::Buy => (entry as i128) - (price as i128),
                Side::Sell => (price as i128) - (entry as i128),
            };
            adverse >= (ts as i128)
        },
        None => false,
    };
    sl_hit || tp_hit || ts_hit
}

} // verus!
