//! The strategy monitor: one health snapshot per watched strategy,
//! refreshed on every evaluation cycle.
//!
//! An evaluation computes performance and risk metrics from the
//! strategy's own trade history, labels the market conditions from the
//! collaborator's market snapshot, replaces the stored metadata
//! wholesale, and always advances the check timestamps — an evaluation
//! is observable from outside whatever its outcome.

use vstd::prelude::*;
use std::collections::HashMap;
use crate::errors::ApiError;
use crate::ids::fresh_id;
use crate::strategy::Strategy;
use crate::trade::{Trade, TradeStatus};

verus! {

broadcast use vstd::std_specs::hash::group_hash_axioms;

/// How long after a check the next one is due, in milliseconds: one
/// minute.
pub const CHECK_INTERVAL_MS: i64 = 60_000;

/// The latest timestamp the monitor accepts, a machine limit that keeps
/// `now + CHECK_INTERVAL_MS` representable.
pub const MAX_TIMESTAMP: i64 = 4_000_000_000_000_000;

/// The market-conditions label an evaluation derives from the
/// collaborator's snapshot.
#[derive(Clone, Copy, Debug, PartialEq, Eq, Structural)]
pub enum MarketConditions {
    Volatile,
    Bullish,
    Bearish,
    Neutral,
}

/// The overall health label an evaluation derives from the metrics.
#[derive(Clone, Copy, Debug, PartialEq, Eq, Structural)]
pub enum StrategyHealth {
    Healthy,
    Degraded,
}

/// Volatility at or above this level, in basis points, makes the
/// market label `Volatile`.
pub const HIGH_VOLATILITY_BP: i64 = 500;

/// The market-conditions snapshot the market-data collaborator hands
/// in: aggregate volatility, trend and volume change, in basis points.
#[derive(Clone, Copy, Debug, PartialEq, Eq, Structural)]
pub struct MarketSnapshot {
    pub timestamp: i64,
    pub volatility_bp: i64,
    pub trend_bp: i64,
    pub volume_change_bp: i64,
}

/// Performance of one strategy, computed from its closed trades.
#[derive(Clone, Copy, Debug, PartialEq, Eq, Structural)]
pub struct PerformanceMetrics {
    pub total_trades: u64,
    pub winning_trades: u64,
    pub losing_trades: u64,
    /// Sum of realized profits, in quote minor units.
    pub profit_loss: i128,
}

/// Exposure of one strategy, computed from its pending and open trades.
#[derive(Clone, Copy, Debug, PartialEq, Eq, Structural)]
pub struct RiskMetrics {
    /// Capital locked in non-terminal trades, in quote minor units.
    pub current_exposure: i128,
    pub open_positions: u64,
}

/// One evaluation's result: the labels and metrics of a single cycle,
/// replaced wholesale on the next one.
#[derive(Clone, Copy, Debug, PartialEq, Eq, Structural)]
pub struct EvaluationSnapshot {
    pub timestamp: i64,
    pub market_conditions: MarketConditions,
    pub strategy_health: StrategyHealth,
    pub performance: PerformanceMetrics,
    pub risk: RiskMetrics,
}

/// The monitor's record for one strategy: a status label, the check
/// timestamps, an error counter and the latest evaluation snapshot.
#[derive(Debug)]
pub struct MonitoringStatus {
    pub id: u64,
    pub strategy_id: u64,
    pub status: String,
    pub last_check: i64,
    pub next_check: i64,
    pub error_count: u64,
    pub last_error: Option<String>,
    pub metadata: Option<EvaluationSnapshot>,
    pub created_at: i64,
    pub updated_at: i64,
}

impl Clone for MonitoringStatus {
    /// An exact copy.
    fn clone(&self) -> (res: Self)
        ensures
            res == *self,
    {
        MonitoringStatus {
            id: self.id,
            strategy_id: self.strategy_id,
            status: self.status.clone(),
            last_check: self.last_check,
            next_check: self.next_check,
            error_count: self.error_count,
            last_error: match &self.last_error {
                Some(e) => Some(e.clone()),
                None => None,
            },
            metadata: self.metadata,
            created_at: self.created_at,
            updated_at: self.updated_at,
        }
    }
}

/// How many trades of the strategy in the first `n` entries are closed.
pub open spec fn spec_closed_count(trades: Seq<Trade>, strategy_id: u64, n: int) -> int
    decreases n,
{
    if n <= 0 {
        0
    } else {
        spec_closed_count(trades, strategy_id, n - 1) + if trades[n - 1].strategy_id
            == strategy_id && trades[n - 1].status is Closed {
            1int
        } else {
            0int
        }
    }
}

/// How many closed trades of the strategy in the first `n` entries won.
pub open spec fn spec_winning_count(trades: Seq<Trade>, strategy_id: u64, n: int) -> int
    decreases n,
{
    if n <= 0 {
        0
    } else {
        spec_winning_count(trades, strategy_id, n - 1) + if trades[n - 1].strategy_id
            == strategy_id && trades[n - 1].status is Closed && trades[n - 1].profit->0 > 0 {
            1int
        } else {
            0int
        }
    }
}

/// How many closed trades of the strategy in the first `n` entries
/// lost.
pub open spec fn spec_losing_count(trades: Seq<Trade>, strategy_id: u64, n: int) -> int
    decreases n,
{
    if n <= 0 {
        0
    } else {
        spec_losing_count(trades, strategy_id, n - 1) + if trades[n - 1].strategy_id
            == strategy_id && trades[n - 1].status is Closed && trades[n - 1].profit->0 < 0 {
            1int
        } else {
            0int
        }
    }
}

/// The realized profit of the strategy's closed trades among the first
/// `n` entries.
pub open spec fn spec_profit_total(trades: Seq<Trade>, strategy_id: u64, n: int) -> int
    decreases n,
{
    if n <= 0 {
        0
    } else {
        spec_profit_total(trades, strategy_id, n - 1) + if trades[n - 1].strategy_id == strategy_id
            && trades[n - 1].status is Closed {
            trades[n - 1].profit->0 as int
        } else {
            0int
        }
    }
}

/// The capital locked in the strategy's pending and open trades among
/// the first `n` entries.
pub open spec fn spec_exposure_total(trades: Seq<Trade>, strategy_id: u64, n: int) -> int
    decreases n,
{
    if n <= 0 {
        0
    } else {
        spec_exposure_total(trades, strategy_id, n - 1) + if trades[n - 1].strategy_id
            == strategy_id && !(trades[n - 1].status is Closed) {
            trades[n - 1].cost as int
        } else {
            0int
        }
    }
}

/// How many of the strategy's trades among the first `n` entries are
/// open.
pub open spec fn spec_open_count(trades: Seq<Trade>, strategy_id: u64, n: int) -> int
    decreases n,
{
    if n <= 0 {
        0
    } else {
        spec_open_count(trades, strategy_id, n - 1) + if trades[n - 1].strategy_id == strategy_id
            && trades[n - 1].status is Open {
            1int
        } else {
            0int
        }
    }
}

/// The market label an evaluation gives the snapshot: volatile above
/// the volatility threshold, else by the sign of the trend.
pub open spec fn spec_market_conditions(s: MarketSnapshot) -> MarketConditions {
    if s.volatility_bp >= HIGH_VOLATILITY_BP {
        MarketConditions::Volatile
    } else if s.trend_bp > 0 {
        MarketConditions::Bullish
    } else if s.trend_bp < 0 {
        MarketConditions::Bearish
    } else {
        MarketConditions::Neutral
    }
}

/// The health label an evaluation gives the metrics: degraded when the
/// strategy has lost more trades than it has won, healthy otherwise.
pub open spec fn spec_strategy_health(p: PerformanceMetrics) -> StrategyHealth {
    if p.losing_trades > p.winning_trades {
        StrategyHealth::Degraded
    } else {
        StrategyHealth::Healthy
    }
}

/// Labels the market conditions of a snapshot.
pub fn assess_market_conditions(s: &MarketSnapshot) -> (r: MarketConditions)
    ensures
        r == spec_market_conditions(*s),
{
    if s.volatility_bp >= HIGH_VOLATILITY_BP {
        MarketConditions::Volatile
    } else if s.trend_bp > 0 {
        MarketConditions::Bullish
    } else if s.trend_bp < 0 {
        MarketConditions::Bearish
    } else {
        MarketConditions::Neutral
    }
}

/// Labels the health of a strategy from its performance.
pub fn assess_strategy_health(p: &PerformanceMetrics) -> (r: StrategyHealth)
    ensures
        r == spec_strategy_health(*p),
{
    if p.losing_trades > p.winning_trades {
        StrategyHealth::Degraded
    } else {
        StrategyHealth::Healthy
    }
}

/// Computes the performance metrics of a strategy from a trade
/// history whose entries are well formed.
pub fn calculate_performance_metrics(trades: &Vec<Trade>, strategy_id: u64) -> (r:
    PerformanceMetrics)
    requires
        forall|i: int| 0 <= i < trades@.len() ==> (#[trigger] trades@[i]).wf(),
    ensures
        r.total_trades == spec_closed_count(trades@, strategy_id, trades@.len() as int),
        r.winning_trades == spec_winning_count(trades@, strategy_id, trades@.len() as int),
        r.losing_trades == spec_losing_count(trades@, strategy_id, trades@.len() as int),
        r.profit_loss == spec_profit_total(trades@, strategy_id, trades@.len() as int),
{
    let mut total: u64 = 0;
    let mut winning: u64 = 0;
    let mut losing: u64 = 0;
    let mut profit_loss: i128 = 0;
    let mut i: usize = 0;
    while i < trades.len()
        invariant
            i <= trades@.len(),
            forall|k: int| 0 <= k < trades@.len() ==> (#[trigger] trades@[k]).wf(),
            total == spec_closed_count(trades@, strategy_id, i as int),
            winning == spec_winning_count(trades@, strategy_id, i as int),
            losing == spec_losing_count(trades@, strategy_id, i as int),
            profit_loss == spec_profit_total(trades@, strategy_id, i as int),
            total <= i,
            winning <= i,
            losing <= i,
            -10_000_000_000_000_000 * (i as int) <= profit_loss <= 10_000_000_000_000_000 * (
            i as int),
        decreases trades@.len() - i,
    {
        let t = &trades[i];
        if t.strategy_id == strategy_id && matches!(t.status, TradeStatus::Closed) {
            total = total + 1;
            let p = match t.profit {
                Some(p) => p,
                None => {
                    proof {
                        assert(false);
                    }
                    0
                },
            };
            if p > 0 {
                winning = winning + 1;
            } else if p < 0 {
                losing = losing + 1;
            }
            profit_loss = profit_loss + (p as i128);
        }
        proof {
            assert(-10_000_000_000_000_000 * ((i as int) + 1) <= profit_loss
                <= 10_000_000_000_000_000 * ((i as int) + 1)) by (nonlinear_arith)
                requires
                    -10_000_000_000_000_000 * (i as int) - 10_000_000_000_000_000 <= profit_loss
                        <= 10_000_000_000_000_000 * (i as int) + 10_000_000_000_000_000,
            ;
        }
        i = i + 1;
    }
    PerformanceMetrics { total_trades: total, winning_trades: winning, losing_trades: losing, profit_loss }
}

/// Computes the risk metrics of a strategy from a trade history whose
/// entries are well formed.
pub fn calculate_risk_metrics(trades: &Vec<Trade>, strategy_id: u64) -> (r: RiskMetrics)
    requires
        forall|i: int| 0 <= i < trades@.len() ==> (#[trigger] trades@[i]).wf(),
    ensures
        r.current_exposure == spec_exposure_total(trades@, strategy_id, trades@.len() as int),
        r.open_positions == spec_open_count(trades@, strategy_id, trades@.len() as int),
{
    let mut exposure: i128 = 0;
    let mut open: u64 = 0;
    let mut i: usize = 0;
    while i < trades.len()
        invariant
            i <= trades@.len(),
            forall|k: int| 0 <= k < trades@.len() ==> (#[trigger] trades@[k]).wf(),
            exposure == spec_exposure_total(trades@, strategy_id, i as int),
            open == spec_open_count(trades@, strategy_id, i as int),
            open <= i,
            0 <= exposure <= 10_000_000_000_000_000 * (i as int),
        decreases trades@.len() - i,
    {
        let t = &trades[i];
        if t.strategy_id == strategy_id {
            if !matches!(t.status, TradeStatus::Closed) {
                exposure = exposure + (t.cost as i128);
            }
            if matches!(t.status, TradeStatus::Open) {
                open = open + 1;
            }
        }
        proof {
            assert(0 <= exposure <= 10_000_000_000_000_000 * ((i as int) + 1)) by (nonlinear_arith)
                requires
                    0 <= exposure <= 10_000_000_000_000_000 * (i as int) + 10_000_000_000_000_000,
            ;
        }
        i = i + 1;
    }
    RiskMetrics { current_exposure: exposure, open_positions: open }
}

/// The evaluation an evaluation cycle records for a strategy: the
/// labels and metrics computed from the snapshot and the trade history.
pub open spec fn spec_evaluation(
    snapshot: MarketSnapshot,
    trades: Seq<Trade>,
    strategy_id: u64,
    now: i64,
) -> EvaluationSnapshot {
    let perf = PerformanceMetrics {
        total_trades: spec_closed_count(trades, strategy_id, trades.len() as int) as u64,
        winning_trades: spec_winning_count(trades, strategy_id, trades.len() as int) as u64,
        losing_trades: spec_losing_count(trades, strategy_id, trades.len() as int) as u64,
        profit_loss: spec_profit_total(trades, strategy_id, trades.len() as int) as i128,
    };
    EvaluationSnapshot {
        timestamp: now,
        market_conditions: spec_market_conditions(snapshot),
        strategy_health: spec_strategy_health(perf),
        performance: perf,
        risk: RiskMetrics {
            current_exposure: spec_exposure_total(trades, strategy_id, trades.len() as int) as i128,
            open_positions: spec_open_count(trades, strategy_id, trades.len() as int) as u64,
        },
    }
}

/// The monitor: one status per watched strategy and a running flag.
pub struct StrategyMonitor {
    statuses: HashMap<u64, MonitoringStatus>,
    is_running: bool,
}

impl StrategyMonitor {
    /// The statuses as a map from strategy id to record.
    pub closed spec fn view(&self) -> Map<u64, MonitoringStatus> {
        self.statuses@
    }

    /// Whether the monitor is running.
    pub closed spec fn running(&self) -> bool {
        self.is_running
    }

    /// Each record is stored under its own strategy id.
    pub open spec fn wf(&self) -> bool {
        forall|id: u64| self@.contains_key(id) ==> (#[trigger] self@[id]).strategy_id == id
    }

    /// A stopped monitor with no statuses.
    pub fn new() -> (r: Self)
        ensures
            r@ == Map::<u64, MonitoringStatus>::empty(),
            !r.running(),
            r.wf(),
    {
        StrategyMonitor { statuses: HashMap::new(), is_running: false }
    }

    /// Marks the monitor running. Strategies are watched from the
    /// moment they are added; none is loaded eagerly.
    pub fn start(&mut self)
        requires
            old(self).wf(),
        ensures
            final(self).wf(),
            final(self).running(),
            final(self)@ == old(self)@,
    {
        self.is_running = true;
    }

    /// Marks the monitor stopped; the statuses stay readable.
    pub fn stop(&mut self)
        requires
            old(self).wf(),
        ensures
            final(self).wf(),
            !final(self).running(),
            final(self)@ == old(self)@,
    {
        self.is_running = false;
    }

    /// Starts watching a strategy: an initial active status with the
    /// next check due in one minute. Adding an already-watched strategy
    /// changes nothing, so repeated registration is idempotent.
    pub fn add_strategy(&mut self, strategy: &Strategy, now: i64) -> (r: Result<(), ApiError>)
        requires
            old(self).wf(),
            0 <= now <= MAX_TIMESTAMP,
        ensures
            final(self).wf(),
            final(self).running() == old(self).running(),
            r is Ok,
            old(self)@.contains_key(strategy.id) ==> final(self)@ == old(self)@,
            !old(self)@.contains_key(strategy.id) ==> final(self)@ == old(self)@.insert(
                strategy.id,
                final(self)@[strategy.id],
            ) && ({
                let st = final(self)@[strategy.id];
                &&& st.strategy_id == strategy.id
                &&& st.status@ == "active"@
                &&& st.last_check == now
                &&& st.next_check == now + CHECK_INTERVAL_MS
                &&& st.error_count == 0
                &&& st.last_error is None
                &&& st.metadata is None
                &&& st.created_at == now
                &&& st.updated_at == now
            }),
    {
        if self.statuses.contains_key(&strategy.id) {
            return Ok(());
        }
        let status = MonitoringStatus {
            id: fresh_id(),
            strategy_id: strategy.id,
            status: "active".to_owned(),
            last_check: now,
            next_check: now + CHECK_INTERVAL_MS,
            error_count: 0,
            last_error: None,
            metadata: None,
            created_at: now,
            updated_at: now,
        };
        self.statuses.insert(strategy.id, status);
        Ok(())
    }

    /// Stops watching a strategy; unknown ids are ignored, so removal
    /// is idempotent.
    pub fn remove_strategy(&mut self, strategy_id: u64) -> (r: Result<(), ApiError>)
        requires
            old(self).wf(),
        ensures
            final(self).wf(),
            final(self).running() == old(self).running(),
            r is Ok,
            final(self)@ == old(self)@.remove(strategy_id),
    {
        self.statuses.remove(&strategy_id);
        Ok(())
    }

    /// One evaluation cycle for a watched strategy: computes the
    /// metrics from its trade history, labels the snapshot, replaces
    /// the stored metadata wholesale, and always advances `last_check`
    /// and `next_check` — the cycle is observable whatever it found.
    /// Returns whether adaptation should be triggered; the initial
    /// policy never asks for it.
    pub fn evaluate_strategy(
        &mut self,
        strategy: &Strategy,
        snapshot: &MarketSnapshot,
        trades: &Vec<Trade>,
        now: i64,
    ) -> (adapt: bool)
        requires
            old(self).wf(),
            0 <= now <= MAX_TIMESTAMP,
            forall|i: int| 0 <= i < trades@.len() ==> (#[trigger] trades@[i]).wf(),
        ensures
            final(self).wf(),
            final(self).running() == old(self).running(),
            !adapt,
            !old(self)@.contains_key(strategy.id) ==> final(self)@ == old(self)@,
            old(self)@.contains_key(strategy.id) ==> final(self)@ == old(self)@.insert(
                strategy.id,
                MonitoringStatus {
                    last_check: now,
                    next_check: (now + CHECK_INTERVAL_MS) as i64,
                    metadata: Some(spec_evaluation(*snapshot, trades@, strategy.id, now)),
                    updated_at: now,
                    ..old(self)@[strategy.id]
                },
            ),
    {
        let current = match self.statuses.get(&strategy.id) {
            Some(st) => st.clone(),
            None => {
                return false;
            },
        };
        let performance = calculate_performance_metrics(trades, strategy.id);
        let risk = calculate_risk_metrics(trades, strategy.id);
        let evaluation = EvaluationSnapshot {
            timestamp: now,
            market_conditions: assess_market_conditions(snapshot),
            strategy_health: assess_strategy_health(&performance),
            performance,
            risk,
        };
        let updated = MonitoringStatus {
            last_check: now,
            next_check: now + CHECK_INTERVAL_MS,
            metadata: Some(evaluation),
            updated_at: now,
            ..current
        };
        self.statuses.insert(strategy.id, updated);
        self.should_adapt_strategy(strategy, &evaluation)
    }

    /// The adaptation policy: whether an evaluation should trigger a
    /// strategy adaptation. An explicit extension point; the initial
    /// policy never adapts.
    pub fn should_adapt_strategy(&self, _strategy: &Strategy, _evaluation: &EvaluationSnapshot) -> (
        r: bool)
        ensures
            !r,
    {
        false
    }

    /// The status of one watched strategy.
    pub fn get_strategy_status(&self, strategy_id: u64) -> (r: Option<&MonitoringStatus>)
        ensures
            match r {
                Some(st) => self@.contains_key(strategy_id) && *st == self@[strategy_id],
                None => !self@.contains_key(strategy_id),
            },
    {
        self.statuses.get(&strategy_id)
    }

    /// All statuses, keyed by strategy id.
    pub fn get_all_statuses(&self) -> (r: &HashMap<u64, MonitoringStatus>)
        ensures
            r@ == self@,
    {
        &self.statuses
    }
}

} // verus!
