//! The background coordinator: the composition root of the subsystem.
//!
//! It owns the active-strategy table, the monitor, the scheduler and
//! the trade processor, and fans registration and removal out to them.
//! Registration is idempotent: a strategy already known keeps its one
//! budget entry and its one monitoring status. Removal force-closes the
//! strategy's open trades before its budget entry is dropped.

use vstd::prelude::*;
use std::collections::HashMap;
use crate::errors::ApiError;
use crate::ledger::StrategyBudget;
use crate::monitor::{MonitoringStatus, StrategyMonitor, MAX_TIMESTAMP};
use crate::processor::TradeProcessor;
use crate::scheduler::TaskScheduler;
use crate::strategy::Strategy;

verus! {

broadcast use vstd::std_specs::hash::group_hash_axioms;

/// Registration that keeps the first entry: the map unchanged when the
/// key is present, the entry added when it is not. Both the budget
/// ledger and the monitor register strategies this way.
pub open spec fn register_once<V>(m: Map<u64, V>, id: u64, v: V) -> Map<u64, V> {
    if m.contains_key(id) {
        m
    } else {
        m.insert(id, v)
    }
}

/// Idempotent registration: registering the same id a second time — at
/// any later time and with any entry — changes nothing, so a strategy
/// registered twice has exactly one budget entry and one monitoring
/// status. `add_strategy` registers both tables through
/// [`register_once`], which this law is about.
pub proof fn lemma_register_once_idempotent<V>(m: Map<u64, V>, id: u64, v1: V, v2: V)
    ensures
        register_once(register_once(m, id, v1), id, v2) == register_once(m, id, v1),
{
}

/// The composition root: the active strategies and the three engines.
pub struct BackgroundProcessor {
    pub active_strategies: HashMap<u64, Strategy>,
    pub monitor: StrategyMonitor,
    pub scheduler: TaskScheduler,
    pub trade_processor: TradeProcessor,
}

impl BackgroundProcessor {
    /// Every component is well formed and every strategy is stored
    /// under its own id.
    pub open spec fn wf(&self) -> bool {
        &&& self.monitor.wf()
        &&& self.scheduler.wf()
        &&& self.trade_processor.wf()
        &&& forall|id: u64|
            self.active_strategies@.contains_key(id)
                ==> (#[trigger] self.active_strategies@[id]).id == id
    }

    /// A stopped coordinator with no strategies.
    pub fn new() -> (r: Self)
        ensures
            r.wf(),
            r.active_strategies@ == Map::<u64, Strategy>::empty(),
            r.monitor@ == Map::<u64, MonitoringStatus>::empty(),
            !r.monitor.running(),
            !r.scheduler.running(),
            !r.trade_processor.is_running,
    {
        BackgroundProcessor {
            active_strategies: HashMap::new(),
            monitor: StrategyMonitor::new(),
            scheduler: TaskScheduler::new(),
            trade_processor: TradeProcessor::new(),
        }
    }

    /// Starts the monitor, the scheduler and the trade processor, in
    /// that order. No strategy is loaded eagerly: they arrive through
    /// `add_strategy` once a caller has selected them.
    pub fn start(&mut self) -> (r: Result<(), ApiError>)
        requires
            old(self).wf(),
        ensures
            final(self).wf(),
            r is Ok,
            final(self).monitor.running(),
            final(self).scheduler.running(),
            final(self).trade_processor.is_running,
            final(self).active_strategies@ == old(self).active_strategies@,
            final(self).monitor@ == old(self).monitor@,
            final(self).scheduler@ == old(self).scheduler@,
            final(self).trade_processor.trades@ == old(self).trade_processor.trades@,
            final(self).trade_processor.ledger@ == old(self).trade_processor.ledger@,
    {
        self.monitor.start();
        self.scheduler.start();
        self.trade_processor.start();
        Ok(())
    }

    /// Stops the scheduler, the monitor and the trade processor, in
    /// that order — the reverse of `start`. Stopping the scheduler
    /// clears every in-flight tick's running mark, so no new tick is
    /// honored afterwards.
    pub fn stop(&mut self) -> (r: Result<(), ApiError>)
        requires
            old(self).wf(),
        ensures
            final(self).wf(),
            r is Ok,
            !final(self).monitor.running(),
            !final(self).scheduler.running(),
            !final(self).trade_processor.is_running,
            final(self).active_strategies@ == old(self).active_strategies@,
            final(self).monitor@ == old(self).monitor@,
            final(self).trade_processor.trades@ == old(self).trade_processor.trades@,
            final(self).trade_processor.ledger@ == old(self).trade_processor.ledger@,
    {
        self.scheduler.stop();
        self.monitor.stop();
        self.trade_processor.stop();
        Ok(())
    }

    /// Registers a strategy for background processing: records it as
    /// active, starts watching it and seeds its budget entry. Both the
    /// monitoring status and the budget entry are registered through
    /// [`register_once`], so repeated calls with the same id keep
    /// exactly one entry in each table.
    pub fn add_strategy(&mut self, strategy: Strategy, now: i64) -> (r: Result<(), ApiError>)
        requires
            old(self).wf(),
            0 <= now <= MAX_TIMESTAMP,
        ensures
            final(self).wf(),
            !strategy.wf() ==> (r matches Err(e) && e is Validation) && final(self).active_strategies@ == old(self).active_strategies@ && final(self).monitor@ == old(self).monitor@ && final(self).trade_processor.ledger@ == old(self).trade_processor.ledger@,
            strategy.wf() ==> r is Ok && final(self).active_strategies@ == old(self).active_strategies@.insert(strategy.id, strategy) && final(self).monitor@
                == register_once(
                old(self).monitor@,
                strategy.id,
                final(self).monitor@[strategy.id],
            ) && final(self).trade_processor.ledger@ == register_once(
                old(self).trade_processor.ledger@,
                strategy.id,
                StrategyBudget {
                    strategy_id: strategy.id,
                    total: strategy.budget,
                    allocated: 0,
                    available: strategy.budget,
                    max_position_size: strategy.strategy_config.max_position_size,
                    last_updated: now,
                },
            ),
            strategy.wf() && !old(self).monitor@.contains_key(strategy.id) ==> ({
                let st = final(self).monitor@[strategy.id];
                &&& st.strategy_id == strategy.id
                &&& st.status@ == "active"@
                &&& st.last_check == now
                &&& st.next_check == now + crate::monitor::CHECK_INTERVAL_MS
                &&& st.error_count == 0
                &&& st.last_error is None
                &&& st.metadata is None
                &&& st.created_at == now
                &&& st.updated_at == now
            }),
            final(self).trade_processor.trades@ == old(self).trade_processor.trades@,
            final(self).scheduler@ == old(self).scheduler@,
    {
        if strategy.budget < 0 || strategy.strategy_config.max_position_size < 0 {
            return Err(
                ApiError::Validation("strategy capital must not be negative".to_owned()),
            );
        }
        match self.monitor.add_strategy(&strategy, now) {
            Ok(()) => {},
            Err(e) => {
                return Err(e);
            },
        }
        match self.trade_processor.initialize_strategy(&strategy, now) {
            Ok(()) => {},
            Err(e) => {
                return Err(e);
            },
        }
        let id = strategy.id;
        self.active_strategies.insert(id, strategy);
        Ok(())
    }

    /// Removes a strategy from background processing: forgets it,
    /// stops watching it, force-closes its open trades and then drops
    /// its budget entry. Per-trade close failures are returned, not
    /// raised: removal itself goes through, and repeating it changes
    /// nothing more.
    pub fn remove_strategy(
        &mut self,
        strategy_id: u64,
        live_prices: &Vec<(u64, i64)>,
        now: i64,
    ) -> (failures: Vec<(u64, ApiError)>)
        requires
            old(self).wf(),
        ensures
            final(self).wf(),
            final(self).active_strategies@ == old(self).active_strategies@.remove(strategy_id),
            final(self).monitor@ == old(self).monitor@.remove(strategy_id),
            !final(self).trade_processor.ledger@.contains_key(strategy_id),
            forall|id: u64|
                old(self).trade_processor.trades@.contains_key(id) && old(self).trade_processor.trades@[id].strategy_id == strategy_id && old(self).trade_processor.trades@[id].status is Open ==> ((#[trigger] final(self).trade_processor.trades@[id]).status is Closed || exists|k: int|
                    0 <= k < failures@.len() && failures@[k].0 == id),
            forall|id: u64|
                old(self).trade_processor.trades@.contains_key(id) && !(old(self).trade_processor.trades@[id].strategy_id == strategy_id && old(self).trade_processor.trades@[id].status is Open) ==> final(self).trade_processor.trades@[id] == old(self).trade_processor.trades@[id],
            ({
                let open_ids = crate::lifecycle::spec_open_ids(
                    old(self).trade_processor.trades.ids_view(),
                    old(self).trade_processor.trades@,
                    strategy_id,
                );
                let pass = crate::processor::spec_cleanup_pass(
                    old(self).trade_processor.trades@,
                    old(self).trade_processor.ledger@,
                    open_ids,
                    live_prices@,
                    now,
                );
                &&& final(self).trade_processor.trades@ == pass.0
                &&& final(self).trade_processor.ledger@ == pass.1.remove(strategy_id)
                &&& failures@.len() == pass.2.len()
                &&& forall|k: int|
                    0 <= k < failures@.len() ==> (#[trigger] failures@[k]).0 == pass.2[k] && (
                    failures@[k].1 is Validation || failures@[k].1 is NotFound || failures@[k].1
                        is Internal)
            }),
    {
        self.active_strategies.remove(&strategy_id);
        let _removed = self.monitor.remove_strategy(strategy_id);
        self.trade_processor.cleanup_strategy(strategy_id, live_prices, now)
    }

    /// The monitoring status of one strategy, safe to read while
    /// evaluation goes on.
    pub fn get_strategy_status(&self, strategy_id: u64) -> (r: Option<&MonitoringStatus>)
        ensures
            match r {
                Some(st) => self.monitor@.contains_key(strategy_id) && *st
                    == self.monitor@[strategy_id],
                None => !self.monitor@.contains_key(strategy_id),
            },
    {
        self.monitor.get_strategy_status(strategy_id)
    }

    /// All monitoring statuses, keyed by strategy id.
    pub fn get_all_strategy_statuses(&self) -> (r: &HashMap<u64, MonitoringStatus>)
        ensures
            r@ == self.monitor@,
    {
        self.monitor.get_all_statuses()
    }
}

} // verus!
