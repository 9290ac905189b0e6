//! The budget ledger: per-strategy capital accounting.
//!
//! Each strategy has one [`StrategyBudget`] entry with `total` (initial
//! capital), `allocated` (capital locked in pending and open trades) and
//! `available` capital. Reserving moves capital from available to
//! allocated; releasing returns the original allocation plus or minus
//! the realized profit to available. A reservation above the available
//! capital is rejected, never clamped.

use vstd::prelude::*;
use std::collections::HashMap;
use crate::errors::ApiError;

verus! {

broadcast use vstd::std_specs::hash::group_hash_axioms;

/// Per-strategy capital: `total` as handed in at initialization,
/// `allocated` locked in pending and open trades, `available` free for
/// new trades, all in quote minor units.
#[derive(Debug, Clone, Copy, PartialEq, Eq, Structural)]
pub struct StrategyBudget {
    pub strategy_id: u64,
    pub total: i64,
    pub allocated: i64,
    pub available: i64,
    pub max_position_size: i64,
    pub last_updated: i64,
}

impl StrategyBudget {
    /// Allocated capital never goes negative, and the totals are sane.
    pub open spec fn wf(self) -> bool {
        &&& self.total >= 0
        &&& self.allocated >= 0
        &&& self.max_position_size >= 0
    }
}

/// The sum of capital a strategy's entry accounts for. Reservations
/// move capital between the two parts and keep the sum; only realized
/// profit or loss changes it.
pub open spec fn funds(b: StrategyBudget) -> int {
    b.available + b.allocated
}

/// One capital movement on a single strategy's entry, as the trade
/// lifecycle performs them: a trade's creation reserves its cost, its
/// close releases that cost adjusted by the realized profit.
pub enum LedgerOp {
    Reserve { amount: int, now: int },
    Release { cost: int, profit: int, now: int },
}

/// Whether `op` is accepted on `b`: a reservation within the available
/// capital, or a release within the allocated capital, with the new
/// quantities representable.
pub open spec fn op_admitted(b: StrategyBudget, op: LedgerOp) -> bool {
    match op {
        LedgerOp::Reserve { amount, now } => {
            &&& 0 <= amount <= b.available
            &&& b.allocated + amount <= i64::MAX
        },
        LedgerOp::Release { cost, profit, now } => {
            &&& 0 <= cost <= b.allocated
            &&& i64::MIN <= b.available + cost + profit <= i64::MAX
        },
    }
}

/// The entry after an admitted `op`.
pub open spec fn apply_op(b: StrategyBudget, op: LedgerOp) -> StrategyBudget {
    match op {
        LedgerOp::Reserve { amount, now } => StrategyBudget {
            allocated: (b.allocated + amount) as i64,
            available: (b.available - amount) as i64,
            last_updated: now as i64,
            ..b
        },
        LedgerOp::Release { cost, profit, now } => StrategyBudget {
            allocated: (b.allocated - cost) as i64,
            available: (b.available + cost + profit) as i64,
            last_updated: now as i64,
            ..b
        },
    }
}

/// The entry after a sequence of operations, applied left to right.
pub open spec fn apply_ops(b: StrategyBudget, ops: Seq<LedgerOp>) -> StrategyBudget
    decreases ops.len(),
{
    if ops.len() == 0 {
        b
    } else {
        apply_ops(apply_op(b, ops[0]), ops.skip(1))
    }
}

/// Whether every operation of the sequence is admitted on the entry it
/// meets.
pub open spec fn ops_admitted(b: StrategyBudget, ops: Seq<LedgerOp>) -> bool
    decreases ops.len(),
{
    ops.len() == 0 || (op_admitted(b, ops[0]) && ops_admitted(apply_op(b, ops[0]), ops.skip(1)))
}

/// The sum of realized profits carried by the releases of the sequence.
pub open spec fn profit_sum(ops: Seq<LedgerOp>) -> int
    decreases ops.len(),
{
    if ops.len() == 0 {
        0
    } else {
        (match ops[0] {
            LedgerOp::Reserve { .. } => 0,
            LedgerOp::Release { profit, .. } => profit,
        }) + profit_sum(ops.skip(1))
    }
}

/// Budget conservation: across any admitted sequence of reservations
/// and releases on a strategy's entry, the sum of available and
/// allocated capital changes by exactly the sum of the realized profits
/// carried by the releases. Trade creation, execution and close act on
/// the ledger only through such operations, so the law covers every
/// sequence of lifecycle transitions with no external rebalancing.
pub proof fn lemma_budget_conservation(b: StrategyBudget, ops: Seq<LedgerOp>)
    requires
        ops_admitted(b, ops),
    ensures
        funds(apply_ops(b, ops)) == funds(b) + profit_sum(ops),
    decreases ops.len(),
{
    if ops.len() > 0 {
        lemma_budget_conservation(apply_op(b, ops[0]), ops.skip(1));
    }
}

proof fn lemma_wf_insert(
    m1: Map<u64, StrategyBudget>,
    m2: Map<u64, StrategyBudget>,
    id: u64,
    b: StrategyBudget,
)
    requires
        forall|k: u64| m1.contains_key(k) ==> (#[trigger] m1[k]).wf() && m1[k].strategy_id == k,
        m2 == m1.insert(id, b),
        b.wf(),
        b.strategy_id == id,
    ensures
        forall|k: u64| m2.contains_key(k) ==> (#[trigger] m2[k]).wf() && m2[k].strategy_id == k,
{
    assert forall|k: u64| m2.contains_key(k) implies (#[trigger] m2[k]).wf() && m2[k].strategy_id
        == k by {
        if k != id {
            assert(m1.contains_key(k));
        }
    }
}

proof fn lemma_wf_remove(m1: Map<u64, StrategyBudget>, m2: Map<u64, StrategyBudget>, id: u64)
    requires
        forall|k: u64| m1.contains_key(k) ==> (#[trigger] m1[k]).wf() && m1[k].strategy_id == k,
        m2 == m1.remove(id),
    ensures
        forall|k: u64| m2.contains_key(k) ==> (#[trigger] m2[k]).wf() && m2[k].strategy_id == k,
{
    assert forall|k: u64| m2.contains_key(k) implies (#[trigger] m2[k]).wf() && m2[k].strategy_id
        == k by {
        assert(m1.contains_key(k));
    }
}

/// The per-strategy capital tracker: one entry per initialized
/// strategy, keyed by strategy id.
pub struct BudgetLedger {
    entries: HashMap<u64, StrategyBudget>,
}

impl BudgetLedger {
    /// The entries as a map from strategy id to budget entry.
    pub closed spec fn view(&self) -> Map<u64, StrategyBudget> {
        self.entries@
    }

    /// Every entry is well formed and stored under its own strategy id.
    pub open spec fn wf(&self) -> bool {
        forall|id: u64|
            self@.contains_key(id) ==> (#[trigger] self@[id]).wf() && self@[id].strategy_id == id
    }

    /// An empty ledger.
    pub fn new() -> (r: Self)
        ensures
            r@ == Map::<u64, StrategyBudget>::empty(),
            r.wf(),
    {
        BudgetLedger { entries: HashMap::new() }
    }

    /// Seeds the entry for a strategy with its initial capital, all of
    /// it available. Registering a strategy that already has an entry
    /// changes nothing, so repeated registration is idempotent.
    pub fn initialize(
        &mut self,
        strategy_id: u64,
        total: i64,
        max_position_size: i64,
        now: i64,
    ) -> (r: Result<(), ApiError>)
        requires
            old(self).wf(),
        ensures
            final(self).wf(),
            total < 0 || max_position_size < 0 ==> (r matches Err(e) && e is Validation)
                && final(self)@ == old(self)@,
            total >= 0 && max_position_size >= 0 && old(self)@.contains_key(strategy_id) ==> r
                is Ok && final(self)@ == old(self)@,
            total >= 0 && max_position_size >= 0 && !old(self)@.contains_key(strategy_id) ==> r
                is Ok && final(self)@ == old(self)@.insert(
                strategy_id,
                StrategyBudget {
                    strategy_id,
                    total,
                    allocated: 0,
                    available: total,
                    max_position_size,
                    last_updated: now,
                },
            ),
    {
        if total < 0 || max_position_size < 0 {
            return Err(ApiError::Validation("initial capital must not be negative".to_owned()));
        }
        if self.entries.contains_key(&strategy_id) {
            return Ok(());
        }
        let entry = StrategyBudget {
            strategy_id,
            total,
            allocated: 0,
            available: total,
            max_position_size,
            last_updated: now,
        };
        self.entries.insert(strategy_id, entry);
        proof {
            lemma_wf_insert(old(self)@, self@, strategy_id, entry);
        }
        Ok(())
    }

    /// Whether the strategy has an entry.
    pub fn contains(&self, strategy_id: u64) -> (r: bool)
        ensures
            r == self@.contains_key(strategy_id),
    {
        self.entries.contains_key(&strategy_id)
    }

    /// The available capital of the strategy, if it has an entry.
    pub fn get(&self, strategy_id: u64) -> (r: Option<i64>)
        ensures
            match r {
                Some(a) => self@.contains_key(strategy_id) && a == self@[strategy_id].available,
                None => !self@.contains_key(strategy_id),
            },
    {
        match self.entries.get(&strategy_id) {
            Some(entry) => Some(entry.available),
            None => None,
        }
    }

    /// The whole entry of the strategy, if it has one.
    pub fn get_budget(&self, strategy_id: u64) -> (r: Option<&StrategyBudget>)
        ensures
            match r {
                Some(b) => self@.contains_key(strategy_id) && *b == self@[strategy_id],
                None => !self@.contains_key(strategy_id),
            },
    {
        self.entries.get(&strategy_id)
    }

    /// Moves `amount` of the strategy's capital from available to
    /// allocated. Fails with `InsufficientBudget`, and moves nothing,
    /// whenever `amount` exceeds the available capital at call time.
    pub fn reserve(&mut self, strategy_id: u64, amount: i64, now: i64) -> (r: Result<
        (),
        ApiError,
    >)
        requires
            old(self).wf(),
        ensures
            final(self).wf(),
            !old(self)@.contains_key(strategy_id) ==> (r matches Err(e) && e is NotFound)
                && final(self)@ == old(self)@,
            old(self)@.contains_key(strategy_id) && amount < 0 ==> (r matches Err(e) && e
                is Validation) && final(self)@ == old(self)@,
            old(self)@.contains_key(strategy_id) && amount >= 0 && amount > old(
                self,
            )@[strategy_id].available ==> (r matches Err(e) && e is InsufficientBudget) && final(self)@
                == old(self)@,
            old(self)@.contains_key(strategy_id) && 0 <= amount <= old(
                self,
            )@[strategy_id].available && old(self)@[strategy_id].allocated + amount > i64::MAX ==> (
            r matches Err(e) && e is Internal) && final(self)@ == old(self)@,
            old(self)@.contains_key(strategy_id) && op_admitted(
                old(self)@[strategy_id],
                LedgerOp::Reserve { amount: amount as int, now: now as int },
            ) ==> r is Ok && final(self)@ == old(self)@.insert(
                strategy_id,
                apply_op(
                    old(self)@[strategy_id],
                    LedgerOp::Reserve { amount: amount as int, now: now as int },
                ),
            ),
    {
        let entry = match self.entries.get(&strategy_id) {
            Some(e) => *e,
            None => {
                return Err(ApiError::NotFound("no budget entry for the strategy".to_owned()));
            },
        };
        if amount < 0 {
            return Err(ApiError::Validation("reserved amount must not be negative".to_owned()));
        }
        if amount > entry.available {
            return Err(
                ApiError::InsufficientBudget(
                    "trade cost exceeds the available capital".to_owned(),
                ),
            );
        }
        let locked = match entry.allocated.checked_add(amount) {
            Some(v) => v,
            None => {
                return Err(ApiError::Internal("allocated capital overflows".to_owned()));
            },
        };
        let updated = StrategyBudget {
            allocated: locked,
            available: entry.available - amount,
            last_updated: now,
            ..entry
        };
        self.entries.insert(strategy_id, updated);
        proof {
            lemma_wf_insert(old(self)@, self@, strategy_id, updated);
        }
        Ok(())
    }

    /// Returns a trade's original allocation `cost`, adjusted by the
    /// realized `profit` (positive or negative), from allocated back to
    /// available capital.
    pub fn release(&mut self, strategy_id: u64, cost: i64, profit: i64, now: i64) -> (r: Result<
        (),
        ApiError,
    >)
        requires
            old(self).wf(),
        ensures
            final(self).wf(),
            !old(self)@.contains_key(strategy_id) ==> (r matches Err(e) && e is NotFound)
                && final(self)@ == old(self)@,
            old(self)@.contains_key(strategy_id) && !(0 <= cost <= old(
                self,
            )@[strategy_id].allocated) ==> (r matches Err(e) && e is Internal) && final(self)@ == old(
                self,
            )@,
            old(self)@.contains_key(strategy_id) && 0 <= cost <= old(
                self,
            )@[strategy_id].allocated && !(i64::MIN <= old(self)@[strategy_id].available + cost
                + profit <= i64::MAX) ==> (r matches Err(e) && e is Internal) && final(self)@ == old(
                self,
            )@,
            old(self)@.contains_key(strategy_id) && op_admitted(
                old(self)@[strategy_id],
                LedgerOp::Release { cost: cost as int, profit: profit as int, now: now as int },
            ) ==> r is Ok && final(self)@ == old(self)@.insert(
                strategy_id,
                apply_op(
                    old(self)@[strategy_id],
                    LedgerOp::Release { cost: cost as int, profit: profit as int, now: now as int },
                ),
            ),
    {
        let entry = match self.entries.get(&strategy_id) {
            Some(e) => *e,
            None => {
                return Err(ApiError::NotFound("no budget entry for the strategy".to_owned()));
            },
        };
        if cost < 0 || cost > entry.allocated {
            return Err(
                ApiError::Internal("released cost does not match the allocation".to_owned()),
            );
        }
        let wide: i128 = (entry.available as i128) + (cost as i128) + (profit as i128);
        if wide < (i64::MIN as i128) || wide > (i64::MAX as i128) {
            return Err(ApiError::Internal("available capital overflows".to_owned()));
        }
        let updated = StrategyBudget {
            allocated: entry.allocated - cost,
            available: wide as i64,
            last_updated: now,
            ..entry
        };
        self.entries.insert(strategy_id, updated);
        proof {
            lemma_wf_insert(old(self)@, self@, strategy_id, updated);
        }
        Ok(())
    }

    /// Drops the strategy's entry; nothing changes when it has none.
    pub fn remove(&mut self, strategy_id: u64) -> (was_present: bool)
        requires
            old(self).wf(),
        ensures
            final(self).wf(),
            final(self)@ == old(self)@.remove(strategy_id),
            was_present == old(self)@.contains_key(strategy_id),
    {
        let removed = self.entries.remove(&strategy_id);
        proof {
            lemma_wf_remove(old(self)@, self@, strategy_id);
        }
        match removed {
            Some(_) => true,
            None => false,
        }
    }
}

} // verus!
