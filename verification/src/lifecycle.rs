//! The trade lifecycle manager: owns the in-memory trade table and the
//! only legal ways to advance a trade through its life.
//!
//! Creation validates the signal, reserves the trade's cost with the
//! budget ledger — rejected, not persisted, when the cost exceeds the
//! available capital — and records the trade as pending. Execution is
//! legal only on a pending trade; closing only on an open one; deletion
//! only on a pending or closed one. The budget side effects are exactly
//! the ledger operations stated in [`crate::ledger`].

use vstd::prelude::*;
use std::collections::HashMap;
use crate::errors::ApiError;
use crate::ledger::{apply_op, BudgetLedger, LedgerOp};
use crate::money::{cost_of, valid_amount, valid_price};
use crate::signal::TradeSignal;
use crate::trade::{spec_closed, spec_executed, MarketType, Trade, TradeStatus};

verus! {

broadcast use vstd::std_specs::hash::group_hash_axioms;

/// The trade `create` records for signal `sig` of strategy
/// `strategy_id`: pending, entered at the requested price, with the
/// signal's cost reserved.
pub open spec fn spec_created(
    id: u64,
    strategy_id: u64,
    user_id: u64,
    market_type: MarketType,
    sig: TradeSignal,
    now: i64,
) -> Trade {
    Trade {
        id,
        strategy_id,
        user_id,
        symbol: sig.symbol,
        side: sig.side,
        status: TradeStatus::Pending,
        amount: sig.amount,
        entry_price: Some(sig.price),
        exit_price: None,
        profit: None,
        cost: cost_of(sig.amount as int, sig.price as int) as i64,
        stop_loss: sig.stop_loss,
        take_profit: sig.take_profit,
        trailing_stop: sig.trailing_stop,
        leverage: sig.leverage,
        market_type,
        order_id: None,
        created_at: now,
        executed_at: None,
        closed_at: None,
        metadata: sig.extra,
    }
}

proof fn lemma_trades_wf_insert(m1: Map<u64, Trade>, m2: Map<u64, Trade>, id: u64, t: Trade)
    requires
        forall|k: u64| m1.contains_key(k) ==> (#[trigger] m1[k]).wf() && m1[k].id == k,
        m2 == m1.insert(id, t),
        t.wf(),
        t.id == id,
    ensures
        forall|k: u64| m2.contains_key(k) ==> (#[trigger] m2[k]).wf() && m2[k].id == k,
{
    assert forall|k: u64| m2.contains_key(k) implies (#[trigger] m2[k]).wf() && m2[k].id == k by {
        if k != id {
            assert(m1.contains_key(k));
        }
    }
}

proof fn lemma_trades_wf_remove(m1: Map<u64, Trade>, m2: Map<u64, Trade>, id: u64)
    requires
        forall|k: u64| m1.contains_key(k) ==> (#[trigger] m1[k]).wf() && m1[k].id == k,
        m2 == m1.remove(id),
    ensures
        forall|k: u64| m2.contains_key(k) ==> (#[trigger] m2[k]).wf() && m2[k].id == k,
{
    assert forall|k: u64| m2.contains_key(k) implies (#[trigger] m2[k]).wf() && m2[k].id == k by {
        assert(m1.contains_key(k));
    }
}

/// Whether `ids` lists exactly the keys of `m`, each once.
pub open spec fn index_consistent(ids: Seq<u64>, m: Map<u64, Trade>) -> bool {
    &&& ids.no_duplicates()
    &&& forall|i: int| 0 <= i < ids.len() ==> m.contains_key(#[trigger] ids[i])
    &&& forall|id: u64| m.contains_key(id) ==> ids.contains(id)
}

proof fn lemma_index_insert(ids: Seq<u64>, m: Map<u64, Trade>, id: u64, t: Trade)
    requires
        index_consistent(ids, m),
        !m.contains_key(id),
    ensures
        index_consistent(ids.push(id), m.insert(id, t)),
{
    let ids2 = ids.push(id);
    let m2 = m.insert(id, t);
    assert(!ids.contains(id));
    assert forall|i: int, j: int|
        (0 <= i < ids2.len() && 0 <= j < ids2.len() && i != j) implies ids2[i] != ids2[j] by {
        if i == ids.len() {
            assert(ids.contains(ids[j]));
        } else if j == ids.len() {
            assert(ids.contains(ids[i]));
        }
    }
    assert forall|k: u64| m2.contains_key(k) implies ids2.contains(k) by {
        if k == id {
            assert(ids2[ids.len() as int] == id);
        } else {
            assert(m.contains_key(k));
            assert(ids.contains(k));
            let i = choose|i: int| 0 <= i < ids.len() && ids[i] == k;
            assert(ids2[i] == k);
        }
    }
}

proof fn lemma_index_remove(ids: Seq<u64>, m: Map<u64, Trade>, id: u64, pos: int)
    requires
        index_consistent(ids, m),
        0 <= pos < ids.len(),
        ids[pos] == id,
    ensures
        index_consistent(ids.remove(pos), m.remove(id)),
{
    let ids2 = ids.remove(pos);
    let m2 = m.remove(id);
    ids.remove_ensures(pos);
    assert forall|i: int, j: int|
        (0 <= i < ids2.len() && 0 <= j < ids2.len() && i != j) implies ids2[i] != ids2[j] by {
        let oi: int = if i < pos {
            i
        } else {
            i + 1
        };
        let oj: int = if j < pos {
            j
        } else {
            j + 1
        };
        assert(ids2[i] == ids[oi]);
        assert(ids2[j] == ids[oj]);
    }
    assert forall|i: int| 0 <= i < ids2.len() implies m2.contains_key(#[trigger] ids2[i]) by {
        let oi: int = if i < pos {
            i
        } else {
            i + 1
        };
        assert(ids2[i] == ids[oi]);
        assert(ids[oi] != ids[pos]);
    }
    assert forall|k: u64| m2.contains_key(k) implies ids2.contains(k) by {
        assert(m.contains_key(k) && k != id);
        assert(ids.contains(k));
        let i = choose|i: int| 0 <= i < ids.len() && ids[i] == k;
        assert(i != pos);
        if i < pos {
            assert(ids2[i] == k);
        } else {
            assert(ids2[i - 1] == k);
        }
    }
}

/// The ids of the strategy's open trades among `ids`, in order.
pub open spec fn spec_open_ids(ids: Seq<u64>, m: Map<u64, Trade>, strategy_id: u64) -> Seq<u64>
    decreases ids.len(),
{
    if ids.len() == 0 {
        Seq::<u64>::empty()
    } else {
        let rest = spec_open_ids(ids.skip(1), m, strategy_id);
        if m.contains_key(ids[0]) && m[ids[0]].strategy_id == strategy_id && m[ids[0]].status
            is Open {
            seq![ids[0]] + rest
        } else {
            rest
        }
    }
}

proof fn lemma_open_ids_snoc(ids: Seq<u64>, m: Map<u64, Trade>, strategy_id: u64, x: u64)
    ensures
        spec_open_ids(ids.push(x), m, strategy_id) == spec_open_ids(ids, m, strategy_id) + (if
            m.contains_key(x) && m[x].strategy_id == strategy_id && m[x].status is Open {
            seq![x]
        } else {
            Seq::<u64>::empty()
        }),
    decreases ids.len(),
{
    let ids2 = ids.push(x);
    let tail = if m.contains_key(x) && m[x].strategy_id == strategy_id && m[x].status is Open {
        seq![x]
    } else {
        Seq::<u64>::empty()
    };
    if ids.len() == 0 {
        assert(ids =~= Seq::<u64>::empty());
        assert(ids2[0] == x);
        assert(ids2.skip(1) =~= Seq::<u64>::empty());
        assert(spec_open_ids(Seq::<u64>::empty(), m, strategy_id) == Seq::<u64>::empty());
        assert(seq![x] + Seq::<u64>::empty() =~= seq![x]);
        assert(Seq::<u64>::empty() + tail =~= tail);
    } else {
        assert(ids2[0] == ids[0]);
        assert(ids2.skip(1) =~= ids.skip(1).push(x));
        lemma_open_ids_snoc(ids.skip(1), m, strategy_id, x);
        if m.contains_key(ids[0]) && m[ids[0]].strategy_id == strategy_id && m[ids[0]].status
            is Open {
            assert(spec_open_ids(ids2, m, strategy_id) =~= spec_open_ids(ids, m, strategy_id)
                + tail);
        }
    }
}

/// The in-memory trade table: the working set the background loop
/// reads and the single place a trade's status is allowed to change.
/// Beside the table it keeps the list of its trade ids, for
/// enumeration. A closed trade stays in the table as a terminal
/// record — the active working set is the non-terminal subset — until
/// the caller persists it and drops it with `delete`; a reload takes
/// only non-terminal records back.
pub struct TradeLifecycle {
    trades: HashMap<u64, Trade>,
    ids: Vec<u64>,
}

impl TradeLifecycle {
    /// The table as a map from trade id to trade.
    pub closed spec fn view(&self) -> Map<u64, Trade> {
        self.trades@
    }

    /// The trade ids, each once, in admission order.
    pub closed spec fn ids_view(&self) -> Seq<u64> {
        self.ids@
    }

    /// Every trade is well formed and stored under its own id, and the
    /// id list indexes the table exactly.
    pub open spec fn wf(&self) -> bool {
        &&& forall|id: u64|
            self@.contains_key(id) ==> (#[trigger] self@[id]).wf() && self@[id].id == id
        &&& index_consistent(self.ids_view(), self@)
    }

    /// An empty table.
    pub fn new() -> (r: Self)
        ensures
            r@ == Map::<u64, Trade>::empty(),
            r.wf(),
    {
        TradeLifecycle { trades: HashMap::new(), ids: Vec::new() }
    }

    /// The ids of all trades in the table.
    pub fn trade_ids(&self) -> (r: &Vec<u64>)
        ensures
            r@ == self.ids_view(),
    {
        &self.ids
    }

    /// Whether the table holds a trade under this id.
    pub fn contains(&self, id: u64) -> (r: bool)
        ensures
            r == self@.contains_key(id),
    {
        self.trades.contains_key(&id)
    }

    /// The trade under this id, if any.
    pub fn get(&self, id: u64) -> (r: Option<&Trade>)
        ensures
            match r {
                Some(t) => self@.contains_key(id) && *t == self@[id],
                None => !self@.contains_key(id),
            },
    {
        self.trades.get(&id)
    }

    /// Takes back a trade reloaded from the system of record. The
    /// caller has already re-reserved the trade's cost against its
    /// strategy's budget entry; this records the trade alone.
    pub(crate) fn restore(&mut self, trade: Trade) -> (r: Result<(), ApiError>)
        requires
            old(self).wf(),
        ensures
            final(self).wf(),
            !(trade.wf() && !old(self)@.contains_key(trade.id)) ==> (r matches Err(e) && e
                is Validation) && final(self)@ == old(self)@,
            trade.wf() && !old(self)@.contains_key(trade.id) ==> r is Ok && final(self)@ == old(self)@.insert(trade.id, trade),
    {
        if !trade_checks_out(&trade) || self.trades.contains_key(&trade.id) {
            return Err(ApiError::Validation("trade record cannot be restored".to_owned()));
        }
        let id = trade.id;
        let ghost t = trade;
        proof {
            lemma_index_insert(self.ids@, self@, id, t);
        }
        self.trades.insert(id, trade);
        self.ids.push(id);
        proof {
            lemma_trades_wf_insert(old(self)@, self@, id, t);
        }
        Ok(())
    }

    /// Validates a signal, reserves its cost with the ledger, and
    /// records the trade as pending. A cost above the strategy's
    /// available capital is rejected with `InsufficientBudget` and
    /// nothing is recorded or moved.
    pub fn create(
        &mut self,
        ledger: &mut BudgetLedger,
        id: u64,
        strategy_id: u64,
        user_id: u64,
        market_type: MarketType,
        sig: &TradeSignal,
        now: i64,
    ) -> (r: Result<(), ApiError>)
        requires
            old(self).wf(),
            old(ledger).wf(),
        ensures
            final(self).wf(),
            final(ledger).wf(),
            r is Err ==> final(self)@ == old(self)@,
            !(valid_amount(sig.amount as int) && valid_price(sig.price as int)) ==> (r matches Err(
                e,
            ) && e is Validation) && final(ledger)@ == old(ledger)@,
            valid_amount(sig.amount as int) && valid_price(sig.price as int) && old(self)@.contains_key(id) ==> (r matches Err(e) && e is Internal) && final(ledger)@ == old(ledger)@,
            valid_amount(sig.amount as int) && valid_price(sig.price as int) && !old(self)@.contains_key(id) && !old(ledger)@.contains_key(strategy_id) ==> (r matches Err(e)
                && e is NotFound) && final(ledger)@ == old(ledger)@,
            valid_amount(sig.amount as int) && valid_price(sig.price as int) && !old(self)@.contains_key(id) && old(ledger)@.contains_key(strategy_id) && cost_of(
                sig.amount as int,
                sig.price as int,
            ) > old(ledger)@[strategy_id].available ==> (r matches Err(e) && e
                is InsufficientBudget) && final(ledger)@ == old(ledger)@,
            valid_amount(sig.amount as int) && valid_price(sig.price as int) && !old(self)@.contains_key(id) && old(ledger)@.contains_key(strategy_id) && cost_of(
                sig.amount as int,
                sig.price as int,
            ) <= old(ledger)@[strategy_id].available && old(ledger)@[strategy_id].allocated
                + cost_of(sig.amount as int, sig.price as int) > i64::MAX ==> (r matches Err(e)
                && e is Internal) && final(ledger)@ == old(ledger)@,
            valid_amount(sig.amount as int) && valid_price(sig.price as int) && !old(self)@.contains_key(id) && old(ledger)@.contains_key(strategy_id) && op_reserve_admitted(
                old(ledger)@[strategy_id].available as int,
                old(ledger)@[strategy_id].allocated as int,
                cost_of(sig.amount as int, sig.price as int),
            ) ==> r is Ok && final(ledger)@ == old(ledger)@.insert(
                strategy_id,
                apply_op(
                    old(ledger)@[strategy_id],
                    LedgerOp::Reserve {
                        amount: cost_of(sig.amount as int, sig.price as int),
                        now: now as int,
                    },
                ),
            ) && final(self)@ == old(self)@.insert(
                id,
                spec_created(id, strategy_id, user_id, market_type, *sig, now),
            ),
    {
        if sig.amount <= 0 || sig.amount > crate::money::MAX_AMOUNT {
            return Err(ApiError::Validation("trade amount must be positive".to_owned()));
        }
        if sig.price <= 0 || sig.price > crate::money::MAX_PRICE {
            return Err(ApiError::Validation("trade price must be positive".to_owned()));
        }
        if self.trades.contains_key(&id) {
            return Err(ApiError::Internal("trade id is already taken".to_owned()));
        }
        let cost = crate::money::trade_cost(sig.amount, sig.price);
        match ledger.reserve(strategy_id, cost, now) {
            Ok(()) => {},
            Err(e) => {
                return Err(e);
            },
        }
        let trade = Trade {
            id,
            strategy_id,
            user_id,
            symbol: sig.symbol.clone(),
            side: sig.side,
            status: TradeStatus::Pending,
            amount: sig.amount,
            entry_price: Some(sig.price),
            exit_price: None,
            profit: None,
            cost,
            stop_loss: sig.stop_loss,
            take_profit: sig.take_profit,
            trailing_stop: sig.trailing_stop,
            leverage: sig.leverage,
            market_type,
            order_id: None,
            created_at: now,
            executed_at: None,
            closed_at: None,
            metadata: sig.extra.clone(),
        };
        let ghost t = trade;
        proof {
            lemma_index_insert(self.ids@, self@, id, t);
        }
        self.trades.insert(id, trade);
        self.ids.push(id);
        proof {
            lemma_trades_wf_insert(old(self)@, self@, id, t);
        }
        Ok(())
    }

    /// Advances a pending trade to open at the live fill price, falling
    /// back to the requested entry price when none is supplied, and
    /// records the order id and execution time. Fails with
    /// `InvalidState`, changing nothing, unless the trade is pending.
    pub fn execute(&mut self, id: u64, live_price: Option<i64>, order_id: u64, now: i64) -> (r:
        Result<(), ApiError>)
        requires
            old(self).wf(),
        ensures
            final(self).wf(),
            r is Err ==> final(self)@ == old(self)@,
            !old(self)@.contains_key(id) ==> (r matches Err(e) && e is NotFound),
            old(self)@.contains_key(id) && !(old(self)@[id].status is Pending) ==> (r matches Err(
                e,
            ) && e is InvalidState),
            old(self)@.contains_key(id) && old(self)@[id].status is Pending && (live_price matches
                Some(p) && !valid_price(p as int)) ==> (r matches Err(e) && e is Validation),
            old(self)@.contains_key(id) && old(self)@[id].status is Pending && (match live_price {
                Some(p) => valid_price(p as int),
                None => true,
            }) ==> r is Ok && final(self)@ == old(self)@.insert(
                id,
                spec_executed(
                    old(self)@[id],
                    match live_price {
                        Some(p) => p,
                        None => old(self)@[id].entry_price->0,
                    },
                    order_id,
                    now,
                ),
            ),
    {
        let trade = match self.trades.get(&id) {
            Some(t) => t,
            None => {
                return Err(ApiError::NotFound("no trade under this id".to_owned()));
            },
        };
        match trade.status {
            TradeStatus::Pending => {},
            _ => {
                return Err(
                    ApiError::InvalidState("only a pending trade can be executed".to_owned()),
                );
            },
        }
        let requested = match trade.entry_price {
            Some(p) => p,
            None => {
                proof {
                    assert(false);
                }
                0
            },
        };
        let fill = match live_price {
            Some(p) => {
                if p <= 0 || p > crate::money::MAX_PRICE {
                    return Err(ApiError::Validation("fill price must be positive".to_owned()));
                }
                p
            },
            None => requested,
        };
        let executed = Trade {
            status: TradeStatus::Open,
            entry_price: Some(fill),
            executed_at: Some(now),
            order_id: Some(order_id),
            ..trade.clone()
        };
        let ghost t = executed;
        self.trades.insert(id, executed);
        proof {
            lemma_trades_wf_insert(old(self)@, self@, id, t);
        }
        Ok(())
    }

    /// Closes an open trade at the resolved exit price: records the
    /// exit, the realized profit and the close time, and releases the
    /// trade's original allocation adjusted by that profit back to the
    /// strategy's available capital. Fails with `InvalidState`,
    /// touching neither the trade nor the budget, unless the trade is
    /// open.
    pub fn close(&mut self, ledger: &mut BudgetLedger, id: u64, exit_price: i64, now: i64) -> (r:
        Result<(), ApiError>)
        requires
            old(self).wf(),
            old(ledger).wf(),
        ensures
            final(self).wf(),
            final(ledger).wf(),
            r is Err ==> final(self)@ == old(self)@ && final(ledger)@ == old(ledger)@,
            !old(self)@.contains_key(id) ==> (r matches Err(e) && e is NotFound),
            old(self)@.contains_key(id) && !(old(self)@[id].status is Open) ==> (r matches Err(e)
                && e is InvalidState),
            old(self)@.contains_key(id) && old(self)@[id].status is Open && !valid_price(
                exit_price as int,
            ) ==> (r matches Err(e) && e is Validation),
            old(self)@.contains_key(id) && old(self)@[id].status is Open && valid_price(
                exit_price as int,
            ) && !old(ledger)@.contains_key(old(self)@[id].strategy_id) ==> (r matches Err(e) && e
                is NotFound),
            r is Ok ==> {
                let t = old(self)@[id];
                let profit = crate::trade::profit_of(
                    t.side,
                    t.amount as int,
                    t.entry_price->0 as int,
                    exit_price as int,
                );
                &&& old(self)@.contains_key(id)
                &&& t.status is Open
                &&& final(self)@ == old(self)@.insert(
                    id,
                    spec_closed(t, exit_price, profit as i64, now),
                )
                &&& final(ledger)@ == old(ledger)@.insert(
                    t.strategy_id,
                    apply_op(
                        old(ledger)@[t.strategy_id],
                        LedgerOp::Release { cost: t.cost as int, profit, now: now as int },
                    ),
                )
            },
            old(self)@.contains_key(id) && old(self)@[id].status is Open && valid_price(
                exit_price as int,
            ) && old(ledger)@.contains_key(old(self)@[id].strategy_id) && op_release_admitted(
                old(ledger)@[old(self)@[id].strategy_id].available as int,
                old(ledger)@[old(self)@[id].strategy_id].allocated as int,
                old(self)@[id].cost as int,
                crate::trade::profit_of(
                    old(self)@[id].side,
                    old(self)@[id].amount as int,
                    old(self)@[id].entry_price->0 as int,
                    exit_price as int,
                ),
            ) ==> r is Ok,
            r is Ok ==> valid_price(exit_price as int) && old(ledger)@.contains_key(
                old(self)@[id].strategy_id,
            ) && op_release_admitted(
                old(ledger)@[old(self)@[id].strategy_id].available as int,
                old(ledger)@[old(self)@[id].strategy_id].allocated as int,
                old(self)@[id].cost as int,
                crate::trade::profit_of(
                    old(self)@[id].side,
                    old(self)@[id].amount as int,
                    old(self)@[id].entry_price->0 as int,
                    exit_price as int,
                ),
            ),
            r matches Err(e) ==> ((old(self)@.contains_key(id) && old(self)@[id].status is Open)
                ==> (e is Validation || e is NotFound || e is Internal)),
    {
        let trade = match self.trades.get(&id) {
            Some(t) => t,
            None => {
                return Err(ApiError::NotFound("no trade under this id".to_owned()));
            },
        };
        match trade.status {
            TradeStatus::Open => {},
            _ => {
                return Err(ApiError::InvalidState("only an open trade can be closed".to_owned()));
            },
        }
        if exit_price <= 0 || exit_price > crate::money::MAX_PRICE {
            return Err(ApiError::Validation("exit price must be positive".to_owned()));
        }
        let entry = match trade.entry_price {
            Some(p) => p,
            None => {
                proof {
                    assert(false);
                }
                0
            },
        };
        let profit = crate::trade::trade_profit(trade.side, trade.amount, entry, exit_price);
        let strategy_id = trade.strategy_id;
        let cost = trade.cost;
        let closed = Trade {
            status: TradeStatus::Closed,
            exit_price: Some(exit_price),
            profit: Some(profit),
            closed_at: Some(now),
            ..trade.clone()
        };
        match ledger.release(strategy_id, cost, profit, now) {
            Ok(()) => {},
            Err(e) => {
                return Err(e);
            },
        }
        let ghost t = closed;
        self.trades.insert(id, closed);
        proof {
            lemma_trades_wf_insert(old(self)@, self@, id, t);
        }
        Ok(())
    }

    /// Drops a pending or closed trade from the table, returning a
    /// pending trade's reservation to its strategy's available capital
    /// first. An open trade must be closed before it can be deleted,
    /// and is refused with `InvalidState`.
    pub fn delete(&mut self, ledger: &mut BudgetLedger, id: u64, now: i64) -> (r: Result<(), ApiError>)
        requires
            old(self).wf(),
            old(ledger).wf(),
        ensures
            final(self).wf(),
            final(ledger).wf(),
            r is Err ==> final(self)@ == old(self)@ && final(ledger)@ == old(ledger)@,
            !old(self)@.contains_key(id) ==> (r matches Err(e) && e is NotFound),
            old(self)@.contains_key(id) && old(self)@[id].status is Open ==> (r matches Err(e)
                && e is InvalidState),
            r is Ok ==> final(self)@ == old(self)@.remove(id),
            old(self)@.contains_key(id) && old(self)@[id].status is Closed ==> r is Ok && final(ledger)@ == old(ledger)@,
            old(self)@.contains_key(id) && old(self)@[id].status is Pending && !old(ledger)@.contains_key(old(self)@[id].strategy_id) ==> r is Ok && final(ledger)@ == old(ledger)@,
            old(self)@.contains_key(id) && old(self)@[id].status is Pending && old(ledger)@.contains_key(old(self)@[id].strategy_id) && op_release_admitted(
                old(ledger)@[old(self)@[id].strategy_id].available as int,
                old(ledger)@[old(self)@[id].strategy_id].allocated as int,
                old(self)@[id].cost as int,
                0,
            ) ==> r is Ok && final(ledger)@ == old(ledger)@.insert(
                old(self)@[id].strategy_id,
                apply_op(
                    old(ledger)@[old(self)@[id].strategy_id],
                    LedgerOp::Release {
                        cost: old(self)@[id].cost as int,
                        profit: 0,
                        now: now as int,
                    },
                ),
            ),
    {
        let trade = match self.trades.get(&id) {
            Some(t) => t,
            None => {
                return Err(ApiError::NotFound("no trade under this id".to_owned()));
            },
        };
        let strategy_id = trade.strategy_id;
        let cost = trade.cost;
        match trade.status {
            TradeStatus::Open => {
                return Err(
                    ApiError::InvalidState("an open trade must be closed before deletion".to_owned()),
                );
            },
            TradeStatus::Pending => {
                if ledger.contains(strategy_id) {
                    match ledger.release(strategy_id, cost, 0, now) {
                        Ok(()) => {},
                        Err(e) => {
                            return Err(e);
                        },
                    }
                }
            },
            TradeStatus::Closed => {},
        }
        let ghost ids0 = self.ids@;
        let ghost m0 = self@;
        let mut pos: usize = 0;
        while pos < self.ids.len() && self.ids[pos] != id
            invariant
                pos <= self.ids@.len(),
                forall|j: int| 0 <= j < pos ==> self.ids@[j] != id,
            decreases self.ids@.len() - pos,
        {
            pos = pos + 1;
        }
        proof {
            if pos == self.ids@.len() {
                assert(self.ids@.contains(id));
                let j = choose|j: int| 0 <= j < self.ids@.len() && self.ids@[j] == id;
                assert(false);
            }
        }
        self.ids.remove(pos);
        self.trades.remove(&id);
        proof {
            lemma_index_remove(ids0, m0, id, pos as int);
            lemma_trades_wf_remove(old(self)@, self@, id);
        }
        Ok(())
    }

    /// The ids of every open trade belonging to the strategy: each
    /// listed id is such a trade, and every such trade is listed.
    pub fn open_trades_of(&self, strategy_id: u64) -> (r: Vec<u64>)
        requires
            self.wf(),
        ensures
            forall|i: int|
                0 <= i < r@.len() ==> self@.contains_key(#[trigger] r@[i])
                    && self@[r@[i]].strategy_id == strategy_id && self@[r@[i]].status is Open,
            forall|id: u64|
                self@.contains_key(id) && (#[trigger] self@[id]).strategy_id == strategy_id
                    && self@[id].status is Open ==> r@.contains(id),
            r@ == spec_open_ids(self.ids_view(), self@, strategy_id),
    {
        let mut r: Vec<u64> = Vec::new();
        let mut i: usize = 0;
        proof {
            assert(self.ids@.take(0) =~= Seq::<u64>::empty());
        }
        while i < self.ids.len()
            invariant
                self.wf(),
                i <= self.ids@.len(),
                r@ == spec_open_ids(self.ids@.take(i as int), self@, strategy_id),
                forall|k: int|
                    0 <= k < r@.len() ==> self@.contains_key(#[trigger] r@[k])
                        && self@[r@[k]].strategy_id == strategy_id && self@[r@[k]].status is Open,
                forall|j: int|
                    0 <= j < i ==> (self@[self.ids@[j]].strategy_id == strategy_id
                        && self@[#[trigger] self.ids@[j]].status is Open) ==> r@.contains(
                        self.ids@[j],
                    ),
            decreases self.ids@.len() - i,
        {
            let id = self.ids[i];
            let ghost r0 = r@;
            match self.trades.get(&id) {
                Some(t) => {
                    if t.strategy_id == strategy_id && matches!(t.status, TradeStatus::Open) {
                        r.push(id);
                        proof {
                            assert(r@[r@.len() - 1] == id);
                            assert(r@.contains(id));
                        }
                    }
                },
                None => {
                    proof {
                        assert(false);
                    }
                },
            }
            proof {
                assert forall|x: u64| r0.contains(x) implies r@.contains(x) by {
                    let k = choose|k: int| 0 <= k < r0.len() && r0[k] == x;
                    assert(r@[k] == x);
                };
                lemma_open_ids_snoc(
                    self.ids@.take(i as int),
                    self@,
                    strategy_id,
                    self.ids@[i as int],
                );
                assert(self.ids@.take(i as int).push(self.ids@[i as int]) =~= self.ids@.take(
                    i as int + 1,
                ));
                if self@.contains_key(id) && self@[id].strategy_id == strategy_id && self@[id].status
                    is Open {
                    assert(r@ =~= r0 + seq![id]);
                } else {
                    assert(r@ =~= r0 + Seq::<u64>::empty());
                }
            }
            i = i + 1;
        }
        proof {
            assert(self.ids@.take(self.ids@.len() as int) =~= self.ids@);
            assert forall|id: u64|
                self@.contains_key(id) && (#[trigger] self@[id]).strategy_id == strategy_id
                    && self@[id].status is Open implies r@.contains(id) by {
                assert(self.ids@.contains(id));
                let j = choose|j: int| 0 <= j < self.ids@.len() && self.ids@[j] == id;
            }
        }
        r
    }
}

/// Whether a reservation of `amount` fits an entry with the given
/// available and allocated capital.
pub open spec fn op_reserve_admitted(available: int, allocated: int, amount: int) -> bool {
    0 <= amount <= available && allocated + amount <= i64::MAX
}

/// Whether a release of `cost` at `profit` fits an entry with the given
/// available and allocated capital.
pub open spec fn op_release_admitted(available: int, allocated: int, cost: int, profit: int) -> bool {
    0 <= cost <= allocated && i64::MIN <= available + cost + profit <= i64::MAX
}

/// Whether a reloaded trade record can be taken into the table.
pub(crate) fn trade_checks_out(trade: &Trade) -> (r: bool)
    ensures
        r == trade.wf(),
{
    let amount_ok = trade.amount > 0 && trade.amount <= crate::money::MAX_AMOUNT;
    let entry_ok = match trade.entry_price {
        Some(p) => p > 0 && p <= crate::money::MAX_PRICE,
        None => false,
    };
    let closed_fields = match trade.status {
        TradeStatus::Closed => trade.exit_price.is_some() && trade.profit.is_some()
            && trade.closed_at.is_some(),
        _ => trade.exit_price.is_none() && trade.profit.is_none() && trade.closed_at.is_none(),
    };
    let executed_fields = match trade.status {
        TradeStatus::Pending => trade.executed_at.is_none() && trade.order_id.is_none(),
        _ => trade.executed_at.is_some() && trade.order_id.is_some(),
    };
    let cost_ok = trade.cost >= 0 && trade.cost <= 10_000_000_000_000_000;
    let profit_ok = match trade.profit {
        Some(p) => -10_000_000_000_000_000 <= p && p <= 10_000_000_000_000_000,
        None => true,
    };
    amount_ok && entry_ok && closed_fields && executed_fields && cost_ok && profit_ok
}

} // verus!
