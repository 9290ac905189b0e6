//! The trade processor: the orchestration run once per scheduler tick.
//!
//! For an active strategy it turns the signal provider's candidates
//! into trades — validated against the strategy's budget, skipped when
//! the cost exceeds the available capital — and optionally executes
//! them at once. Independently it walks the open trades and closes
//! those whose stop loss, take profit or trailing stop is crossed at
//! the latest price. One signal's or one trade's failure never aborts
//! its siblings: each is reported and the pass goes on.
//!
//! The collaborator calls — the signal provider, the market-data and
//! price feeds — happen outside: their results come in as plain
//! arguments, so everything proved here holds whatever they returned.

use vstd::prelude::*;
use crate::errors::ApiError;
use crate::ids::fresh_id;
use crate::ledger::{apply_op, BudgetLedger, LedgerOp, StrategyBudget};
use crate::lifecycle::{
    op_release_admitted, op_reserve_admitted, spec_created, spec_open_ids, trade_checks_out,
    TradeLifecycle,
};
use crate::money::{cost_of, valid_amount, valid_price};
use crate::signal::TradeSignal;
use crate::strategy::{Strategy, StrategyStatus};
use crate::trade::{
    close_condition, profit_of, should_close_trade, spec_closed, spec_executed, Trade, TradeStatus,
};

verus! {

/// The smallest trade cost worth generating for, in quote minor units:
/// ten whole units of the quote currency.
pub const MIN_TRADE_COST: i64 = 1000;

/// The available capital a strategy has in `m`: zero when it has no
/// entry.
pub open spec fn avail_of(m: Map<u64, StrategyBudget>, id: u64) -> int {
    if m.contains_key(id) {
        m[id].available as int
    } else {
        0
    }
}

/// What became of one signal in a generation pass.
#[derive(Debug)]
pub enum SignalOutcome {
    /// The signal's cost exceeded the available capital: skipped, and
    /// nothing changed.
    Skipped,
    /// A pending trade was created and its cost reserved.
    Created { trade_id: u64 },
    /// A trade was created, reserved and executed at once.
    Executed { trade_id: u64 },
    /// Processing stopped with this error; sibling signals go on.
    Failed(ApiError),
}

/// What a whole generation pass did for one strategy.
#[derive(Debug)]
pub enum GenerationOutcome {
    /// The strategy is not active: nothing was done.
    Inactive,
    /// The available capital is under [`MIN_TRADE_COST`]: nothing was
    /// done.
    BudgetTooLow,
    /// Every signal was processed, one outcome each.
    Processed(Vec<SignalOutcome>),
}

/// Finds the first listed price for the trade id.
fn lookup_price(prices: &Vec<(u64, i64)>, id: u64) -> (r: Option<i64>)
    ensures
        r == spec_lookup(prices@, id),
{
    let mut i: usize = 0;
    proof {
        assert(prices@.skip(0) =~= prices@);
    }
    while i < prices.len()
        invariant
            i <= prices@.len(),
            spec_lookup(prices@, id) == spec_lookup(prices@.skip(i as int), id),
        decreases prices@.len() - i,
    {
        proof {
            assert(prices@.skip(i as int)[0] == prices@[i as int]);
            assert(prices@.skip(i as int).skip(1) =~= prices@.skip(i as int + 1));
        }
        if prices[i].0 == id {
            return Some(prices[i].1);
        }
        i = i + 1;
    }
    proof {
        assert(prices@.skip(i as int) =~= Seq::<(u64, i64)>::empty());
    }
    None
}

/// What processing one signal may do to the tables, given the outcome
/// it reported: exactly the contract of
/// [`TradeProcessor::process_trade_signal`], as a relation from the
/// tables before (`t0`, `l0`) to the tables after (`t1`, `l1`).
pub open spec fn spec_signal_step(
    strategy: Strategy,
    sig: TradeSignal,
    now: i64,
    t0: Map<u64, Trade>,
    l0: Map<u64, StrategyBudget>,
    o: SignalOutcome,
    t1: Map<u64, Trade>,
    l1: Map<u64, StrategyBudget>,
) -> bool {
    let valid = valid_amount(sig.amount as int) && valid_price(sig.price as int);
    let cost = cost_of(sig.amount as int, sig.price as int);
    &&& (!valid ==> (o matches SignalOutcome::Failed(e) && e is Validation))
    &&& (o is Skipped <==> valid && cost > avail_of(l0, strategy.id))
    &&& (o is Skipped || o is Failed ==> t1 == t0 && l1 == l0)
    &&& (o matches SignalOutcome::Failed(e) ==> (e is Validation || e is NotFound || e
        is Internal) && (e is Validation ==> !valid) && (e is NotFound ==> !l0.contains_key(
        strategy.id,
    )) && (e is Internal ==> t0.dom() != Set::<u64>::empty() || (l0.contains_key(strategy.id)
        && l0[strategy.id].allocated + cost > i64::MAX)))
    &&& (o matches SignalOutcome::Created { trade_id } ==> {
        let created = spec_created(
            trade_id,
            strategy.id,
            strategy.user_id,
            strategy.market_type,
            sig,
            now,
        );
        &&& !t0.contains_key(trade_id)
        &&& l0.contains_key(strategy.id)
        &&& cost <= l0[strategy.id].available
        &&& t1 == t0.insert(trade_id, created)
        &&& l1 == l0.insert(
            strategy.id,
            apply_op(l0[strategy.id], LedgerOp::Reserve { amount: cost, now: now as int }),
        )
    })
    &&& (o matches SignalOutcome::Executed { trade_id } ==> {
        let created = spec_created(
            trade_id,
            strategy.id,
            strategy.user_id,
            strategy.market_type,
            sig,
            now,
        );
        &&& !t0.contains_key(trade_id)
        &&& l0.contains_key(strategy.id)
        &&& cost <= l0[strategy.id].available
        &&& t1 == t0.insert(
            trade_id,
            spec_executed(created, sig.price, t1[trade_id].order_id->0, now),
        )
        &&& l1 == l0.insert(
            strategy.id,
            apply_op(l0[strategy.id], LedgerOp::Reserve { amount: cost, now: now as int }),
        )
    })
}

/// Whether `outcomes` is a faithful account of processing `signals` in
/// order, from tables (`t0`, `l0`) to tables (`t1`, `l1`): one outcome
/// per signal, each step related to its neighbours by
/// [`spec_signal_step`] through some intermediate tables.
pub open spec fn spec_signals_processed(
    strategy: Strategy,
    signals: Seq<TradeSignal>,
    outcomes: Seq<SignalOutcome>,
    now: i64,
    t0: Map<u64, Trade>,
    l0: Map<u64, StrategyBudget>,
    t1: Map<u64, Trade>,
    l1: Map<u64, StrategyBudget>,
) -> bool
    decreases signals.len(),
{
    if signals.len() == 0 {
        outcomes.len() == 0 && t1 == t0 && l1 == l0
    } else {
        outcomes.len() == signals.len() && exists|tm: Map<u64, Trade>, lm: Map<
            u64,
            StrategyBudget,
        >|
            #[trigger] spec_signal_step(strategy, signals[0], now, t0, l0, outcomes[0], tm, lm)
                && spec_signals_processed(
                strategy,
                signals.skip(1),
                outcomes.skip(1),
                now,
                tm,
                lm,
                t1,
                l1,
            )
    }
}

proof fn lemma_signals_processed_snoc(
    strategy: Strategy,
    signals: Seq<TradeSignal>,
    outcomes: Seq<SignalOutcome>,
    now: i64,
    t0: Map<u64, Trade>,
    l0: Map<u64, StrategyBudget>,
    tm: Map<u64, Trade>,
    lm: Map<u64, StrategyBudget>,
    t1: Map<u64, Trade>,
    l1: Map<u64, StrategyBudget>,
    sig: TradeSignal,
    o: SignalOutcome,
)
    requires
        spec_signals_processed(strategy, signals, outcomes, now, t0, l0, tm, lm),
        spec_signal_step(strategy, sig, now, tm, lm, o, t1, l1),
    ensures
        spec_signals_processed(strategy, signals.push(sig), outcomes.push(o), now, t0, l0, t1, l1),
    decreases signals.len(),
{
    let signals2 = signals.push(sig);
    let outcomes2 = outcomes.push(o);
    if signals.len() == 0 {
        assert(signals2[0] == sig);
        assert(outcomes2[0] == o);
        assert(signals2.skip(1) =~= Seq::<TradeSignal>::empty());
        assert(outcomes2.skip(1) =~= Seq::<SignalOutcome>::empty());
        assert(spec_signals_processed(
            strategy,
            signals2.skip(1),
            outcomes2.skip(1),
            now,
            t1,
            l1,
            t1,
            l1,
        ));
        assert(spec_signal_step(strategy, signals2[0], now, t0, l0, outcomes2[0], t1, l1));
    } else {
        let (ta, la): (Map<u64, Trade>, Map<u64, StrategyBudget>) = choose|
            ta: Map<u64, Trade>,
            la: Map<u64, StrategyBudget>,
        |
            #[trigger] spec_signal_step(strategy, signals[0], now, t0, l0, outcomes[0], ta, la)
                && spec_signals_processed(
                strategy,
                signals.skip(1),
                outcomes.skip(1),
                now,
                ta,
                la,
                tm,
                lm,
            );
        lemma_signals_processed_snoc(
            strategy,
            signals.skip(1),
            outcomes.skip(1),
            now,
            ta,
            la,
            tm,
            lm,
            t1,
            l1,
            sig,
            o,
        );
        assert(signals2.skip(1) =~= signals.skip(1).push(sig));
        assert(outcomes2.skip(1) =~= outcomes.skip(1).push(o));
        assert(signals2[0] == signals[0]);
        assert(outcomes2[0] == outcomes[0]);
        assert(spec_signal_step(strategy, signals2[0], now, t0, l0, outcomes2[0], ta, la));
    }
}

/// The first listed price for the trade id, if any is listed.
pub open spec fn spec_lookup(prices: Seq<(u64, i64)>, id: u64) -> Option<i64>
    decreases prices.len(),
{
    if prices.len() == 0 {
        None
    } else if prices[0].0 == id {
        Some(prices[0].1)
    } else {
        spec_lookup(prices.skip(1), id)
    }
}

/// One close of the open trade under `id` at price `p`: the closed
/// trade and the released capital when the price is valid and the
/// release fits the strategy's entry; otherwise the tables unchanged
/// and the third component true — the attempt failed and is reported.
pub open spec fn spec_close_applied(
    t: Map<u64, Trade>,
    l: Map<u64, StrategyBudget>,
    id: u64,
    p: i64,
    now: i64,
) -> (Map<u64, Trade>, Map<u64, StrategyBudget>, bool) {
    let tr = t[id];
    let profit = profit_of(tr.side, tr.amount as int, tr.entry_price->0 as int, p as int);
    if valid_price(p as int) && l.contains_key(tr.strategy_id) && op_release_admitted(
        l[tr.strategy_id].available as int,
        l[tr.strategy_id].allocated as int,
        tr.cost as int,
        profit,
    ) {
        (
            t.insert(id, spec_closed(tr, p, profit as i64, now)),
            l.insert(
                tr.strategy_id,
                apply_op(
                    l[tr.strategy_id],
                    LedgerOp::Release { cost: tr.cost as int, profit, now: now as int },
                ),
            ),
            false,
        )
    } else {
        (t, l, true)
    }
}

/// What one monitoring step does for the pair `(id, p)`: nothing
/// unless the trade exists, is open and its close conditions are
/// crossed at `p`; then exactly [`spec_close_applied`].
pub open spec fn spec_price_attempt(
    t: Map<u64, Trade>,
    l: Map<u64, StrategyBudget>,
    id: u64,
    p: i64,
    now: i64,
) -> (Map<u64, Trade>, Map<u64, StrategyBudget>, bool) {
    if !t.contains_key(id) || !(t[id].status is Open) || !close_condition(
        t[id].side,
        t[id].entry_price->0 as int,
        t[id].stop_loss,
        t[id].take_profit,
        t[id].trailing_stop,
        p as int,
    ) {
        (t, l, false)
    } else {
        spec_close_applied(t, l, id, p, now)
    }
}

/// A whole monitoring pass over the price list, left to right: the
/// tables after it, and the ids whose close attempt failed, in order.
pub open spec fn spec_monitor_pass(
    t: Map<u64, Trade>,
    l: Map<u64, StrategyBudget>,
    prices: Seq<(u64, i64)>,
    now: i64,
) -> (Map<u64, Trade>, Map<u64, StrategyBudget>, Seq<u64>)
    decreases prices.len(),
{
    if prices.len() == 0 {
        (t, l, Seq::<u64>::empty())
    } else {
        let step = spec_price_attempt(t, l, prices[0].0, prices[0].1, now);
        let rest = spec_monitor_pass(step.0, step.1, prices.skip(1), now);
        (
            rest.0,
            rest.1,
            if step.2 {
                seq![prices[0].0] + rest.2
            } else {
                rest.2
            },
        )
    }
}

proof fn lemma_monitor_pass_snoc(
    t: Map<u64, Trade>,
    l: Map<u64, StrategyBudget>,
    prices: Seq<(u64, i64)>,
    pair: (u64, i64),
    now: i64,
)
    ensures
        ({
            let mid = spec_monitor_pass(t, l, prices, now);
            let step = spec_price_attempt(mid.0, mid.1, pair.0, pair.1, now);
            let whole = spec_monitor_pass(t, l, prices.push(pair), now);
            &&& whole.0 == step.0
            &&& whole.1 == step.1
            &&& whole.2 == mid.2 + (if step.2 {
                seq![pair.0]
            } else {
                Seq::<u64>::empty()
            })
        }),
    decreases prices.len(),
{
    let prices2 = prices.push(pair);
    if prices.len() == 0 {
        assert(prices =~= Seq::<(u64, i64)>::empty());
        assert(prices2[0] == pair);
        assert(prices2.skip(1) =~= Seq::<(u64, i64)>::empty());
        let step = spec_price_attempt(t, l, pair.0, pair.1, now);
        assert(spec_monitor_pass(t, l, Seq::<(u64, i64)>::empty(), now) == (
            t,
            l,
            Seq::<u64>::empty(),
        ));
        assert(spec_monitor_pass(step.0, step.1, Seq::<(u64, i64)>::empty(), now) == (
            step.0,
            step.1,
            Seq::<u64>::empty(),
        ));
        assert(seq![pair.0] + Seq::<u64>::empty() =~= seq![pair.0]);
        assert(Seq::<u64>::empty() + seq![pair.0] =~= seq![pair.0]);
        assert(Seq::<u64>::empty() + Seq::<u64>::empty() =~= Seq::<u64>::empty());
    } else {
        assert(prices2[0] == prices[0]);
        assert(prices2.skip(1) =~= prices.skip(1).push(pair));
        let head = spec_price_attempt(t, l, prices[0].0, prices[0].1, now);
        lemma_monitor_pass_snoc(head.0, head.1, prices.skip(1), pair, now);
        let mid_rest = spec_monitor_pass(head.0, head.1, prices.skip(1), now);
        let mid = spec_monitor_pass(t, l, prices, now);
        let step = spec_price_attempt(mid.0, mid.1, pair.0, pair.1, now);
        assert(mid.0 == mid_rest.0 && mid.1 == mid_rest.1);
        if head.2 {
            assert(mid.2 =~= seq![prices[0].0] + mid_rest.2);
            assert(mid.2 + (if step.2 {
                seq![pair.0]
            } else {
                Seq::<u64>::empty()
            }) =~= seq![prices[0].0] + (mid_rest.2 + (if step.2 {
                seq![pair.0]
            } else {
                Seq::<u64>::empty()
            })));
        } else {
            assert(mid.2 =~= mid_rest.2);
        }
        assert(spec_monitor_pass(t, l, prices2, now).2 =~= mid.2 + (if step.2 {
            seq![pair.0]
        } else {
            Seq::<u64>::empty()
        }));
    }
}

/// What one cleanup step does for the trade under `id`: nothing unless
/// it exists and is still open; then exactly [`spec_close_applied`] at
/// its first listed price, or at its entry price when none is listed.
pub open spec fn spec_force_close(
    t: Map<u64, Trade>,
    l: Map<u64, StrategyBudget>,
    id: u64,
    prices: Seq<(u64, i64)>,
    now: i64,
) -> (Map<u64, Trade>, Map<u64, StrategyBudget>, bool) {
    if !t.contains_key(id) || !(t[id].status is Open) {
        (t, l, false)
    } else {
        let p = match spec_lookup(prices, id) {
            Some(p) => p,
            None => t[id].entry_price->0,
        };
        spec_close_applied(t, l, id, p, now)
    }
}

/// A whole cleanup pass over the listed trade ids, left to right: the
/// tables after it, and the ids whose close attempt failed, in order.
pub open spec fn spec_cleanup_pass(
    t: Map<u64, Trade>,
    l: Map<u64, StrategyBudget>,
    ids: Seq<u64>,
    prices: Seq<(u64, i64)>,
    now: i64,
) -> (Map<u64, Trade>, Map<u64, StrategyBudget>, Seq<u64>)
    decreases ids.len(),
{
    if ids.len() == 0 {
        (t, l, Seq::<u64>::empty())
    } else {
        let step = spec_force_close(t, l, ids[0], prices, now);
        let rest = spec_cleanup_pass(step.0, step.1, ids.skip(1), prices, now);
        (
            rest.0,
            rest.1,
            if step.2 {
                seq![ids[0]] + rest.2
            } else {
                rest.2
            },
        )
    }
}

proof fn lemma_cleanup_pass_snoc(
    t: Map<u64, Trade>,
    l: Map<u64, StrategyBudget>,
    ids: Seq<u64>,
    x: u64,
    prices: Seq<(u64, i64)>,
    now: i64,
)
    ensures
        ({
            let mid = spec_cleanup_pass(t, l, ids, prices, now);
            let step = spec_force_close(mid.0, mid.1, x, prices, now);
            let whole = spec_cleanup_pass(t, l, ids.push(x), prices, now);
            &&& whole.0 == step.0
            &&& whole.1 == step.1
            &&& whole.2 == mid.2 + (if step.2 {
                seq![x]
            } else {
                Seq::<u64>::empty()
            })
        }),
    decreases ids.len(),
{
    let ids2 = ids.push(x);
    if ids.len() == 0 {
        assert(ids2[0] == x);
        assert(ids2.skip(1) =~= Seq::<u64>::empty());
        let step = spec_force_close(t, l, x, prices, now);
        assert(spec_cleanup_pass(t, l, ids, prices, now) == (t, l, Seq::<u64>::empty()));
        assert(spec_cleanup_pass(step.0, step.1, Seq::<u64>::empty(), prices, now) == (
            step.0,
            step.1,
            Seq::<u64>::empty(),
        ));
        assert(seq![x] + Seq::<u64>::empty() =~= seq![x]);
        assert(Seq::<u64>::empty() + seq![x] =~= seq![x]);
        assert(Seq::<u64>::empty() + Seq::<u64>::empty() =~= Seq::<u64>::empty());
    } else {
        assert(ids2[0] == ids[0]);
        assert(ids2.skip(1) =~= ids.skip(1).push(x));
        let head = spec_force_close(t, l, ids[0], prices, now);
        lemma_cleanup_pass_snoc(head.0, head.1, ids.skip(1), x, prices, now);
        let mid_rest = spec_cleanup_pass(head.0, head.1, ids.skip(1), prices, now);
        let mid = spec_cleanup_pass(t, l, ids, prices, now);
        let step = spec_force_close(mid.0, mid.1, x, prices, now);
        assert(mid.0 == mid_rest.0 && mid.1 == mid_rest.1);
        if head.2 {
            assert(mid.2 =~= seq![ids[0]] + mid_rest.2);
            assert(mid.2 + (if step.2 {
                seq![x]
            } else {
                Seq::<u64>::empty()
            }) =~= seq![ids[0]] + (mid_rest.2 + (if step.2 {
                seq![x]
            } else {
                Seq::<u64>::empty()
            })));
        } else {
            assert(mid.2 =~= mid_rest.2);
        }
        assert(spec_cleanup_pass(t, l, ids2, prices, now).2 =~= mid.2 + (if step.2 {
            seq![x]
        } else {
            Seq::<u64>::empty()
        }));
    }
}

/// What taking back one reloaded record does: a terminal record is
/// left out silently; a malformed or duplicate one fails; otherwise the
/// record's cost is re-reserved against its strategy's budget entry and
/// the record joins the table — or, when the entry is missing or the
/// reservation does not fit, the record fails and nothing changes.
pub open spec fn spec_restore_step(
    t: Map<u64, Trade>,
    l: Map<u64, StrategyBudget>,
    rec: Trade,
    now: i64,
) -> (Map<u64, Trade>, Map<u64, StrategyBudget>, bool) {
    if rec.status is Closed {
        (t, l, false)
    } else if !rec.wf() || t.contains_key(rec.id) {
        (t, l, true)
    } else if l.contains_key(rec.strategy_id) && op_reserve_admitted(
        l[rec.strategy_id].available as int,
        l[rec.strategy_id].allocated as int,
        rec.cost as int,
    ) {
        (
            t.insert(rec.id, rec),
            l.insert(
                rec.strategy_id,
                apply_op(
                    l[rec.strategy_id],
                    LedgerOp::Reserve { amount: rec.cost as int, now: now as int },
                ),
            ),
            false,
        )
    } else {
        (t, l, true)
    }
}

/// A whole reload pass over the persisted records, left to right: the
/// tables after it, and the ids of the records that could not be taken
/// back, in order.
pub open spec fn spec_reload(
    t: Map<u64, Trade>,
    l: Map<u64, StrategyBudget>,
    records: Seq<Trade>,
    now: i64,
) -> (Map<u64, Trade>, Map<u64, StrategyBudget>, Seq<u64>)
    decreases records.len(),
{
    if records.len() == 0 {
        (t, l, Seq::<u64>::empty())
    } else {
        let step = spec_restore_step(t, l, records[0], now);
        let rest = spec_reload(step.0, step.1, records.skip(1), now);
        (
            rest.0,
            rest.1,
            if step.2 {
                seq![records[0].id] + rest.2
            } else {
                rest.2
            },
        )
    }
}

proof fn lemma_reload_snoc(
    t: Map<u64, Trade>,
    l: Map<u64, StrategyBudget>,
    records: Seq<Trade>,
    rec: Trade,
    now: i64,
)
    ensures
        ({
            let mid = spec_reload(t, l, records, now);
            let step = spec_restore_step(mid.0, mid.1, rec, now);
            let whole = spec_reload(t, l, records.push(rec), now);
            &&& whole.0 == step.0
            &&& whole.1 == step.1
            &&& whole.2 == mid.2 + (if step.2 {
                seq![rec.id]
            } else {
                Seq::<u64>::empty()
            })
        }),
    decreases records.len(),
{
    let records2 = records.push(rec);
    if records.len() == 0 {
        assert(records2[0] == rec);
        assert(records2.skip(1) =~= Seq::<Trade>::empty());
        let step = spec_restore_step(t, l, rec, now);
        assert(spec_reload(t, l, records, now) == (t, l, Seq::<u64>::empty()));
        assert(spec_reload(step.0, step.1, Seq::<Trade>::empty(), now) == (
            step.0,
            step.1,
            Seq::<u64>::empty(),
        ));
        assert(seq![rec.id] + Seq::<u64>::empty() =~= seq![rec.id]);
        assert(Seq::<u64>::empty() + seq![rec.id] =~= seq![rec.id]);
        assert(Seq::<u64>::empty() + Seq::<u64>::empty() =~= Seq::<u64>::empty());
    } else {
        assert(records2[0] == records[0]);
        assert(records2.skip(1) =~= records.skip(1).push(rec));
        let head = spec_restore_step(t, l, records[0], now);
        lemma_reload_snoc(head.0, head.1, records.skip(1), rec, now);
        let mid_rest = spec_reload(head.0, head.1, records.skip(1), now);
        let mid = spec_reload(t, l, records, now);
        let step = spec_restore_step(mid.0, mid.1, rec, now);
        assert(mid.0 == mid_rest.0 && mid.1 == mid_rest.1);
        if head.2 {
            assert(mid.2 =~= seq![records[0].id] + mid_rest.2);
            assert(mid.2 + (if step.2 {
                seq![rec.id]
            } else {
                Seq::<u64>::empty()
            }) =~= seq![records[0].id] + (mid_rest.2 + (if step.2 {
                seq![rec.id]
            } else {
                Seq::<u64>::empty()
            })));
        } else {
            assert(mid.2 =~= mid_rest.2);
        }
        assert(spec_reload(t, l, records2, now).2 =~= mid.2 + (if step.2 {
            seq![rec.id]
        } else {
            Seq::<u64>::empty()
        }));
    }
}

/// The background trade engine: the trade table, the budget ledger and
/// the running flag.
pub struct TradeProcessor {
    pub trades: TradeLifecycle,
    pub ledger: BudgetLedger,
    pub is_running: bool,
}

impl TradeProcessor {
    /// Both owned tables are well formed.
    pub open spec fn wf(&self) -> bool {
        &&& self.trades.wf()
        &&& self.ledger.wf()
    }

    /// A stopped processor with empty tables.
    pub fn new() -> (r: Self)
        ensures
            r.wf(),
            r.trades@ == Map::<u64, Trade>::empty(),
            r.ledger@ == Map::<u64, StrategyBudget>::empty(),
            !r.is_running,
    {
        TradeProcessor {
            trades: TradeLifecycle::new(),
            ledger: BudgetLedger::new(),
            is_running: false,
        }
    }

    /// Marks the processor running. Trades are reloaded separately, by
    /// [`Self::load_active_trades`].
    pub fn start(&mut self)
        requires
            old(self).wf(),
        ensures
            final(self).wf(),
            final(self).is_running,
            final(self).trades@ == old(self).trades@,
            final(self).ledger@ == old(self).ledger@,
    {
        self.is_running = true;
    }

    /// Marks the processor stopped; the tables stay as they are.
    pub fn stop(&mut self)
        requires
            old(self).wf(),
        ensures
            final(self).wf(),
            !final(self).is_running,
            final(self).trades@ == old(self).trades@,
            final(self).ledger@ == old(self).ledger@,
    {
        self.is_running = false;
    }

    /// Reconciles the working set with the system of record: every
    /// well-formed reloaded record in a non-terminal status is taken
    /// back, its cost re-reserved against its strategy's budget entry
    /// so that the ledger again accounts for it; terminal records are
    /// left out, and a record that is malformed, already present, or
    /// whose reservation does not fit is reported and skipped.
    pub fn load_active_trades(&mut self, persisted: &Vec<Trade>, now: i64) -> (failures: Vec<
        (u64, ApiError),
    >)
        requires
            old(self).wf(),
        ensures
            final(self).wf(),
            final(self).is_running == old(self).is_running,
            ({
                let pass = spec_reload(old(self).trades@, old(self).ledger@, persisted@, now);
                &&& final(self).trades@ == pass.0
                &&& final(self).ledger@ == pass.1
                &&& failures@.len() == pass.2.len()
                &&& forall|k: int|
                    0 <= k < failures@.len() ==> (#[trigger] failures@[k]).0 == pass.2[k] && (
                    failures@[k].1 is Validation || failures@[k].1 is NotFound || failures@[k].1
                        is InsufficientBudget || failures@[k].1 is Internal)
            }),
    {
        let mut failures: Vec<(u64, ApiError)> = Vec::new();
        let mut i: usize = 0;
        proof {
            assert(persisted@.take(0) =~= Seq::<Trade>::empty());
        }
        while i < persisted.len()
            invariant
                self.wf(),
                i <= persisted@.len(),
                self.is_running == old(self).is_running,
                ({
                    let pass = spec_reload(
                        old(self).trades@,
                        old(self).ledger@,
                        persisted@.take(i as int),
                        now,
                    );
                    &&& self.trades@ == pass.0
                    &&& self.ledger@ == pass.1
                    &&& failures@.len() == pass.2.len()
                    &&& forall|k: int|
                        0 <= k < failures@.len() ==> (#[trigger] failures@[k]).0 == pass.2[k] && (
                        failures@[k].1 is Validation || failures@[k].1 is NotFound
                            || failures@[k].1 is InsufficientBudget || failures@[k].1 is Internal)
                }),
            decreases persisted@.len() - i,
        {
            let rec = &persisted[i];
            let ghost trades_before = self.trades@;
            let ghost ledger_before = self.ledger@;
            let ghost failures_before = failures@;
            if matches!(rec.status, TradeStatus::Closed) {
                // Terminal records are not part of the working set.
            } else if !trade_checks_out(rec) || self.trades.contains(rec.id) {
                failures.push(
                    (rec.id, ApiError::Validation("trade record cannot be restored".to_owned())),
                );
            } else {
                match self.ledger.reserve(rec.strategy_id, rec.cost, now) {
                    Ok(()) => {
                        let restored = self.trades.restore(rec.clone());
                        proof {
                            assert(restored is Ok);
                        }
                    },
                    Err(e) => {
                        failures.push((rec.id, e));
                    },
                }
            }
            proof {
                lemma_reload_snoc(
                    old(self).trades@,
                    old(self).ledger@,
                    persisted@.take(i as int),
                    persisted@[i as int],
                    now,
                );
                assert(persisted@.take(i as int).push(persisted@[i as int]) =~= persisted@.take(
                    i as int + 1,
                ));
                let step = spec_restore_step(trades_before, ledger_before, persisted@[i as int], now);
                assert(self.trades@ == step.0 && self.ledger@ == step.1);
                let pass = spec_reload(
                    old(self).trades@,
                    old(self).ledger@,
                    persisted@.take(i as int + 1),
                    now,
                );
                if step.2 {
                    assert(failures@ =~= failures_before.push(failures@[failures@.len() - 1]));
                }
                assert(failures@.len() == pass.2.len());
                assert forall|k: int|
                    0 <= k < failures@.len() implies (#[trigger] failures@[k]).0 == pass.2[k] && (
                    failures@[k].1 is Validation || failures@[k].1 is NotFound || failures@[k].1
                        is InsufficientBudget || failures@[k].1 is Internal) by {
                    if k < failures_before.len() {
                        assert(failures@[k] == failures_before[k]);
                    }
                }
            }
            i = i + 1;
        }
        proof {
            assert(persisted@.take(persisted@.len() as int) =~= persisted@);
        }
        failures
    }

    /// The available capital of the strategy, zero when it has no
    /// budget entry.
    pub fn get_available_budget(&self, strategy_id: u64) -> (r: i64)
        ensures
            r as int == avail_of(self.ledger@, strategy_id),
    {
        match self.ledger.get(strategy_id) {
            Some(a) => a,
            None => 0,
        }
    }

    /// Seeds the budget entry of a newly registered strategy with its
    /// capital. Registering an already-tracked strategy changes
    /// nothing, so repeated registration is idempotent.
    pub fn initialize_strategy(&mut self, strategy: &Strategy, now: i64) -> (r: Result<
        (),
        ApiError,
    >)
        requires
            old(self).wf(),
        ensures
            final(self).wf(),
            final(self).trades@ == old(self).trades@,
            final(self).is_running == old(self).is_running,
            !strategy.wf() ==> (r matches Err(e) && e is Validation) && final(self).ledger@ == old(self).ledger@,
            strategy.wf() && old(self).ledger@.contains_key(strategy.id) ==> r is Ok && final(self).ledger@ == old(self).ledger@,
            strategy.wf() && !old(self).ledger@.contains_key(strategy.id) ==> r is Ok && final(self).ledger@ == old(self).ledger@.insert(
                strategy.id,
                StrategyBudget {
                    strategy_id: strategy.id,
                    total: strategy.budget,
                    allocated: 0,
                    available: strategy.budget,
                    max_position_size: strategy.strategy_config.max_position_size,
                    last_updated: now,
                },
            ),
    {
        self.ledger.initialize(
            strategy.id,
            strategy.budget,
            strategy.strategy_config.max_position_size,
            now,
        )
    }

    /// The immediate-execution policy: whether a freshly created trade
    /// is executed in the same pass. An explicit extension point; the
    /// initial policy always says yes.
    pub fn should_execute_immediately(&self, _trade: &Trade, _sig: &TradeSignal) -> (r: bool)
        ensures
            r,
    {
        true
    }

    /// Turns one signal into a trade: computes its cost, skips it when
    /// the cost exceeds the strategy's available capital, otherwise
    /// creates the trade with its cost reserved and, if the
    /// immediate-execution policy approves, executes it at the
    /// requested price. An error stops only this signal.
    pub fn process_trade_signal(&mut self, strategy: &Strategy, sig: &TradeSignal, now: i64) -> (o:
        SignalOutcome)
        requires
            old(self).wf(),
        ensures
            final(self).wf(),
            final(self).is_running == old(self).is_running,
            spec_signal_step(
                *strategy,
                *sig,
                now,
                old(self).trades@,
                old(self).ledger@,
                o,
                final(self).trades@,
                final(self).ledger@,
            ),
    {
        if sig.amount <= 0 || sig.amount > crate::money::MAX_AMOUNT || sig.price <= 0 || sig.price
            > crate::money::MAX_PRICE {
            return SignalOutcome::Failed(
                ApiError::Validation("malformed trade signal".to_owned()),
            );
        }
        let cost = crate::money::trade_cost(sig.amount, sig.price);
        let available = self.get_available_budget(strategy.id);
        if cost > available {
            return SignalOutcome::Skipped;
        }
        let id = fresh_id();
        match self.trades.create(
            &mut self.ledger,
            id,
            strategy.id,
            strategy.user_id,
            strategy.market_type,
            sig,
            now,
        ) {
            Ok(()) => {},
            Err(e) => {
                return SignalOutcome::Failed(e);
            },
        }
        let execute_now = match self.trades.get(id) {
            Some(t) => self.should_execute_immediately(t, sig),
            None => {
                proof {
                    assert(false);
                }
                true
            },
        };
        if execute_now {
            let order_id = fresh_id();
            match self.trades.execute(id, None, order_id, now) {
                Ok(()) => {
                    proof {
                        assert(final(self).trades@ =~= old(self).trades@.insert(
                            id,
                            spec_executed(
                                spec_created(
                                    id,
                                    strategy.id,
                                    strategy.user_id,
                                    strategy.market_type,
                                    *sig,
                                    now,
                                ),
                                sig.price,
                                order_id,
                                now,
                            ),
                        ));
                    }
                    SignalOutcome::Executed { trade_id: id }
                },
                Err(_e) => {
                    proof {
                        assert(false);
                    }
                    SignalOutcome::Skipped
                },
            }
        } else {
            SignalOutcome::Created { trade_id: id }
        }
    }

    /// One generation pass for a strategy: nothing happens unless it is
    /// active and its available capital reaches the floor; then every
    /// signal is processed independently, and one signal's failure
    /// never aborts its siblings. Only this strategy's budget entry is
    /// touched, existing trades are left alone, and every trade the
    /// pass adds belongs to this strategy.
    pub fn generate_trades_for_strategy(
        &mut self,
        strategy: &Strategy,
        signals: &Vec<TradeSignal>,
        now: i64,
    ) -> (r: GenerationOutcome)
        requires
            old(self).wf(),
        ensures
            final(self).wf(),
            final(self).is_running == old(self).is_running,
            !(strategy.status is Active) ==> r is Inactive && final(self).trades@ == old(self).trades@ && final(self).ledger@ == old(self).ledger@,
            strategy.status is Active && avail_of(old(self).ledger@, strategy.id) < MIN_TRADE_COST
                ==> r is BudgetTooLow && final(self).trades@ == old(self).trades@ && final(self).ledger@ == old(self).ledger@,
            strategy.status is Active && avail_of(old(self).ledger@, strategy.id)
                >= MIN_TRADE_COST ==> (r matches GenerationOutcome::Processed(os) && os@.len()
                == signals@.len()),
            r matches GenerationOutcome::Processed(os) ==> spec_signals_processed(
                *strategy,
                signals@,
                os@,
                now,
                old(self).trades@,
                old(self).ledger@,
                final(self).trades@,
                final(self).ledger@,
            ),
            forall|id: u64|
                #![trigger old(self).trades@.contains_key(id)]
                old(self).trades@.contains_key(id) ==> final(self).trades@.contains_key(id)
                    && final(self).trades@[id] == old(self).trades@[id],
            forall|id: u64|
                final(self).trades@.contains_key(id) && !old(self).trades@.contains_key(id) ==> (
                #[trigger] final(self).trades@[id]).strategy_id == strategy.id,
            forall|s: u64|
                #![trigger old(self).ledger@.contains_key(s)]
                s != strategy.id ==> (final(self).ledger@.contains_key(s) <==> old(self).ledger@.contains_key(s)) && (old(self).ledger@.contains_key(s) ==> final(self).ledger@[s] == old(self).ledger@[s]),
    {
        if !matches!(strategy.status, StrategyStatus::Active) {
            return GenerationOutcome::Inactive;
        }
        let available = self.get_available_budget(strategy.id);
        if available < MIN_TRADE_COST {
            return GenerationOutcome::BudgetTooLow;
        }
        let mut outcomes: Vec<SignalOutcome> = Vec::new();
        let mut i: usize = 0;
        proof {
            assert(signals@.take(0) =~= Seq::<TradeSignal>::empty());
        }
        while i < signals.len()
            invariant
                self.wf(),
                i <= signals@.len(),
                outcomes@.len() == i,
                self.is_running == old(self).is_running,
                spec_signals_processed(
                    *strategy,
                    signals@.take(i as int),
                    outcomes@,
                    now,
                    old(self).trades@,
                    old(self).ledger@,
                    self.trades@,
                    self.ledger@,
                ),
                forall|id: u64|
                    #![trigger old(self).trades@.contains_key(id)]
                    old(self).trades@.contains_key(id) ==> self.trades@.contains_key(id)
                        && self.trades@[id] == old(self).trades@[id],
                forall|id: u64|
                    self.trades@.contains_key(id) && !old(self).trades@.contains_key(id) ==> (
                    #[trigger] self.trades@[id]).strategy_id == strategy.id,
                forall|s: u64|
                    #![trigger old(self).ledger@.contains_key(s)]
                    s != strategy.id ==> (self.ledger@.contains_key(s) <==> old(self).ledger@.contains_key(s)) && (old(self).ledger@.contains_key(s)
                        ==> self.ledger@[s] == old(self).ledger@[s]),
            decreases signals@.len() - i,
        {
            let ghost trades_before = self.trades@;
            let ghost ledger_before = self.ledger@;
            let ghost outcomes_before = outcomes@;
            let outcome = self.process_trade_signal(strategy, &signals[i], now);
            let ghost step_outcome = outcome;
            outcomes.push(outcome);
            proof {
                lemma_signals_processed_snoc(
                    *strategy,
                    signals@.take(i as int),
                    outcomes_before,
                    now,
                    old(self).trades@,
                    old(self).ledger@,
                    trades_before,
                    ledger_before,
                    self.trades@,
                    self.ledger@,
                    signals@[i as int],
                    step_outcome,
                );
                assert(signals@.take(i as int).push(signals@[i as int]) =~= signals@.take(
                    i as int + 1,
                ));
                assert(outcomes@ =~= outcomes_before.push(step_outcome));
            }
            i = i + 1;
        }
        proof {
            assert(signals@.take(signals@.len() as int) =~= signals@);
        }
        GenerationOutcome::Processed(outcomes)
    }

    /// One monitoring pass over the open trades, against the latest
    /// prices, given as pairs of trade id and price. A trade whose
    /// close conditions are crossed at its listed price is closed at
    /// that price — leaving the active working set, since that set is
    /// the non-terminal subset of the table; its terminal record stays
    /// until persisted and deleted. Everything else is left exactly as
    /// it was; a single trade's failure is reported and never blocks
    /// the others.
    pub fn monitor_open_trades(&mut self, live_prices: &Vec<(u64, i64)>, now: i64) -> (failures:
        Vec<(u64, ApiError)>)
        requires
            old(self).wf(),
        ensures
            final(self).wf(),
            final(self).is_running == old(self).is_running,
            ({
                let pass = spec_monitor_pass(old(self).trades@, old(self).ledger@, live_prices@, now);
                &&& final(self).trades@ == pass.0
                &&& final(self).ledger@ == pass.1
                &&& failures@.len() == pass.2.len()
                &&& forall|k: int|
                    0 <= k < failures@.len() ==> (#[trigger] failures@[k]).0 == pass.2[k] && (
                    failures@[k].1 is Validation || failures@[k].1 is NotFound || failures@[k].1
                        is Internal)
            }),
    {
        let mut failures: Vec<(u64, ApiError)> = Vec::new();
        let mut i: usize = 0;
        proof {
            assert(live_prices@.take(0) =~= Seq::<(u64, i64)>::empty());
        }
        while i < live_prices.len()
            invariant
                self.wf(),
                i <= live_prices@.len(),
                self.is_running == old(self).is_running,
                ({
                    let pass = spec_monitor_pass(
                        old(self).trades@,
                        old(self).ledger@,
                        live_prices@.take(i as int),
                        now,
                    );
                    &&& self.trades@ == pass.0
                    &&& self.ledger@ == pass.1
                    &&& failures@.len() == pass.2.len()
                    &&& forall|k: int|
                        0 <= k < failures@.len() ==> (#[trigger] failures@[k]).0 == pass.2[k] && (
                        failures@[k].1 is Validation || failures@[k].1 is NotFound
                            || failures@[k].1 is Internal)
                }),
            decreases live_prices@.len() - i,
        {
            let pair = live_prices[i];
            let id = pair.0;
            let price = pair.1;
            let ghost trades_before = self.trades@;
            let ghost ledger_before = self.ledger@;
            let ghost failures_before = failures@;
            let crossed = match self.trades.get(id) {
                Some(t) => {
                    matches!(t.status, TradeStatus::Open) && should_close_trade(t, price)
                },
                None => false,
            };
            if crossed {
                match self.trades.close(&mut self.ledger, id, price, now) {
                    Ok(()) => {},
                    Err(e) => {
                        failures.push((id, e));
                    },
                }
            }
            proof {
                lemma_monitor_pass_snoc(
                    old(self).trades@,
                    old(self).ledger@,
                    live_prices@.take(i as int),
                    live_prices@[i as int],
                    now,
                );
                assert(live_prices@.take(i as int).push(live_prices@[i as int])
                    =~= live_prices@.take(i as int + 1));
                let step = spec_price_attempt(trades_before, ledger_before, id, price, now);
                assert(self.trades@ == step.0 && self.ledger@ == step.1);
                let pass = spec_monitor_pass(
                    old(self).trades@,
                    old(self).ledger@,
                    live_prices@.take(i as int + 1),
                    now,
                );
                if step.2 {
                    assert(failures@ =~= failures_before.push(failures@[failures@.len() - 1]));
                }
                assert(failures@.len() == pass.2.len());
                assert forall|k: int|
                    0 <= k < failures@.len() implies (#[trigger] failures@[k]).0 == pass.2[k] && (
                    failures@[k].1 is Validation || failures@[k].1 is NotFound || failures@[k].1
                        is Internal) by {
                    if k < failures_before.len() {
                        assert(failures@[k] == failures_before[k]);
                    }
                }
            }
            i = i + 1;
        }
        proof {
            assert(live_prices@.take(live_prices@.len() as int) =~= live_prices@);
        }
        failures
    }

    /// Evaluates one trade's close conditions at the latest price and
    /// closes it when they are crossed. Returns whether the trade was
    /// closed; a missing trade is reported as `NotFound`.
    pub fn check_trade_conditions(&mut self, id: u64, price: i64, now: i64) -> (r: Result<
        bool,
        ApiError,
    >)
        requires
            old(self).wf(),
        ensures
            final(self).wf(),
            final(self).is_running == old(self).is_running,
            !old(self).trades@.contains_key(id) ==> (r matches Err(e) && e is NotFound) && final(self).trades@ == old(self).trades@ && final(self).ledger@ == old(self).ledger@,
            old(self).trades@.contains_key(id) && !(old(self).trades@[id].status is Open
                && close_condition(
                old(self).trades@[id].side,
                old(self).trades@[id].entry_price->0 as int,
                old(self).trades@[id].stop_loss,
                old(self).trades@[id].take_profit,
                old(self).trades@[id].trailing_stop,
                price as int,
            )) ==> (r matches Ok(closed) && closed == false) && final(self).trades@ == old(self).trades@ && final(self).ledger@ == old(self).ledger@,
            (r matches Ok(closed) && closed) ==> {
                let t0 = old(self).trades@[id];
                &&& old(self).trades@.contains_key(id)
                &&& t0.status is Open
                &&& final(self).trades@ == old(self).trades@.insert(
                    id,
                    spec_closed(
                        t0,
                        price,
                        profit_of(
                            t0.side,
                            t0.amount as int,
                            t0.entry_price->0 as int,
                            price as int,
                        ) as i64,
                        now,
                    ),
                )
            },
            r is Err ==> final(self).trades@ == old(self).trades@ && final(self).ledger@ == old(self).ledger@,
            old(self).trades@.contains_key(id) && old(self).trades@[id].status is Open
                && close_condition(
                old(self).trades@[id].side,
                old(self).trades@[id].entry_price->0 as int,
                old(self).trades@[id].stop_loss,
                old(self).trades@[id].take_profit,
                old(self).trades@[id].trailing_stop,
                price as int,
            ) && valid_price(price as int) && old(self).ledger@.contains_key(
                old(self).trades@[id].strategy_id,
            ) && op_release_admitted(
                old(self).ledger@[old(self).trades@[id].strategy_id].available as int,
                old(self).ledger@[old(self).trades@[id].strategy_id].allocated as int,
                old(self).trades@[id].cost as int,
                profit_of(
                    old(self).trades@[id].side,
                    old(self).trades@[id].amount as int,
                    old(self).trades@[id].entry_price->0 as int,
                    price as int,
                ),
            ) ==> (r matches Ok(closed) && closed),
    {
        let crossed = match self.trades.get(id) {
            Some(t) => {
                if matches!(t.status, TradeStatus::Open) {
                    should_close_trade(t, price)
                } else {
                    false
                }
            },
            None => {
                return Err(ApiError::NotFound("no trade under this id".to_owned()));
            },
        };
        if crossed {
            match self.trades.close(&mut self.ledger, id, price, now) {
                Ok(()) => Ok(true),
                Err(e) => Err(e),
            }
        } else {
            Ok(false)
        }
    }

    /// Removes the strategy from trade processing: force-closes every
    /// still-open trade belonging to it — at its listed latest price,
    /// or at its entry price when none is listed — and only then drops
    /// the strategy's budget entry. A trade that cannot be closed is
    /// reported and cleanup goes on.
    pub fn cleanup_strategy(
        &mut self,
        strategy_id: u64,
        live_prices: &Vec<(u64, i64)>,
        now: i64,
    ) -> (failures: Vec<(u64, ApiError)>)
        requires
            old(self).wf(),
        ensures
            final(self).wf(),
            final(self).is_running == old(self).is_running,
            !final(self).ledger@.contains_key(strategy_id),
            forall|s: u64|
                s != strategy_id ==> (final(self).ledger@.contains_key(s) <==> old(self).ledger@.contains_key(s)) && (old(self).ledger@.contains_key(s) ==> final(self).ledger@[s] == old(self).ledger@[s]),
            forall|id: u64|
                final(self).trades@.contains_key(id) <==> old(self).trades@.contains_key(id),
            forall|id: u64|
                old(self).trades@.contains_key(id) && old(self).trades@[id].strategy_id
                    == strategy_id && old(self).trades@[id].status is Open ==> ((
                #[trigger] final(self).trades@[id]).status is Closed || exists|k: int|
                    0 <= k < failures@.len() && failures@[k].0 == id),
            forall|id: u64|
                old(self).trades@.contains_key(id) && !(old(self).trades@[id].strategy_id
                    == strategy_id && old(self).trades@[id].status is Open) ==> final(self).trades@[id] == old(self).trades@[id],
            ({
                let open_ids = spec_open_ids(
                    old(self).trades.ids_view(),
                    old(self).trades@,
                    strategy_id,
                );
                let pass = spec_cleanup_pass(
                    old(self).trades@,
                    old(self).ledger@,
                    open_ids,
                    live_prices@,
                    now,
                );
                &&& final(self).trades@ == pass.0
                &&& final(self).ledger@ == pass.1.remove(strategy_id)
                &&& failures@.len() == pass.2.len()
                &&& forall|k: int|
                    0 <= k < failures@.len() ==> (#[trigger] failures@[k]).0 == pass.2[k] && (
                    failures@[k].1 is Validation || failures@[k].1 is NotFound || failures@[k].1
                        is Internal)
            }),
    {
        let ids = self.trades.open_trades_of(strategy_id);
        let mut failures: Vec<(u64, ApiError)> = Vec::new();
        let mut i: usize = 0;
        proof {
            assert(ids@.take(0) =~= Seq::<u64>::empty());
        }
        while i < ids.len()
            invariant
                self.wf(),
                i <= ids@.len(),
                self.is_running == old(self).is_running,
                ids@ == spec_open_ids(old(self).trades.ids_view(), old(self).trades@, strategy_id),
                ({
                    let pass = spec_cleanup_pass(
                        old(self).trades@,
                        old(self).ledger@,
                        ids@.take(i as int),
                        live_prices@,
                        now,
                    );
                    &&& self.trades@ == pass.0
                    &&& self.ledger@ == pass.1
                    &&& failures@.len() == pass.2.len()
                    &&& forall|k: int|
                        0 <= k < failures@.len() ==> (#[trigger] failures@[k]).0 == pass.2[k] && (
                        failures@[k].1 is Validation || failures@[k].1 is NotFound
                            || failures@[k].1 is Internal)
                }),
                forall|k: int|
                    0 <= k < ids@.len() ==> old(self).trades@.contains_key(#[trigger] ids@[k])
                        && old(self).trades@[ids@[k]].strategy_id == strategy_id && old(self).trades@[ids@[k]].status is Open,
                forall|id: u64|
                    old(self).trades@.contains_key(id) && old(self).trades@[id].strategy_id
                        == strategy_id && old(self).trades@[id].status is Open ==> ids@.contains(
                        id,
                    ),
                forall|id: u64|
                    self.trades@.contains_key(id) <==> old(self).trades@.contains_key(id),
                forall|s: u64|
                    self.ledger@.contains_key(s) <==> old(self).ledger@.contains_key(s),
                forall|s: u64|
                    s != strategy_id ==> (old(self).ledger@.contains_key(s) ==> self.ledger@[s]
                        == old(self).ledger@[s]),
                forall|id: u64|
                    old(self).trades@.contains_key(id) && !(old(self).trades@[id].strategy_id
                        == strategy_id && old(self).trades@[id].status is Open)
                        ==> self.trades@[id] == old(self).trades@[id],
                forall|id: u64|
                    old(self).trades@.contains_key(id) ==> self.trades@[id] == old(self).trades@[id] || (#[trigger] self.trades@[id]).status is Closed,
                forall|j: int|
                    0 <= j < i ==> ((#[trigger] self.trades@[ids@[j]]).status is Closed || exists|
                        k: int,
                    |
                        0 <= k < failures@.len() && failures@[k].0 == ids@[j]),
            decreases ids@.len() - i,
        {
            let id = ids[i];
            let ghost trades_before = self.trades@;
            let ghost ledger_before = self.ledger@;
            let ghost failures_before = failures@;
            let (still_open, fallback) = match self.trades.get(id) {
                Some(t) => {
                    let fb = match t.entry_price {
                        Some(p) => p,
                        None => {
                            proof {
                                assert(false);
                            }
                            0
                        },
                    };
                    (matches!(t.status, TradeStatus::Open), fb)
                },
                None => {
                    proof {
                        assert(false);
                    }
                    (false, 0)
                },
            };
            if still_open {
                let price = match lookup_price(live_prices, id) {
                    Some(p) => p,
                    None => fallback,
                };
                match self.trades.close(&mut self.ledger, id, price, now) {
                    Ok(()) => {},
                    Err(e) => {
                        failures.push((id, e));
                        proof {
                            assert(failures@[failures@.len() - 1].0 == id);
                        }
                    },
                }
                proof {
                    assert forall|k: int|
                        0 <= k < failures_before.len() implies failures@[k] == failures_before[k]
                    by {}
                }
            }
            proof {
                lemma_cleanup_pass_snoc(
                    old(self).trades@,
                    old(self).ledger@,
                    ids@.take(i as int),
                    ids@[i as int],
                    live_prices@,
                    now,
                );
                assert(ids@.take(i as int).push(ids@[i as int]) =~= ids@.take(i as int + 1));
                let step = spec_force_close(trades_before, ledger_before, id, live_prices@, now);
                assert(self.trades@ == step.0 && self.ledger@ == step.1);
                let pass = spec_cleanup_pass(
                    old(self).trades@,
                    old(self).ledger@,
                    ids@.take(i as int + 1),
                    live_prices@,
                    now,
                );
                if step.2 {
                    assert(failures@ =~= failures_before.push(failures@[failures@.len() - 1]));
                }
                assert(failures@.len() == pass.2.len());
                assert forall|k: int|
                    0 <= k < failures@.len() implies (#[trigger] failures@[k]).0 == pass.2[k] && (
                    failures@[k].1 is Validation || failures@[k].1 is NotFound || failures@[k].1
                        is Internal) by {
                    if k < failures_before.len() {
                        assert(failures@[k] == failures_before[k]);
                    }
                }
            }
            i = i + 1;
        }
        proof {
            assert(ids@.take(ids@.len() as int) =~= ids@);
        }
        self.ledger.remove(strategy_id);
        proof {
            assert forall|id: u64|
                old(self).trades@.contains_key(id) && old(self).trades@[id].strategy_id
                    == strategy_id && old(self).trades@[id].status is Open implies ((
            #[trigger] final(self).trades@[id]).status is Closed || exists|k: int|
                0 <= k < failures@.len() && failures@[k].0 == id) by {
                let j = choose|j: int| 0 <= j < ids@.len() && ids@[j] == id;
            }
        }
        failures
    }

    /// Executes a pending trade at the live fill price, or at its
    /// requested entry price when none is supplied.
    pub fn execute_trade(&mut self, id: u64, live_price: Option<i64>, now: i64) -> (r: Result<
        (),
        ApiError,
    >)
        requires
            old(self).wf(),
        ensures
            final(self).wf(),
            final(self).is_running == old(self).is_running,
            final(self).ledger@ == old(self).ledger@,
            r is Err ==> final(self).trades@ == old(self).trades@,
            !old(self).trades@.contains_key(id) ==> (r matches Err(e) && e is NotFound),
            old(self).trades@.contains_key(id) && !(old(self).trades@[id].status is Pending) ==> (
            r matches Err(e) && e is InvalidState),
            old(self).trades@.contains_key(id) && old(self).trades@[id].status is Pending && (
            match live_price {
                Some(p) => valid_price(p as int),
                None => true,
            }) ==> r is Ok && final(self).trades@ == old(self).trades@.insert(
                id,
                spec_executed(
                    old(self).trades@[id],
                    match live_price {
                        Some(p) => p,
                        None => old(self).trades@[id].entry_price->0,
                    },
                    final(self).trades@[id].order_id->0,
                    now,
                ),
            ),
    {
        let order_id = fresh_id();
        let r = self.trades.execute(id, live_price, order_id, now);
        proof {
            if r is Ok {
                assert(final(self).trades@[id].order_id->0 == order_id);
            }
        }
        r
    }

    /// Closes an open trade at the resolved exit price, releasing its
    /// allocation adjusted by the realized profit. The closed trade
    /// leaves the active working set — the non-terminal subset of the
    /// table — and stays as a terminal record until persisted and
    /// deleted.
    pub fn close_trade(&mut self, id: u64, exit_price: i64, now: i64) -> (r: Result<(), ApiError>)
        requires
            old(self).wf(),
        ensures
            final(self).wf(),
            final(self).is_running == old(self).is_running,
            r is Err ==> final(self).trades@ == old(self).trades@ && final(self).ledger@ == old(self).ledger@,
            !old(self).trades@.contains_key(id) ==> (r matches Err(e) && e is NotFound),
            old(self).trades@.contains_key(id) && !(old(self).trades@[id].status is Open) ==> (
            r matches Err(e) && e is InvalidState),
            r is Ok ==> {
                let t = old(self).trades@[id];
                let profit = profit_of(
                    t.side,
                    t.amount as int,
                    t.entry_price->0 as int,
                    exit_price as int,
                );
                &&& old(self).trades@.contains_key(id)
                &&& t.status is Open
                &&& final(self).trades@ == old(self).trades@.insert(
                    id,
                    spec_closed(t, exit_price, profit as i64, now),
                )
                &&& final(self).ledger@ == old(self).ledger@.insert(
                    t.strategy_id,
                    apply_op(
                        old(self).ledger@[t.strategy_id],
                        LedgerOp::Release { cost: t.cost as int, profit, now: now as int },
                    ),
                )
            },
            old(self).trades@.contains_key(id) && old(self).trades@[id].status is Open
                && valid_price(exit_price as int) && old(self).ledger@.contains_key(
                old(self).trades@[id].strategy_id,
            ) && op_release_admitted(
                old(self).ledger@[old(self).trades@[id].strategy_id].available as int,
                old(self).ledger@[old(self).trades@[id].strategy_id].allocated as int,
                old(self).trades@[id].cost as int,
                profit_of(
                    old(self).trades@[id].side,
                    old(self).trades@[id].amount as int,
                    old(self).trades@[id].entry_price->0 as int,
                    exit_price as int,
                ),
            ) ==> r is Ok,
    {
        self.trades.close(&mut self.ledger, id, exit_price, now)
    }
}

} // verus!
