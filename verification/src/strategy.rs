//! The strategy model: a user-defined, parameterized trading policy
//! over a set of symbols.

use vstd::prelude::*;
use crate::trade::MarketType;

verus! {

/// The lifecycle state of a strategy. Only active strategies generate
/// trades.
#[derive(Clone, Copy, Debug, PartialEq, Eq, Structural)]
pub enum StrategyStatus {
    Inactive,
    Active,
}

/// The declared appetite for risk of a strategy.
#[derive(Clone, Copy, Debug, PartialEq, Eq, Structural)]
pub enum RiskLevel {
    Low,
    Medium,
    High,
}

/// The free-form configuration of a strategy: indicator choice,
/// position sizing and exit levels, with an opaque passthrough for
/// anything else. Fractions are in basis points.
#[derive(Debug)]
pub struct StrategyConfig {
    pub indicator_type: String,
    /// Fraction of the budget put into one position, in basis points.
    pub position_size_bp: i64,
    pub max_open_positions: u64,
    /// Stop loss distance from entry, in basis points.
    pub stop_loss_bp: i64,
    /// Take profit distance from entry, in basis points.
    pub take_profit_bp: i64,
    /// Cap on a single position's cost in quote minor units; carried
    /// into the strategy's budget entry.
    pub max_position_size: i64,
    /// Opaque passthrough for forward compatibility.
    pub extra: String,
}

impl Clone for StrategyConfig {
    /// An exact copy.
    fn clone(&self) -> (res: Self)
        ensures
            res == *self,
    {
        StrategyConfig {
            indicator_type: self.indicator_type.clone(),
            position_size_bp: self.position_size_bp,
            max_open_positions: self.max_open_positions,
            stop_loss_bp: self.stop_loss_bp,
            take_profit_bp: self.take_profit_bp,
            max_position_size: self.max_position_size,
            extra: self.extra.clone(),
        }
    }
}

/// A user-defined trading policy: identity, lifecycle status, the
/// market and symbols it trades, its configuration, its initial capital
/// and a performance score in basis points.
#[derive(Debug)]
pub struct Strategy {
    pub id: u64,
    pub user_id: u64,
    pub name: String,
    pub description: Option<String>,
    pub strategy_type: String,
    pub status: StrategyStatus,
    pub risk_level: RiskLevel,
    pub market_type: MarketType,
    pub selected_pairs: Vec<String>,
    pub strategy_config: StrategyConfig,
    /// Performance score, in basis points.
    pub performance_bp: i64,
    pub last_adapted_at: Option<i64>,
    /// Initial capital in quote minor units.
    pub budget: i64,
    pub created_at: Option<i64>,
    pub updated_at: Option<i64>,
}

impl Strategy {
    /// A strategy the background loop accepts: non-negative capital and
    /// position cap.
    pub open spec fn wf(self) -> bool {
        &&& self.budget >= 0
        &&& self.strategy_config.max_position_size >= 0
    }

    /// The symbols the strategy trades.
    pub fn symbols(&self) -> (r: &Vec<String>)
        ensures
            r == self.selected_pairs,
    {
        &self.selected_pairs
    }

    /// Turns the strategy on; only active strategies generate trades.
    pub fn activate(&mut self, now: i64)
        ensures
            *final(self) == (Strategy {
                status: StrategyStatus::Active,
                updated_at: Some(now),
                ..*old(self)
            }),
    {
        self.status = StrategyStatus::Active;
        self.updated_at = Some(now);
    }

    /// Turns the strategy off; its trades and budget entry stay as they
    /// are.
    pub fn deactivate(&mut self, now: i64)
        ensures
            *final(self) == (Strategy {
                status: StrategyStatus::Inactive,
                updated_at: Some(now),
                ..*old(self)
            }),
    {
        self.status = StrategyStatus::Inactive;
        self.updated_at = Some(now);
    }

    /// Replaces the configuration with an adapted one and records when
    /// the adaptation happened.
    pub fn adapt(&mut self, adapted: StrategyConfig, now: i64)
        ensures
            *final(self) == (Strategy {
                strategy_config: adapted,
                last_adapted_at: Some(now),
                updated_at: Some(now),
                ..*old(self)
            }),
    {
        self.strategy_config = adapted;
        self.last_adapted_at = Some(now);
        self.updated_at = Some(now);
    }
}

fn clone_pairs(v: &Vec<String>) -> (r: Vec<String>)
    ensures
        r@ == v@,
{
    let mut r: Vec<String> = Vec::new();
    let mut i: usize = 0;
    while i < v.len()
        invariant
            i <= v.len(),
            r@ == v@.subrange(0, i as int),
        decreases v.len() - i,
    {
        r.push(v[i].clone());
        i = i + 1;
    }
    proof {
        assert(r@ =~= v@);
    }
    r
}

impl Clone for Strategy {
    /// A copy exact in every field; the symbol list is equal as a
    /// sequence.
    fn clone(&self) -> (res: Self)
        ensures
            res.id == self.id,
            res.user_id == self.user_id,
            res.name == self.name,
            res.description == self.description,
            res.strategy_type == self.strategy_type,
            res.status == self.status,
            res.risk_level == self.risk_level,
            res.market_type == self.market_type,
            res.selected_pairs@ == self.selected_pairs@,
            res.strategy_config == self.strategy_config,
            res.performance_bp == self.performance_bp,
            res.last_adapted_at == self.last_adapted_at,
            res.budget == self.budget,
            res.created_at == self.created_at,
            res.updated_at == self.updated_at,
    {
        let res = Strategy {
            id: self.id,
            user_id: self.user_id,
            name: self.name.clone(),
            description: match &self.description {
                Some(d) => Some(d.clone()),
                None => None,
            },
            strategy_type: self.strategy_type.clone(),
            status: self.status,
            risk_level: self.risk_level,
            market_type: self.market_type,
            selected_pairs: clone_pairs(&self.selected_pairs),
            strategy_config: self.strategy_config.clone(),
            performance_bp: self.performance_bp,
            last_adapted_at: self.last_adapted_at,
            budget: self.budget,
            created_at: self.created_at,
            updated_at: self.updated_at,
        };
        res
    }
}

/// The kind a strategy has when none is named.
pub fn default_type() -> (r: String)
    ensures
        r@ == "custom"@,
{
    "custom".to_owned()
}

/// The lifecycle state a strategy starts in when none is named.
pub fn default_status() -> (r: StrategyStatus)
    ensures
        r == StrategyStatus::Inactive,
{
    StrategyStatus::Inactive
}

/// The risk appetite a strategy has when none is named.
pub fn default_risk_level() -> (r: RiskLevel)
    ensures
        r == RiskLevel::Medium,
{
    RiskLevel::Medium
}

/// The symbols a strategy trades when none are named.
pub fn default_selected_pairs() -> (r: Vec<String>)
    ensures
        r@.len() == 1,
        r@[0]@ == "BTC/USDT"@,
{
    let mut r: Vec<String> = Vec::new();
    r.push("BTC/USDT".to_owned());
    r
}

/// The configuration a strategy starts with when none is given:
/// momentum trading, a tenth of the budget per position, one open
/// position, a two percent stop loss and a four percent take profit.
pub fn default_strategy_config() -> (r: StrategyConfig)
    ensures
        r.indicator_type@ == "momentum"@,
        r.position_size_bp == 1000,
        r.max_open_positions == 1,
        r.stop_loss_bp == 200,
        r.take_profit_bp == 400,
        r.max_position_size == 0,
        r.extra@ == ""@,
{
    StrategyConfig {
        indicator_type: "momentum".to_owned(),
        position_size_bp: 1000,
        max_open_positions: 1,
        stop_loss_bp: 200,
        take_profit_bp: 400,
        max_position_size: 0,
        extra: "".to_owned(),
    }
}

} // verus!
