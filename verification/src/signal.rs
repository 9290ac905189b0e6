//! Candidate trade proposals, as the signal provider hands them in.

use vstd::prelude::*;
use crate::trade::Side;

verus! {

/// A candidate trade produced by the signal provider for a strategy:
/// what to trade, in which direction, how much, at which price, and
/// optionally at which levels to bail out or cash in.
#[derive(Debug)]
pub struct TradeSignal {
    pub symbol: String,
    pub side: Side,
    /// Asset amount in sub-units.
    pub amount: i64,
    /// Requested entry price in quote minor units.
    pub price: i64,
    pub stop_loss: Option<i64>,
    pub take_profit: Option<i64>,
    pub trailing_stop: Option<i64>,
    pub leverage: Option<i64>,
    /// Confidence of the provider, in basis points.
    pub confidence_bp: Option<i64>,
    /// Opaque passthrough for anything else the provider attaches.
    pub extra: String,
}

impl Clone for TradeSignal {
    /// An exact copy.
    fn clone(&self) -> (res: Self)
        ensures
            res == *self,
    {
        TradeSignal {
            symbol: self.symbol.clone(),
            side: self.side,
            amount: self.amount,
            price: self.price,
            stop_loss: self.stop_loss,
            take_profit: self.take_profit,
            trailing_stop: self.trailing_stop,
            leverage: self.leverage,
            confidence_bp: self.confidence_bp,
            extra: self.extra.clone(),
        }
    }
}

} // verus!
