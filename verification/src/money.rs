//! Integer money arithmetic.
//!
//! An asset amount is a fixed-point integer scaled by [`AMOUNT_SCALE`]
//! (so `1_000_000` stands for 0.01 of the asset). Prices and all
//! quantities of capital (budgets, costs, profits) are in minor units
//! of the quote currency. The cost of a trade is
//! `amount * price / AMOUNT_SCALE`, rounded toward zero.

use vstd::prelude::*;

verus! {

/// Fixed-point scale of asset amounts: 10^8 sub-units per asset unit.
pub const AMOUNT_SCALE: i64 = 100_000_000;

/// Largest accepted asset amount (10^4 asset units), a machine limit
/// that keeps `amount * price` within `u128` comfortably and the cost
/// within `i64`.
pub const MAX_AMOUNT: i64 = 1_000_000_000_000;

/// Largest accepted price in minor units, a machine limit chosen so
/// that `MAX_AMOUNT * MAX_PRICE / AMOUNT_SCALE` fits in `i64`.
pub const MAX_PRICE: i64 = 1_000_000_000_000;

/// An asset amount a trade may carry: positive and within the cap.
pub open spec fn valid_amount(amount: int) -> bool {
    0 < amount <= MAX_AMOUNT as int
}

/// A price a trade or signal may carry: positive and within the cap.
pub open spec fn valid_price(price: int) -> bool {
    0 < price <= MAX_PRICE as int
}

/// Cost in quote minor units of `amount` asset sub-units at `price`.
pub open spec fn cost_of(amount: int, price: int) -> int {
    amount * price / (AMOUNT_SCALE as int)
}

proof fn lemma_cost_bounds(amount: int, price: int)
    requires
        valid_amount(amount),
        valid_price(price),
    ensures
        0 <= cost_of(amount, price) <= 10_000_000_000_000_000,
        cost_of(amount, price) <= amount * price,
{
    assert(0 < amount * price <= 1_000_000_000_000_000_000_000_000int) by (nonlinear_arith)
        requires
            0 < amount <= 1_000_000_000_000int,
            0 < price <= 1_000_000_000_000int,
    ;
    let p = amount * price;
    assert(0 <= p / 100_000_000int <= p && p / 100_000_000int <= 10_000_000_000_000_000)
        by (nonlinear_arith)
        requires
            0 < p <= 1_000_000_000_000_000_000_000_000int,
    ;
}

/// Cost in quote minor units of a trade of `amount` at `price`.
pub fn trade_cost(amount: i64, price: i64) -> (c: i64)
    requires
        valid_amount(amount as int),
        valid_price(price as int),
    ensures
        c == cost_of(amount as int, price as int),
        0 <= c <= 10_000_000_000_000_000,
{
    proof {
        lemma_cost_bounds(amount as int, price as int);
    }
    let wide: u128 = (amount as u128) * (price as u128);
    let scaled: u128 = wide / (AMOUNT_SCALE as u128);
    scaled as i64
}

} // verus!
