//! Core of a trading-platform backend: a background strategy/trade
//! processing subsystem. A budget ledger tracks per-strategy capital,
//! a lifecycle manager advances trades from pending through open to
//! closed, a monitor keeps per-strategy health snapshots, a cooperative
//! scheduler drives recurring work, and a coordinator composes them.
//!
//! All quantities of money are integers: amounts of a traded asset are
//! scaled by [`money::AMOUNT_SCALE`], prices and capital are in minor
//! units of the quote currency.

use vstd::prelude::*;

pub mod api_types;
pub mod clock;
pub mod config;
pub mod coordinator;
pub mod errors;
pub mod exchange;
pub mod ids;
pub mod ledger;
pub mod lifecycle;
pub mod money;
pub mod monitor;
pub mod news;
pub mod processor;
pub mod scheduler;
pub mod signal;
pub mod strategy;
pub mod trade;
