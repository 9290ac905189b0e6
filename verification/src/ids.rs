//! Identifier generation, behind a trusted boundary.
//!
//! Trades, orders and monitoring snapshots get fresh identifiers drawn
//! from a random UUID. The verified code never assumes freshness: a
//! collision surfaces as an error from the operation that meets it.

use vstd::prelude::*;

verus! {

/// Relies on uuid's `Uuid::new_v4`: a random identifier, folded to its
/// low 64 bits. Nothing can be promised of a random value, so nothing
/// is.
#[verifier::external_body]
pub fn fresh_id() -> u64 {
    uuid::Uuid::new_v4().as_u128() as u64
}

} // verus!
