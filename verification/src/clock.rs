//! The wall clock, behind a trusted boundary.
//!
//! The verified components take the current time as a plain argument,
//! so everything proved about them holds whatever the clock returns.
//! This wrapper is how the surrounding service obtains that argument.

use vstd::prelude::*;

verus! {

/// Relies on chrono's `Utc::now`: milliseconds since the Unix epoch.
/// Nothing can be promised of a clock reading, so nothing is.
#[verifier::external_body]
pub fn now_millis() -> i64 {
    chrono::Utc::now().timestamp_millis()
}

} // verus!
