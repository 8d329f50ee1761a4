//! Decision core of an algorithmic trading engine: order creation and
//! validation, a pending-order ledger with per-category capacity limits,
//! cross-price activation detection, expiry and cancellation, and trade
//! entry/exit pricing with path-dependent run-up and drawdown.
//!
//! Prices, sizes and monetary amounts are fixed-point integers: the caller
//! picks a scale (say, tenths or hundredths of the quoted unit) and uses it
//! consistently. Timestamps are integer milliseconds.

pub mod broker;
pub mod calc;
pub mod candle;
pub mod config;
pub mod error;
pub mod instrument;
pub mod market;
pub mod message;
pub mod mode;
pub mod order;
pub mod pricing;
pub mod strategy;
pub mod time_frame;
pub mod trade;

use vstd::prelude::*;

verus! {

/// Largest price, size or monetary amount the engine accepts, in fixed-point
/// units. Keeps every sum, difference and scaled product inside `i64`.
pub const PRICE_MAX: i64 = 1_000_000_000_000;

/// Largest timestamp the engine accepts, in milliseconds.
pub const TS_MAX: i64 = 4_000_000_000_000;

/// Spec-level bound on a single price or amount value.
pub open spec fn price_ok(p: i64) -> bool {
    0 <= p <= PRICE_MAX
}

/// Spec-level bound on a timestamp.
pub open spec fn ts_ok(t: i64) -> bool {
    0 <= t <= TS_MAX
}

} // verus!
