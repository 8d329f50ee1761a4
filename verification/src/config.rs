//! Explicit engine configuration, passed into every entry point. Nothing in
//! the engine reads process-wide state, so replays of identical inputs under
//! the same configuration are deterministic.

use vstd::prelude::*;

use crate::mode::ExecutionMode;

verus! {

/// Whether fills happen at the order's target price (broker-driven) or at
/// the bar's own price (bot-driven).
#[derive(Debug, Clone, Copy, PartialEq, Eq, Structural)]
pub enum OrderEngine {
    Broker,
    Bot,
}

/// Which price field drives cross detection: closes, or highs and lows.
#[derive(Debug, Clone, Copy, PartialEq, Eq, Structural)]
pub enum ActivationSource {
    Close,
    HighsLows,
}

#[derive(Debug, Clone, Copy, PartialEq, Eq, Structural)]
pub struct Config {
    /// Per-category pending-order ceilings.
    pub max_buy_orders: usize,
    pub max_sell_orders: usize,
    pub max_stop_losses: usize,
    /// Recency window and total-admission ceiling of the ledger.
    pub max_pending_orders: usize,
    /// Order lifetime, in bars of the trading time frame.
    pub valid_until_bars: i64,
    /// Whether the caller's proposed target prices already include the
    /// spread. Informational for the caller's own accounting: the batch
    /// consistency checks compare raw target levels either way.
    pub order_with_spread: bool,
    /// Allow exits whose profit is not positive (stop-losses always pass).
    pub non_profitable_outs: bool,
    pub order_engine: OrderEngine,
    pub order_activation_source: ActivationSource,
    pub execution_mode: ExecutionMode,
    /// Default order size when a stop-loss arrives without an entry.
    pub order_size: i64,
}

/// The numeric knobs are in ranges that keep the engine's arithmetic inside
/// `i64` and `usize`.
pub open spec fn config_wf(c: Config) -> bool {
    &&& 0 <= c.valid_until_bars <= 100_000
    &&& crate::price_ok(c.order_size)
}

} // verus!
