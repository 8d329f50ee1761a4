//! Execution mode: historical replay over a fixed candle array, or live
//! step-by-step execution against a broker feed.

use vstd::prelude::*;

verus! {

/// Governs whether bar indices are the timeline (Backtest: array position,
/// +1 offset for next-bar fills) or wall-clock events are (Live: current
/// tick, no offset), and whether realized aggregates are computed at
/// resolution time (Backtest) or deferred (Live).
#[derive(Debug, Clone, Copy, PartialEq, Eq, Structural)]
pub enum ExecutionMode {
    Backtest,
    Live,
}

impl ExecutionMode {
    pub fn is_back_test(&self) -> (r: bool)
        ensures
            r == (*self == ExecutionMode::Backtest),
    {
        match self {
            ExecutionMode::Backtest => true,
            ExecutionMode::Live => false,
        }
    }

    pub fn is_live(&self) -> (r: bool)
        ensures
            r == (*self == ExecutionMode::Live),
    {
        match self {
            ExecutionMode::Backtest => false,
            ExecutionMode::Live => true,
        }
    }
}

/// The mode a configuration string names; anything unrecognized means Live,
/// the conservative choice (nothing is removed from the ledger and no
/// aggregates are fabricated).
pub open spec fn mode_of_str(s: Seq<char>) -> ExecutionMode {
    if s == "backtest"@ {
        ExecutionMode::Backtest
    } else {
        ExecutionMode::Live
    }
}

pub fn from_str(mode: &str) -> (r: ExecutionMode)
    ensures
        r == mode_of_str(mode@),
{
    let backtest = String::from_str("backtest");
    let m = String::from_str(mode);
    if m == backtest {
        ExecutionMode::Backtest
    } else {
        ExecutionMode::Live
    }
}

} // verus!
