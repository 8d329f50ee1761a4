//! Error taxonomy of the engine. Rejections carry a distinguishable kind so
//! a caller can log and retry with corrected intents instead of aborting;
//! kinds that correspond to real capital risk are marked fatal.

use vstd::prelude::*;

verus! {

#[derive(Debug, Clone, Copy, PartialEq, Eq, Structural)]
pub enum RsAlgoErrorKind {
    /// A candle was built with a required field missing.
    InvalidCandle,
    /// A proposed order's target price is not strictly on the correct side
    /// of the current close for its direction.
    InvalidTargetPrice,
    /// A stop-loss was proposed on the profit side of its entry level.
    StopLossWrongSide,
    /// An exit or take-profit was proposed on the wrong side of its entry
    /// level.
    ExitWrongSide,
}

#[derive(Debug, Clone, Copy, PartialEq, Eq, Structural)]
pub struct RsAlgoError {
    pub err: RsAlgoErrorKind,
}

impl RsAlgoError {
    /// True for the kinds that signal a broken safety invariant rather than
    /// an ordinary rejection.
    pub fn is_fatal(&self) -> (r: bool)
        ensures
            r == (self.err == RsAlgoErrorKind::InvalidTargetPrice || self.err
                == RsAlgoErrorKind::StopLossWrongSide),
    {
        match self.err {
            RsAlgoErrorKind::InvalidTargetPrice => true,
            RsAlgoErrorKind::StopLossWrongSide => true,
            _ => false,
        }
    }
}

} // verus!
