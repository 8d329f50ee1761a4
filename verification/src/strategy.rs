//! Which sides a strategy trades, and whether it reads one time frame or
//! several. The strategies themselves are external collaborators.

use vstd::prelude::*;

verus! {

#[derive(Debug, Clone, Copy, PartialEq, Eq, Structural)]
pub enum StrategyType {
    OnlyLong,
    OnlyShort,
    LongShort,
    OnlyLongMTF,
    OnlyShortMTF,
    LongShortMTF,
}

impl StrategyType {
    pub fn is_long_only(&self) -> (r: bool)
        ensures
            r == (*self == StrategyType::OnlyLong || *self == StrategyType::OnlyLongMTF),
    {
        match *self {
            StrategyType::OnlyLong | StrategyType::OnlyLongMTF => true,
            _ => false,
        }
    }

    pub fn is_multi_timeframe(&self) -> (r: bool)
        ensures
            r == (*self == StrategyType::OnlyLongMTF || *self == StrategyType::OnlyShortMTF || *self
                == StrategyType::LongShortMTF),
    {
        match *self {
            StrategyType::OnlyLongMTF | StrategyType::OnlyShortMTF | StrategyType::LongShortMTF => {
                true
            },
            _ => false,
        }
    }
}

} // verus!
