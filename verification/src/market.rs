//! Market trading hours and the decision whether the market is open at a
//! given weekday and hour. Fetching the hours from the broker is the
//! session's business; deciding on them is done here.

use vstd::prelude::*;

verus! {

/// One trading window: a weekday and the hours (inclusive) the market
/// trades.
#[derive(Debug, Clone, Copy, PartialEq, Eq, Structural)]
pub struct MarketHour {
    pub day: u32,
    pub from: u32,
    pub to: u32,
}

#[derive(Debug, Clone)]
pub struct MarketHours {
    pub symbol: String,
    pub open: bool,
    pub data: Vec<MarketHour>,
}

/// Whether the market is open at the given weekday and hour: decided by the
/// last entry for that weekday, the hour lying inside its window inclusive;
/// closed when no entry speaks of the weekday.
pub open spec fn spec_market_open_at(hours: Seq<MarketHour>, week_day: u32, hour: u32) -> bool
    decreases hours.len(),
{
    if hours.len() == 0 {
        false
    } else {
        let h = hours.last();
        if h.day == week_day {
            h.from <= hour <= h.to
        } else {
            spec_market_open_at(hours.drop_last(), week_day, hour)
        }
    }
}

pub fn market_open_at(hours: &Vec<MarketHour>, week_day: u32, hour: u32) -> (r: bool)
    ensures
        r == spec_market_open_at(hours@, week_day, hour),
{
    let len = hours.len();
    let mut open = false;
    let mut i: usize = 0;
    proof {
        assert(hours@.subrange(0, 0) =~= Seq::<MarketHour>::empty());
    }
    while i < len
        invariant
            0 <= i <= len,
            len == hours@.len(),
            open == spec_market_open_at(hours@.subrange(0, i as int), week_day, hour),
        decreases len - i,
    {
        proof {
            assert(hours@.subrange(0, i + 1).drop_last() =~= hours@.subrange(0, i as int));
            assert(hours@.subrange(0, i + 1).last() == hours@[i as int]);
        }
        let h = hours[i];
        if h.day == week_day {
            open = h.from <= hour && hour <= h.to;
        }
        i = i + 1;
    }
    proof {
        assert(hours@.subrange(0, len as int) =~= hours@);
    }
    open
}

impl MarketHours {
    pub fn new(open: bool, symbol: String, data: Vec<MarketHour>) -> (r: MarketHours)
        ensures
            r.open == open,
            r.symbol == symbol,
            r.data == data,
    {
        MarketHours { symbol, open, data }
    }

    pub fn is_open(&self) -> (r: bool)
        ensures
            r == self.open,
    {
        self.open
    }
}

} // verus!
