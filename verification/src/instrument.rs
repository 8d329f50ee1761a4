//! The traded instrument's candle window: an ordered sequence of bars,
//! append-only in live mode, fixed-length in backtest mode.

use vstd::prelude::*;

use crate::candle::candle_wf;
use crate::candle::Candle;
use crate::time_frame::TimeFrameType;

verus! {

#[derive(Debug, Clone)]
pub struct Instrument {
    pub symbol: String,
    pub time_frame: TimeFrameType,
    pub data: Vec<Candle>,
}

/// Every candle of the window is well formed.
pub open spec fn instrument_wf(i: Instrument) -> bool {
    forall|k: int| 0 <= k < i.data@.len() ==> candle_wf(#[trigger] i.data@[k])
}

impl Instrument {
    pub fn new(symbol: String, time_frame: TimeFrameType, data: Vec<Candle>) -> (r: Instrument)
        ensures
            r.symbol == symbol,
            r.time_frame == time_frame,
            r.data == data,
    {
        Instrument { symbol, time_frame, data }
    }

    pub fn data(&self) -> (r: &Vec<Candle>)
        ensures
            r == &self.data,
    {
        &self.data
    }

    pub fn time_frame(&self) -> (r: &TimeFrameType)
        ensures
            *r == self.time_frame,
    {
        &self.time_frame
    }
}

} // verus!
