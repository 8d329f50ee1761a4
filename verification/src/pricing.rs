//! A bid/ask snapshot for the traded symbol at the current step. All values
//! are fixed-point integers.

use vstd::prelude::*;

use crate::price_ok;

verus! {

#[derive(Debug, Clone)]
pub struct Pricing {
    pub symbol: String,
    pub ask: i64,
    pub bid: i64,
    pub spread: i64,
    pub pip_size: i64,
}

/// Every amount of the snapshot is a valid fixed-point value.
pub open spec fn pricing_wf(p: Pricing) -> bool {
    &&& price_ok(p.ask)
    &&& price_ok(p.bid)
    &&& price_ok(p.spread)
    &&& price_ok(p.pip_size)
}

impl Pricing {
    pub fn new(symbol: String, ask: i64, bid: i64, spread: i64, pip_size: i64) -> (r: Pricing)
        ensures
            r.symbol == symbol,
            r.ask == ask,
            r.bid == bid,
            r.spread == spread,
            r.pip_size == pip_size,
    {
        Pricing { symbol, ask, bid, spread, pip_size }
    }

    pub fn ask(&self) -> (r: i64)
        ensures
            r == self.ask,
    {
        self.ask
    }

    pub fn bid(&self) -> (r: i64)
        ensures
            r == self.bid,
    {
        self.bid
    }

    pub fn spread(&self) -> (r: i64)
        ensures
            r == self.spread,
    {
        self.spread
    }

    pub fn pip_size(&self) -> (r: i64)
        ensures
            r == self.pip_size,
    {
        self.pip_size
    }
}

} // verus!
