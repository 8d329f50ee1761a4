//! One OHLCV price observation for a fixed time interval. Prices are
//! fixed-point integers; the timestamp doubles as the bar's time-derived
//! identifier.

use vstd::prelude::*;

use crate::error::{RsAlgoError, RsAlgoErrorKind};
use crate::price_ok;
use crate::ts_ok;

verus! {

/// Candlestick classification. The engine itself only reads it; the
/// classifier that assigns a non-default type is an external collaborator.
#[derive(Debug, Clone, Copy, PartialEq, Eq, Structural)]
pub enum CandleType {
    Default,
    Doji,
    Karakasa,
    BearishKarakasa,
    Marubozu,
    BearishMarubozu,
    Harami,
    BearishHarami,
    BearishStar,
    Engulfing,
    MorningStar,
    BearishEngulfing,
    HangingMan,
    BullishCrows,
    BearishCrows,
    BullishGap,
    BearishGap,
}

#[derive(Debug, Clone, Copy, PartialEq, Eq, Structural)]
pub struct Candle {
    pub candle_type: CandleType,
    /// Milliseconds; also the bar's time-derived identifier.
    pub date: i64,
    pub open: i64,
    pub high: i64,
    pub low: i64,
    pub close: i64,
    pub volume: i64,
    pub is_closed: bool,
}

/// Every price of the candle is a valid fixed-point amount and its timestamp
/// is a valid time.
pub open spec fn candle_wf(c: Candle) -> bool {
    &&& ts_ok(c.date)
    &&& price_ok(c.open)
    &&& price_ok(c.high)
    &&& price_ok(c.low)
    &&& price_ok(c.close)
    &&& 0 <= c.volume
}

impl Candle {
    pub fn new() -> (r: CandleBuilder)
        ensures
            r == CandleBuilder::empty_spec(),
    {
        CandleBuilder::new()
    }

    pub fn date(&self) -> (r: i64)
        ensures
            r == self.date,
    {
        self.date
    }

    pub fn set_date(&mut self, date: i64) -> (r: i64)
        ensures
            *final(self) == (Candle { date, ..*old(self) }),
            r == date,
    {
        self.date = date;
        self.date
    }

    pub fn open(&self) -> (r: i64)
        ensures
            r == self.open,
    {
        self.open
    }

    pub fn high(&self) -> (r: i64)
        ensures
            r == self.high,
    {
        self.high
    }

    pub fn set_high(&mut self, value: i64) -> (r: i64)
        ensures
            *final(self) == (Candle { high: value, ..*old(self) }),
            r == value,
    {
        self.high = value;
        self.high
    }

    pub fn low(&self) -> (r: i64)
        ensures
            r == self.low,
    {
        self.low
    }

    pub fn set_low(&mut self, value: i64) -> (r: i64)
        ensures
            *final(self) == (Candle { low: value, ..*old(self) }),
            r == value,
    {
        self.low = value;
        self.low
    }

    pub fn set_is_closed(&mut self, val: bool) -> (r: bool)
        ensures
            *final(self) == (Candle { is_closed: val, ..*old(self) }),
            r == val,
    {
        self.is_closed = val;
        self.is_closed
    }

    pub fn close(&self) -> (r: i64)
        ensures
            r == self.close,
    {
        self.close
    }

    pub fn set_close(&mut self, value: i64) -> (r: i64)
        ensures
            *final(self) == (Candle { close: value, ..*old(self) }),
            r == value,
    {
        self.close = value;
        self.close
    }

    pub fn set_open(&mut self, value: i64) -> (r: i64)
        ensures
            *final(self) == (Candle { open: value, ..*old(self) }),
            r == value,
    {
        self.open = value;
        self.open
    }

    pub fn is_closed(&self) -> (r: bool)
        ensures
            r == self.is_closed,
    {
        self.is_closed
    }

    pub fn volume(&self) -> (r: i64)
        ensures
            r == self.volume,
    {
        self.volume
    }

    pub fn candle_type(&self) -> (r: &CandleType)
        ensures
            *r == self.candle_type,
    {
        &self.candle_type
    }

    pub fn is_bullish(&self) -> (r: bool)
        ensures
            r == (self.candle_type == CandleType::Engulfing || self.candle_type
                == CandleType::Karakasa || self.candle_type == CandleType::MorningStar),
    {
        self.candle_type == CandleType::Engulfing || self.candle_type == CandleType::Karakasa
            || self.candle_type == CandleType::MorningStar
    }

    pub fn is_bearish(&self) -> (r: bool)
        ensures
            r == (self.candle_type == CandleType::BearishEngulfing || self.candle_type
                == CandleType::BearishKarakasa || self.candle_type == CandleType::BearishStar),
    {
        self.candle_type == CandleType::BearishEngulfing || self.candle_type
            == CandleType::BearishKarakasa || self.candle_type == CandleType::BearishStar
    }
}

/// Assembles a candle field by field; `build` rejects a candle with any
/// required field missing.
#[derive(Debug, Clone, Copy, PartialEq, Eq, Structural)]
pub struct CandleBuilder {
    pub date: Option<i64>,
    pub open: Option<i64>,
    pub high: Option<i64>,
    pub low: Option<i64>,
    pub close: Option<i64>,
    pub volume: Option<i64>,
    pub is_closed: Option<bool>,
    pub candle_type: Option<CandleType>,
}

impl CandleBuilder {
    pub open spec fn empty_spec() -> CandleBuilder {
        CandleBuilder {
            date: None,
            open: None,
            high: None,
            low: None,
            close: None,
            volume: None,
            is_closed: None,
            candle_type: None,
        }
    }

    /// All fields a complete candle needs are present.
    pub open spec fn complete(self) -> bool {
        &&& self.date is Some
        &&& self.open is Some
        &&& self.high is Some
        &&& self.low is Some
        &&& self.close is Some
        &&& self.volume is Some
        &&& self.is_closed is Some
    }

    /// The candle a complete builder describes; a missing classification
    /// defaults to `CandleType::Default`.
    pub open spec fn built_spec(self) -> Candle
        recommends
            self.complete(),
    {
        Candle {
            candle_type: if self.candle_type is Some {
                self.candle_type->0
            } else {
                CandleType::Default
            },
            date: self.date->0,
            open: self.open->0,
            high: self.high->0,
            low: self.low->0,
            close: self.close->0,
            volume: self.volume->0,
            is_closed: self.is_closed->0,
        }
    }

    pub fn new() -> (r: CandleBuilder)
        ensures
            r == CandleBuilder::empty_spec(),
    {
        CandleBuilder {
            date: None,
            open: None,
            high: None,
            low: None,
            close: None,
            volume: None,
            is_closed: None,
            candle_type: None,
        }
    }

    pub fn date(self, val: i64) -> (r: CandleBuilder)
        ensures
            r == (CandleBuilder { date: Some(val), ..self }),
    {
        CandleBuilder { date: Some(val), ..self }
    }

    pub fn open(self, val: i64) -> (r: CandleBuilder)
        ensures
            r == (CandleBuilder { open: Some(val), ..self }),
    {
        CandleBuilder { open: Some(val), ..self }
    }

    pub fn high(self, val: i64) -> (r: CandleBuilder)
        ensures
            r == (CandleBuilder { high: Some(val), ..self }),
    {
        CandleBuilder { high: Some(val), ..self }
    }

    pub fn low(self, val: i64) -> (r: CandleBuilder)
        ensures
            r == (CandleBuilder { low: Some(val), ..self }),
    {
        CandleBuilder { low: Some(val), ..self }
    }

    pub fn close(self, val: i64) -> (r: CandleBuilder)
        ensures
            r == (CandleBuilder { close: Some(val), ..self }),
    {
        CandleBuilder { close: Some(val), ..self }
    }

    pub fn volume(self, val: i64) -> (r: CandleBuilder)
        ensures
            r == (CandleBuilder { volume: Some(val), ..self }),
    {
        CandleBuilder { volume: Some(val), ..self }
    }

    pub fn is_closed(self, val: bool) -> (r: CandleBuilder)
        ensures
            r == (CandleBuilder { is_closed: Some(val), ..self }),
    {
        CandleBuilder { is_closed: Some(val), ..self }
    }

    pub fn candle_type(self, val: CandleType) -> (r: CandleBuilder)
        ensures
            r == (CandleBuilder { candle_type: Some(val), ..self }),
    {
        CandleBuilder { candle_type: Some(val), ..self }
    }

    /// Succeeds exactly when every required field was supplied.
    pub fn build(self) -> (r: Result<Candle, RsAlgoError>)
        ensures
            self.complete() ==> r == Result::<Candle, RsAlgoError>::Ok(self.built_spec()),
            !self.complete() ==> r == Result::<Candle, RsAlgoError>::Err(
                RsAlgoError { err: RsAlgoErrorKind::InvalidCandle },
            ),
    {
        if let (
            Some(date),
            Some(open),
            Some(high),
            Some(low),
            Some(close),
            Some(volume),
            Some(is_closed),
        ) = (self.date, self.open, self.high, self.low, self.close, self.volume, self.is_closed) {
            let candle_type = match self.candle_type {
                Some(t) => t,
                None => CandleType::Default,
            };
            Ok(Candle { candle_type, date, open, high, low, close, volume, is_closed })
        } else {
            Err(RsAlgoError { err: RsAlgoErrorKind::InvalidCandle })
        }
    }
}

} // verus!
