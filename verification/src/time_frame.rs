//! Trading time frames: the fixed interval one candle covers, and the
//! closing-time bookkeeping that decides when an in-progress candle closes.

use vstd::prelude::*;

use crate::PRICE_MAX;

verus! {

/// A dated bar in transit: timestamp, open, high, low, close, volume.
pub type Dohlc = (i64, i64, i64, i64, i64, i64);

/// Added to an in-progress candle's close to mark it as not yet final.
pub const OPEN_CANDLE_OFFSET: i64 = 1_000_000;

/// One candle interval of the trading timeline, from one minute to one month.
/// `ERR` stands for an unrecognized frame.
#[derive(Debug, Clone, Copy, PartialEq, Eq, Structural)]
pub enum TimeFrameType {
    MN,
    W,
    D,
    H4,
    H1,
    M30,
    M15,
    M5,
    M1,
    ERR,
}

#[derive(Debug, Clone, Copy, PartialEq, Eq, Structural)]
pub struct TimeFrame {}

/// The time frame a configuration string names; anything unrecognized is `ERR`.
pub open spec fn time_frame_of_str(s: Seq<char>) -> TimeFrameType {
    if s == "M1"@ {
        TimeFrameType::M1
    } else if s == "M5"@ {
        TimeFrameType::M5
    } else if s == "M15"@ {
        TimeFrameType::M15
    } else if s == "M30"@ {
        TimeFrameType::M30
    } else if s == "H1"@ {
        TimeFrameType::H1
    } else if s == "H4"@ {
        TimeFrameType::H4
    } else if s == "D"@ {
        TimeFrameType::D
    } else if s == "W"@ {
        TimeFrameType::W
    } else if s == "MN"@ {
        TimeFrameType::MN
    } else {
        TimeFrameType::ERR
    }
}

/// The time frame lasting the given number of minutes; anything unrecognized
/// is `ERR`.
pub open spec fn time_frame_of_number(n: usize) -> TimeFrameType {
    if n == 1 {
        TimeFrameType::M1
    } else if n == 5 {
        TimeFrameType::M5
    } else if n == 15 {
        TimeFrameType::M15
    } else if n == 30 {
        TimeFrameType::M30
    } else if n == 60 {
        TimeFrameType::H1
    } else if n == 240 {
        TimeFrameType::H4
    } else if n == 1440 {
        TimeFrameType::D
    } else if n == 10080 {
        TimeFrameType::W
    } else if n == 43200 {
        TimeFrameType::MN
    } else {
        TimeFrameType::ERR
    }
}

/// How many minutes one candle of the frame covers; 0 for `ERR`.
pub open spec fn spec_to_number(tf: TimeFrameType) -> i64 {
    match tf {
        TimeFrameType::ERR => 0,
        TimeFrameType::M1 => 1,
        TimeFrameType::M5 => 5,
        TimeFrameType::M15 => 15,
        TimeFrameType::M30 => 30,
        TimeFrameType::H1 => 60,
        TimeFrameType::H4 => 240,
        TimeFrameType::D => 1440,
        TimeFrameType::W => 10080,
        TimeFrameType::MN => 43200,
    }
}

/// The minutes (for minute frames) or hours (for hour frames and larger) at
/// which a candle of the frame closes.
pub open spec fn closing_time_seq(tf: TimeFrameType) -> Seq<u32> {
    match tf {
        TimeFrameType::ERR => seq![0u32],
        TimeFrameType::M1 => seq![0u32],
        TimeFrameType::M5 => seq![0u32, 5, 10, 15, 20, 25, 30, 35, 40, 45, 50, 55],
        TimeFrameType::M15 => seq![0u32, 15, 30, 45],
        TimeFrameType::M30 => seq![0u32, 30],
        TimeFrameType::H1 => seq![
            0u32,
            1,
            2,
            3,
            4,
            5,
            6,
            7,
            8,
            9,
            10,
            11,
            12,
            13,
            14,
            15,
            16,
            17,
            18,
            19,
            20,
            21,
            22,
            23,
            24,
        ],
        TimeFrameType::H4 => seq![0u32, 4, 8, 12, 16, 20, 24],
        TimeFrameType::D => seq![1u32],
        TimeFrameType::W => seq![1u32],
        TimeFrameType::MN => seq![1u32],
    }
}

impl TimeFrame {
    pub fn new(time_frame: &str) -> (r: TimeFrameType)
        ensures
            r == time_frame_of_str(time_frame@),
    {
        TimeFrameType::from_str(time_frame)
    }
}

impl TimeFrameType {
    pub fn from_number(time_frame: usize) -> (r: TimeFrameType)
        ensures
            r == time_frame_of_number(time_frame),
    {
        if time_frame == 1 {
            TimeFrameType::M1
        } else if time_frame == 5 {
            TimeFrameType::M5
        } else if time_frame == 15 {
            TimeFrameType::M15
        } else if time_frame == 30 {
            TimeFrameType::M30
        } else if time_frame == 60 {
            TimeFrameType::H1
        } else if time_frame == 240 {
            TimeFrameType::H4
        } else if time_frame == 1440 {
            TimeFrameType::D
        } else if time_frame == 10080 {
            TimeFrameType::W
        } else if time_frame == 43200 {
            TimeFrameType::MN
        } else {
            TimeFrameType::ERR
        }
    }

    pub fn from_str(time_frame: &str) -> (r: TimeFrameType)
        ensures
            r == time_frame_of_str(time_frame@),
    {
        let s = String::from_str(time_frame);
        if s == String::from_str("M1") {
            TimeFrameType::M1
        } else if s == String::from_str("M5") {
            TimeFrameType::M5
        } else if s == String::from_str("M15") {
            TimeFrameType::M15
        } else if s == String::from_str("M30") {
            TimeFrameType::M30
        } else if s == String::from_str("H1") {
            TimeFrameType::H1
        } else if s == String::from_str("H4") {
            TimeFrameType::H4
        } else if s == String::from_str("D") {
            TimeFrameType::D
        } else if s == String::from_str("W") {
            TimeFrameType::W
        } else if s == String::from_str("MN") {
            TimeFrameType::MN
        } else {
            TimeFrameType::ERR
        }
    }

    pub fn to_number(&self) -> (r: i64)
        ensures
            r == spec_to_number(*self),
    {
        match *self {
            TimeFrameType::ERR => 0,
            TimeFrameType::M1 => 1,
            TimeFrameType::M5 => 5,
            TimeFrameType::M15 => 15,
            TimeFrameType::M30 => 30,
            TimeFrameType::H1 => 60,
            TimeFrameType::H4 => 240,
            TimeFrameType::D => 1440,
            TimeFrameType::W => 10080,
            TimeFrameType::MN => 43200,
        }
    }

    pub fn max_bars(&self) -> (r: i64)
        ensures
            r == spec_to_number(*self),
    {
        self.to_number()
    }

    pub fn prev_candles(&self) -> (r: i64)
        ensures
            r == spec_to_number(*self),
    {
        self.to_number()
    }

    pub fn closing_time(&self) -> (r: Vec<u32>)
        ensures
            r@ == closing_time_seq(*self),
    {
        let r: Vec<u32> = match *self {
            TimeFrameType::ERR => vec![0],
            TimeFrameType::M1 => vec![0],
            TimeFrameType::M5 => vec![0, 5, 10, 15, 20, 25, 30, 35, 40, 45, 50, 55],
            TimeFrameType::M15 => vec![0, 15, 30, 45],
            TimeFrameType::M30 => vec![0, 30],
            TimeFrameType::H1 => vec![
                0,
                1,
                2,
                3,
                4,
                5,
                6,
                7,
                8,
                9,
                10,
                11,
                12,
                13,
                14,
                15,
                16,
                17,
                18,
                19,
                20,
                21,
                22,
                23,
                24,
            ],
            TimeFrameType::H4 => vec![0, 4, 8, 12, 16, 20, 24],
            TimeFrameType::D => vec![1],
            TimeFrameType::W => vec![1],
            TimeFrameType::MN => vec![1],
        };
        proof {
            assert(r@ =~= closing_time_seq(*self));
        }
        r
    }
}

fn contains_u32(values: &Vec<u32>, x: u32) -> (r: bool)
    ensures
        r == values@.contains(x),
{
    let len = values.len();
    let mut i: usize = 0;
    while i < len
        invariant
            0 <= i <= len,
            len == values@.len(),
            forall|j: int| 0 <= j < i ==> values@[j] != x,
        decreases len - i,
    {
        if values[i] == x {
            proof {
                assert(values@[i as int] == x);
            }
            return true;
        }
        i = i + 1;
    }
    proof {
        assert(!values@.contains(x));
    }
    false
}

/// An incoming bar adjusted for the trading time frame: while the wall clock
/// has not reached one of the frame's closing minutes (minute frames) or
/// closing hours (hour frames), the bar is still in progress and its close
/// is pushed out of price range as a marker; on a closing tick, and on every
/// other frame, the bar passes unchanged.
pub open spec fn spec_adapt_to_time_frame(
    new_data: Dohlc,
    time_frame: TimeFrameType,
    minute: u32,
    hour: u32,
) -> Dohlc {
    let marked = (
        new_data.0,
        new_data.1,
        new_data.2,
        new_data.3,
        (new_data.4 + OPEN_CANDLE_OFFSET) as i64,
        new_data.5,
    );
    match time_frame {
        TimeFrameType::M5 | TimeFrameType::M15 | TimeFrameType::M30 => {
            if !closing_time_seq(time_frame).contains((minute + 1) as u32) {
                marked
            } else {
                new_data
            }
        },
        TimeFrameType::H1 | TimeFrameType::H4 => {
            if !closing_time_seq(time_frame).contains((hour + 1) as u32) {
                marked
            } else {
                new_data
            }
        },
        _ => new_data,
    }
}

/// Adjusts one incoming bar to the trading time frame; the caller supplies
/// the bar's wall-clock minute and hour.
pub fn adapt_to_time_frame(
    new_data: Dohlc,
    time_frame: &TimeFrameType,
    minute: u32,
    hour: u32,
) -> (r: Dohlc)
    requires
        minute < 60,
        hour < 24,
        -PRICE_MAX <= new_data.4 <= PRICE_MAX,
    ensures
        r == spec_adapt_to_time_frame(new_data, *time_frame, minute, hour),
{
    let current_minute = minute + 1;
    let current_hour = hour + 1;
    match *time_frame {
        TimeFrameType::M5 | TimeFrameType::M15 | TimeFrameType::M30 => {
            if !contains_u32(&time_frame.closing_time(), current_minute) {
                (
                    new_data.0,
                    new_data.1,
                    new_data.2,
                    new_data.3,
                    new_data.4 + OPEN_CANDLE_OFFSET,
                    new_data.5,
                )
            } else {
                new_data
            }
        },
        TimeFrameType::H1 | TimeFrameType::H4 => {
            if !contains_u32(&time_frame.closing_time(), current_hour) {
                (
                    new_data.0,
                    new_data.1,
                    new_data.2,
                    new_data.3,
                    new_data.4 + OPEN_CANDLE_OFFSET,
                    new_data.5,
                )
            } else {
                new_data
            }
        },
        _ => new_data,
    }
}

} // verus!
