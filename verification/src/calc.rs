//! Trade arithmetic: position sizing, profit and its percentage, and the
//! best and worst excursion over a holding window. Percentages are returned
//! in basis points (hundredths of one percent), which keeps them independent
//! of the fixed-point scale the caller picked for prices.

use vstd::prelude::*;

use crate::candle::candle_wf;
use crate::candle::Candle;
use crate::price_ok;
use crate::trade::trade_type_is_long;
use crate::trade::TradeType;
use crate::PRICE_MAX;

verus! {

/// Quantities are expressed in ten-thousandths of a unit of the instrument.
pub const QUANTITY_SCALE: i64 = 10_000;

/// Percentages are expressed in basis points: hundredths of one percent.
pub const BASIS_POINT_SCALE: i64 = 10_000;

/// Position size for a notional trade size at a fill price: the notional
/// divided by the price, in ten-thousandths of a unit; zero when the price
/// is not positive.
pub open spec fn spec_calculate_quantity(trade_size: i64, price: i64) -> i64 {
    if price > 0 {
        (trade_size * QUANTITY_SCALE / price as int) as i64
    } else {
        0
    }
}

pub fn calculate_quantity(trade_size: i64, price: i64) -> (r: i64)
    requires
        0 <= trade_size <= PRICE_MAX,
    ensures
        r == spec_calculate_quantity(trade_size, price),
{
    if price > 0 {
        let scaled = trade_size * QUANTITY_SCALE;
        let q = scaled / price;
        proof {
            assert(0 <= trade_size * QUANTITY_SCALE / price as int <= trade_size * QUANTITY_SCALE)
                by (nonlinear_arith)
                requires
                    0 <= trade_size,
                    price > 0,
            ;
        }
        q
    } else {
        0
    }
}

/// Signed price difference of a closed trade: `price_out - price_in` for a
/// long trade, `price_in - price_out` for a short one.
pub open spec fn spec_calculate_profit(price_in: i64, price_out: i64, trade_type: TradeType) -> int {
    if trade_type_is_long(trade_type) {
        price_out - price_in
    } else {
        price_in - price_out
    }
}

pub fn calculate_profit(price_in: i64, price_out: i64, trade_type: &TradeType) -> (r: i64)
    requires
        -8 * PRICE_MAX <= price_in <= 8 * PRICE_MAX,
        -8 * PRICE_MAX <= price_out <= 8 * PRICE_MAX,
    ensures
        r == spec_calculate_profit(price_in, price_out, *trade_type),
{
    if trade_type.is_long() {
        price_out - price_in
    } else {
        price_in - price_out
    }
}

/// A signed amount as basis points of a positive base, truncated toward
/// zero; zero when the base is not positive.
pub open spec fn spec_per_bp(amount: int, base: i64) -> int {
    if base <= 0 {
        0
    } else if amount >= 0 {
        amount * BASIS_POINT_SCALE / base as int
    } else {
        -((-amount) * BASIS_POINT_SCALE / base as int)
    }
}

fn per_bp(amount: i64, base: i64) -> (r: i64)
    requires
        -16 * PRICE_MAX <= amount <= 16 * PRICE_MAX,
    ensures
        r == spec_per_bp(amount as int, base),
{
    if base <= 0 {
        0
    } else if amount >= 0 {
        let scaled = amount * BASIS_POINT_SCALE;
        proof {
            assert(0 <= amount * BASIS_POINT_SCALE / base as int <= amount * BASIS_POINT_SCALE)
                by (nonlinear_arith)
                requires
                    0 <= amount,
                    base > 0,
            ;
        }
        scaled / base
    } else {
        let scaled = (-amount) * BASIS_POINT_SCALE;
        proof {
            assert(0 <= (-amount) * BASIS_POINT_SCALE / base as int <= (-amount)
                * BASIS_POINT_SCALE) by (nonlinear_arith)
                requires
                    amount < 0,
                    base > 0,
            ;
        }
        -(scaled / base)
    }
}

/// Profit of a closed trade as basis points of its entry price.
pub open spec fn spec_calculate_profit_per(
    price_in: i64,
    price_out: i64,
    trade_type: TradeType,
) -> int {
    spec_per_bp(spec_calculate_profit(price_in, price_out, trade_type), price_in)
}

pub fn calculate_profit_per(price_in: i64, price_out: i64, trade_type: &TradeType) -> (r: i64)
    requires
        -8 * PRICE_MAX <= price_in <= 8 * PRICE_MAX,
        -8 * PRICE_MAX <= price_out <= 8 * PRICE_MAX,
    ensures
        r == spec_calculate_profit_per(price_in, price_out, *trade_type),
{
    let profit = calculate_profit(price_in, price_out, trade_type);
    per_bp(profit, price_in)
}

/// The highest high over a nonempty run of candles.
pub open spec fn seq_max_high(s: Seq<Candle>) -> int
    recommends
        s.len() > 0,
    decreases s.len(),
{
    if s.len() <= 1 {
        s[0].high as int
    } else {
        let m = seq_max_high(s.drop_last());
        if s.last().high > m {
            s.last().high as int
        } else {
            m
        }
    }
}

/// The lowest low over a nonempty run of candles.
pub open spec fn seq_min_low(s: Seq<Candle>) -> int
    recommends
        s.len() > 0,
    decreases s.len(),
{
    if s.len() <= 1 {
        s[0].low as int
    } else {
        let m = seq_min_low(s.drop_last());
        if s.last().low < m {
            s.last().low as int
        } else {
            m
        }
    }
}

fn max_high_in(data: &Vec<Candle>, index_in: usize, index_out: usize) -> (r: i64)
    requires
        index_in <= index_out < data@.len(),
        forall|k: int| 0 <= k < data@.len() ==> candle_wf(#[trigger] data@[k]),
    ensures
        r == seq_max_high(data@.subrange(index_in as int, index_out + 1)),
        price_ok(r),
{
    let _data_len = data.len();
    let mut max_h = data[index_in].high;
    let mut i = index_in + 1;
    while i <= index_out
        invariant
            index_in < i <= index_out + 1,
            index_out < data@.len(),
            data@.len() <= usize::MAX,
            forall|k: int| 0 <= k < data@.len() ==> candle_wf(#[trigger] data@[k]),
            max_h == seq_max_high(data@.subrange(index_in as int, i as int)),
            price_ok(max_h),
        decreases index_out + 1 - i,
    {
        proof {
            assert(data@.subrange(index_in as int, i + 1).drop_last() =~= data@.subrange(
                index_in as int,
                i as int,
            ));
            assert(data@.subrange(index_in as int, i + 1).last() == data@[i as int]);
        }
        let h = data[i].high;
        if h > max_h {
            max_h = h;
        }
        i = i + 1;
    }
    max_h
}

fn min_low_in(data: &Vec<Candle>, index_in: usize, index_out: usize) -> (r: i64)
    requires
        index_in <= index_out < data@.len(),
        forall|k: int| 0 <= k < data@.len() ==> candle_wf(#[trigger] data@[k]),
    ensures
        r == seq_min_low(data@.subrange(index_in as int, index_out + 1)),
        price_ok(r),
{
    let _data_len = data.len();
    let mut min_l = data[index_in].low;
    let mut i = index_in + 1;
    while i <= index_out
        invariant
            index_in < i <= index_out + 1,
            index_out < data@.len(),
            data@.len() <= usize::MAX,
            forall|k: int| 0 <= k < data@.len() ==> candle_wf(#[trigger] data@[k]),
            min_l == seq_min_low(data@.subrange(index_in as int, i as int)),
            price_ok(min_l),
        decreases index_out + 1 - i,
    {
        proof {
            assert(data@.subrange(index_in as int, i + 1).drop_last() =~= data@.subrange(
                index_in as int,
                i as int,
            ));
            assert(data@.subrange(index_in as int, i + 1).last() == data@[i as int]);
        }
        let l = data[i].low;
        if l < min_l {
            min_l = l;
        }
        i = i + 1;
    }
    min_l
}

/// Best unrealized excursion over the holding window, relative to the entry
/// price and floored at zero: the highest high above the entry for a long
/// trade, the lowest low below it for a short one.
pub open spec fn spec_calculate_runup(
    data: Seq<Candle>,
    price_in: i64,
    index_in: int,
    index_out: int,
    trade_type: TradeType,
) -> int {
    let window = data.subrange(index_in, index_out + 1);
    let excursion = if trade_type_is_long(trade_type) {
        seq_max_high(window) - price_in
    } else {
        price_in - seq_min_low(window)
    };
    if excursion > 0 {
        excursion
    } else {
        0
    }
}

pub fn calculate_runup(
    data: &Vec<Candle>,
    price_in: i64,
    index_in: usize,
    index_out: usize,
    trade_type: &TradeType,
) -> (r: i64)
    requires
        index_in <= index_out < data@.len(),
        forall|k: int| 0 <= k < data@.len() ==> candle_wf(#[trigger] data@[k]),
        0 <= price_in <= 2 * PRICE_MAX,
    ensures
        r == spec_calculate_runup(data@, price_in, index_in as int, index_out as int, *trade_type),
        0 <= r <= 2 * PRICE_MAX,
{
    let excursion = if trade_type.is_long() {
        let m = max_high_in(data, index_in, index_out);
        m - price_in
    } else {
        let m = min_low_in(data, index_in, index_out);
        price_in - m
    };
    if excursion > 0 {
        excursion
    } else {
        0
    }
}

/// Run-up as basis points of the entry price.
pub open spec fn spec_calculate_runup_per(run_up: i64, price_in: i64, trade_type: TradeType) -> int {
    spec_per_bp(run_up as int, price_in)
}

pub fn calculate_runup_per(run_up: i64, price_in: i64, trade_type: &TradeType) -> (r: i64)
    requires
        -16 * PRICE_MAX <= run_up <= 16 * PRICE_MAX,
    ensures
        r == spec_calculate_runup_per(run_up, price_in, *trade_type),
{
    per_bp(run_up, price_in)
}

/// Worst unrealized excursion over the holding window, relative to the entry
/// price and floored at zero: the lowest low below the entry for a long
/// trade, the highest high above it for a short one.
pub open spec fn spec_calculate_drawdown(
    data: Seq<Candle>,
    price_in: i64,
    index_in: int,
    index_out: int,
    trade_type: TradeType,
) -> int {
    let window = data.subrange(index_in, index_out + 1);
    let excursion = if trade_type_is_long(trade_type) {
        price_in - seq_min_low(window)
    } else {
        seq_max_high(window) - price_in
    };
    if excursion > 0 {
        excursion
    } else {
        0
    }
}

pub fn calculate_drawdown(
    data: &Vec<Candle>,
    price_in: i64,
    index_in: usize,
    index_out: usize,
    trade_type: &TradeType,
) -> (r: i64)
    requires
        index_in <= index_out < data@.len(),
        forall|k: int| 0 <= k < data@.len() ==> candle_wf(#[trigger] data@[k]),
        0 <= price_in <= 2 * PRICE_MAX,
    ensures
        r == spec_calculate_drawdown(
            data@,
            price_in,
            index_in as int,
            index_out as int,
            *trade_type,
        ),
        0 <= r <= 2 * PRICE_MAX,
{
    let excursion = if trade_type.is_long() {
        let m = min_low_in(data, index_in, index_out);
        price_in - m
    } else {
        let m = max_high_in(data, index_in, index_out);
        m - price_in
    };
    if excursion > 0 {
        excursion
    } else {
        0
    }
}

/// Drawdown as basis points of the entry price.
pub open spec fn spec_calculate_drawdown_per(
    draw_down: i64,
    price_in: i64,
    trade_type: TradeType,
) -> int {
    spec_per_bp(draw_down as int, price_in)
}

pub fn calculate_drawdown_per(draw_down: i64, price_in: i64, trade_type: &TradeType) -> (r: i64)
    requires
        -16 * PRICE_MAX <= draw_down <= 16 * PRICE_MAX,
    ensures
        r == spec_calculate_drawdown_per(draw_down, price_in, *trade_type),
{
    per_bp(draw_down, price_in)
}

/// Law: the sign of a trade's profit matches its direction — a long trade
/// earns exactly `price_out - price_in`, a short one exactly
/// `price_in - price_out`, and the profit percentage is the profit over the
/// entry price, scaled to basis points and truncated toward zero.
pub proof fn lemma_profit_sign_matches_direction(
    price_in: i64,
    price_out: i64,
    trade_type: TradeType,
)
    ensures
        trade_type_is_long(trade_type) ==> spec_calculate_profit(price_in, price_out, trade_type)
            == price_out - price_in,
        !trade_type_is_long(trade_type) ==> spec_calculate_profit(price_in, price_out, trade_type)
            == price_in - price_out,
        price_in > 0 && spec_calculate_profit(price_in, price_out, trade_type) >= 0
            ==> spec_calculate_profit_per(price_in, price_out, trade_type)
            == spec_calculate_profit(price_in, price_out, trade_type) * BASIS_POINT_SCALE
            / price_in as int,
        price_in > 0 && spec_calculate_profit(price_in, price_out, trade_type) < 0
            ==> spec_calculate_profit_per(price_in, price_out, trade_type) == -((-spec_calculate_profit(
            price_in,
            price_out,
            trade_type,
        )) * BASIS_POINT_SCALE / price_in as int),
{
}

} // verus!
