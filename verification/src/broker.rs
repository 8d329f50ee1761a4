//! The decisions a broker session makes around its wire calls: which side of
//! the quote a fill pays, and whether a close is accepted. The session and
//! its transport are external collaborators; these functions take an
//! already-fetched quote and the current time and decide.

use vstd::prelude::*;

use crate::calc::calculate_quantity;
use crate::calc::spec_calculate_quantity;
use crate::order::order_type_is_long;
use crate::order::Order;
use crate::price_ok;
use crate::trade::trade_type_is_long;
use crate::trade::trade_type_is_stop;
use crate::trade::TradeIn;
use crate::trade::TradeOut;
use crate::trade::TradeType;
use crate::PRICE_MAX;

verus! {

/// A market entry filled against the live quote: a long pays the ask, a
/// short receives the bid; the entry is always accepted.
pub open spec fn spec_open_trade_fill(
    data: TradeIn,
    ask: i64,
    bid: i64,
    spread: i64,
    now: i64,
) -> TradeIn {
    let price_in = if trade_type_is_long(data.trade_type) {
        ask
    } else {
        bid
    };
    TradeIn { id: now, price_in, ask, spread, ..data }
}

pub fn open_trade_fill(data: &TradeIn, ask: i64, bid: i64, spread: i64, now: i64) -> (r: TradeIn)
    ensures
        r == spec_open_trade_fill(*data, ask, bid, spread, now),
{
    let price_in = if data.trade_type.is_long() {
        ask
    } else {
        bid
    };
    TradeIn { id: now, price_in, ask, spread, ..*data }
}

/// A market close priced against the live quote: a long receives the bid, a
/// short pays the ask; the close is accepted when non-profitable exits are
/// allowed or its profit is positive.
pub open spec fn spec_close_trade_fill(
    data: TradeOut,
    ask: i64,
    bid: i64,
    spread: i64,
    non_profitable_outs: bool,
    now: i64,
) -> (TradeOut, bool) {
    let price_out = if trade_type_is_long(data.trade_type) {
        bid
    } else {
        ask
    };
    let profit = if trade_type_is_long(data.trade_type) {
        price_out - data.price_in
    } else {
        data.price_in - price_out
    };
    let accepted = non_profitable_outs || profit > 0;
    (TradeOut { id: now, price_out, date_out: now, bid, ask, spread_out: spread, ..data }, accepted)
}

pub fn close_trade_fill(
    data: &TradeOut,
    ask: i64,
    bid: i64,
    spread: i64,
    non_profitable_outs: bool,
    now: i64,
) -> (r: (TradeOut, bool))
    requires
        price_ok(ask),
        price_ok(bid),
        -2 * PRICE_MAX <= data.price_in <= 2 * PRICE_MAX,
    ensures
        r == spec_close_trade_fill(*data, ask, bid, spread, non_profitable_outs, now),
{
    let price_out = if data.trade_type.is_long() {
        bid
    } else {
        ask
    };
    let profit = if data.trade_type.is_long() {
        price_out - data.price_in
    } else {
        data.price_in - price_out
    };
    let accepted = non_profitable_outs || profit > 0;
    (
        TradeOut { id: now, price_out, date_out: now, bid, ask, spread_out: spread, ..*data },
        accepted,
    )
}

/// A pending order turned into a realized entry against the live quote: the
/// trade direction follows the order's, a long pays the ask, a short
/// receives the bid, and the position size follows from the order's size at
/// the fill price.
pub open spec fn spec_open_order_fill(
    order: Order,
    ask: i64,
    bid: i64,
    spread: i64,
    now: i64,
) -> TradeIn {
    let trade_type = if order_type_is_long(order.order_type) {
        TradeType::OrderInLong
    } else {
        TradeType::OrderInShort
    };
    let price_in = if trade_type_is_long(trade_type) {
        ask
    } else {
        bid
    };
    TradeIn {
        id: now,
        index_in: order.index_created,
        quantity: spec_calculate_quantity(order.size, price_in),
        origin_price: order.origin_price,
        price_in,
        ask,
        spread,
        date_in: now,
        trade_type,
    }
}

pub fn open_order_fill(order: &Order, ask: i64, bid: i64, spread: i64, now: i64) -> (r: TradeIn)
    requires
        0 <= order.size <= PRICE_MAX,
    ensures
        r == spec_open_order_fill(*order, ask, bid, spread, now),
{
    let trade_type = if order.order_type.is_long() {
        TradeType::OrderInLong
    } else {
        TradeType::OrderInShort
    };
    let price_in = if trade_type.is_long() {
        ask
    } else {
        bid
    };
    let quantity = calculate_quantity(order.size, price_in);
    TradeIn {
        id: now,
        index_in: order.index_created,
        quantity,
        origin_price: order.origin_price,
        price_in,
        ask,
        spread,
        date_in: now,
        trade_type: trade_type,
    }
}

/// An order-driven close priced against the live quote. A stop-loss closes
/// at its own target level (spread added on the short side) and is always
/// accepted; any other close takes the quote's matching side and passes only
/// when non-profitable exits are allowed or its profit is positive.
pub open spec fn spec_close_order_fill(
    data: TradeOut,
    order: Order,
    ask: i64,
    bid: i64,
    spread: i64,
    non_profitable_outs: bool,
    now: i64,
) -> (TradeOut, bool) {
    let price_out = if trade_type_is_stop(data.trade_type) {
        if trade_type_is_long(data.trade_type) {
            order.target_price
        } else {
            (order.target_price + spread) as i64
        }
    } else {
        if trade_type_is_long(data.trade_type) {
            bid
        } else {
            ask
        }
    };
    let profit = if trade_type_is_long(data.trade_type) {
        price_out - data.price_in
    } else {
        data.price_in - price_out
    };
    let accepted = trade_type_is_stop(data.trade_type) || non_profitable_outs || profit > 0;
    (TradeOut { id: now, price_out, date_out: now, bid, ask, spread_out: spread, ..data }, accepted)
}

pub fn close_order_fill(
    data: &TradeOut,
    order: &Order,
    ask: i64,
    bid: i64,
    spread: i64,
    non_profitable_outs: bool,
    now: i64,
) -> (r: (TradeOut, bool))
    requires
        price_ok(ask),
        price_ok(bid),
        price_ok(spread),
        -2 * PRICE_MAX <= data.price_in <= 2 * PRICE_MAX,
        -2 * PRICE_MAX <= order.target_price <= 3 * PRICE_MAX,
    ensures
        r == spec_close_order_fill(*data, *order, ask, bid, spread, non_profitable_outs, now),
{
    let price_out = if data.trade_type.is_stop() {
        if data.trade_type.is_long() {
            order.target_price
        } else {
            order.target_price + spread
        }
    } else {
        if data.trade_type.is_long() {
            bid
        } else {
            ask
        }
    };
    let profit = if data.trade_type.is_long() {
        price_out - data.price_in
    } else {
        data.price_in - price_out
    };
    let accepted = data.trade_type.is_stop() || non_profitable_outs || profit > 0;
    (
        TradeOut { id: now, price_out, date_out: now, bid, ask, spread_out: spread, ..*data },
        accepted,
    )
}

} // verus!
