//! Realized trades: entries, exits, and the position a scan step resolves
//! to. Prices are fixed-point integers; timestamps are milliseconds.

use vstd::prelude::*;

use crate::calc::calculate_drawdown;
use crate::calc::calculate_drawdown_per;
use crate::calc::calculate_profit;
use crate::calc::calculate_profit_per;
use crate::calc::calculate_quantity;
use crate::calc::calculate_runup;
use crate::calc::calculate_runup_per;
use crate::calc::spec_calculate_drawdown;
use crate::calc::spec_calculate_profit;
use crate::calc::spec_calculate_profit_per;
use crate::calc::spec_calculate_quantity;
use crate::calc::spec_calculate_runup;
use crate::calc::spec_per_bp;
use crate::candle::Candle;
use crate::config::Config;
use crate::config::OrderEngine;
use crate::instrument::instrument_wf;
use crate::instrument::Instrument;
use crate::mode::ExecutionMode;
use crate::order::{Order, OrderType};
use crate::price_ok;
use crate::pricing::pricing_wf;
use crate::pricing::Pricing;
use crate::PRICE_MAX;

verus! {

#[derive(Debug, Clone, Copy, PartialEq, Eq, Structural)]
pub enum TradeDirection {
    Long,
    Short,
    Neutral,
}

impl TradeDirection {
    pub fn is_long(&self) -> (r: bool)
        ensures
            r == (*self == TradeDirection::Long),
    {
        match *self {
            TradeDirection::Long => true,
            _ => false,
        }
    }

    pub fn is_short(&self) -> (r: bool)
        ensures
            r == (*self == TradeDirection::Short),
    {
        match *self {
            TradeDirection::Short => true,
            _ => false,
        }
    }
}

#[derive(Debug, Clone, Copy, PartialEq, Eq, Structural)]
pub enum TradeType {
    MarketInLong,
    MarketOutLong,
    MarketInShort,
    MarketOutShort,
    OrderInLong,
    OrderOutLong,
    OrderInShort,
    OrderOutShort,
    StopLossLong,
    StopLossShort,
    Undefined,
}

/// An entry-class trade opens a position.
pub open spec fn trade_type_is_entry(t: TradeType) -> bool {
    t == TradeType::MarketInLong || t == TradeType::MarketInShort || t == TradeType::OrderInLong
        || t == TradeType::OrderInShort
}

/// An exit-class trade closes a position.
pub open spec fn trade_type_is_exit(t: TradeType) -> bool {
    t == TradeType::MarketOutLong || t == TradeType::MarketOutShort || t == TradeType::OrderOutLong
        || t == TradeType::StopLossLong || t == TradeType::StopLossShort || t
        == TradeType::OrderOutShort
}

pub open spec fn trade_type_is_long(t: TradeType) -> bool {
    t == TradeType::MarketInLong || t == TradeType::MarketOutLong || t == TradeType::StopLossLong
        || t == TradeType::OrderInLong || t == TradeType::OrderOutLong
}

pub open spec fn trade_type_is_short(t: TradeType) -> bool {
    t == TradeType::MarketInShort || t == TradeType::MarketOutShort || t == TradeType::OrderInShort
        || t == TradeType::OrderOutShort
}

/// A trade that goes through the pending-order ledger rather than straight
/// to market.
pub open spec fn trade_type_is_order(t: TradeType) -> bool {
    t == TradeType::OrderInLong || t == TradeType::OrderOutLong || t == TradeType::OrderInShort
        || t == TradeType::OrderOutShort || t == TradeType::StopLossLong || t
        == TradeType::StopLossShort
}

pub open spec fn trade_type_is_stop(t: TradeType) -> bool {
    t == TradeType::StopLossLong || t == TradeType::StopLossShort
}

impl TradeType {
    pub fn is_entry(&self) -> (r: bool)
        ensures
            r == trade_type_is_entry(*self),
    {
        match *self {
            TradeType::MarketInLong
            | TradeType::MarketInShort
            | TradeType::OrderInLong
            | TradeType::OrderInShort => true,
            _ => false,
        }
    }

    pub fn is_exit(&self) -> (r: bool)
        ensures
            r == trade_type_is_exit(*self),
    {
        match *self {
            TradeType::MarketOutLong
            | TradeType::MarketOutShort
            | TradeType::OrderOutLong
            | TradeType::StopLossLong
            | TradeType::StopLossShort
            | TradeType::OrderOutShort => true,
            _ => false,
        }
    }

    pub fn is_long(&self) -> (r: bool)
        ensures
            r == trade_type_is_long(*self),
    {
        match *self {
            TradeType::MarketInLong
            | TradeType::MarketOutLong
            | TradeType::StopLossLong
            | TradeType::OrderInLong
            | TradeType::OrderOutLong => true,
            _ => false,
        }
    }

    pub fn is_long_entry(&self) -> (r: bool)
        ensures
            r == (*self == TradeType::MarketInLong || *self == TradeType::OrderInLong),
    {
        match *self {
            TradeType::MarketInLong | TradeType::OrderInLong => true,
            _ => false,
        }
    }

    pub fn is_short(&self) -> (r: bool)
        ensures
            r == trade_type_is_short(*self),
    {
        match *self {
            TradeType::MarketInShort
            | TradeType::MarketOutShort
            | TradeType::OrderInShort
            | TradeType::OrderOutShort => true,
            _ => false,
        }
    }

    pub fn is_short_entry(&self) -> (r: bool)
        ensures
            r == (*self == TradeType::MarketInShort || *self == TradeType::OrderInShort),
    {
        match *self {
            TradeType::MarketInShort | TradeType::OrderInShort => true,
            _ => false,
        }
    }

    pub fn is_order(&self) -> (r: bool)
        ensures
            r == trade_type_is_order(*self),
    {
        match *self {
            TradeType::OrderInLong
            | TradeType::OrderOutLong
            | TradeType::OrderInShort
            | TradeType::OrderOutShort
            | TradeType::StopLossLong
            | TradeType::StopLossShort => true,
            _ => false,
        }
    }

    pub fn is_stop(&self) -> (r: bool)
        ensures
            r == trade_type_is_stop(*self),
    {
        match *self {
            TradeType::StopLossLong | TradeType::StopLossShort => true,
            _ => false,
        }
    }
}

/// The trade type a name string denotes; anything unrecognized is `Undefined`.
pub open spec fn trade_type_of_str(s: Seq<char>) -> TradeType {
    if s == "MarketInLong"@ {
        TradeType::MarketInLong
    } else if s == "MarketOutLong"@ {
        TradeType::MarketOutLong
    } else if s == "MarketInShort"@ {
        TradeType::MarketInShort
    } else if s == "MarketOutShort"@ {
        TradeType::MarketOutShort
    } else if s == "OrderInLong"@ {
        TradeType::OrderInLong
    } else if s == "OrderOutLong"@ {
        TradeType::OrderOutLong
    } else if s == "OrderInShort"@ {
        TradeType::OrderInShort
    } else if s == "OrderOutShort"@ {
        TradeType::OrderOutShort
    } else if s == "StopLossLong"@ {
        TradeType::StopLossLong
    } else if s == "StopLossShort"@ {
        TradeType::StopLossShort
    } else {
        TradeType::Undefined
    }
}

pub fn type_from_str(trade_type: &str) -> (r: TradeType)
    ensures
        r == trade_type_of_str(trade_type@),
{
    let s = String::from_str(trade_type);
    if s == String::from_str("MarketInLong") {
        TradeType::MarketInLong
    } else if s == String::from_str("MarketOutLong") {
        TradeType::MarketOutLong
    } else if s == String::from_str("MarketInShort") {
        TradeType::MarketInShort
    } else if s == String::from_str("MarketOutShort") {
        TradeType::MarketOutShort
    } else if s == String::from_str("OrderInLong") {
        TradeType::OrderInLong
    } else if s == String::from_str("OrderOutLong") {
        TradeType::OrderOutLong
    } else if s == String::from_str("OrderInShort") {
        TradeType::OrderInShort
    } else if s == String::from_str("OrderOutShort") {
        TradeType::OrderOutShort
    } else if s == String::from_str("StopLossLong") {
        TradeType::StopLossLong
    } else if s == String::from_str("StopLossShort") {
        TradeType::StopLossShort
    } else {
        TradeType::Undefined
    }
}

/// The resolved outcome of one scan step.
#[derive(Debug, Clone)]
pub enum Position {
    MarketIn(Option<Vec<OrderType>>),
    MarketOut(Option<Vec<OrderType>>),
    MarketInOrder(Order),
    MarketOutOrder(Order),
    Order(Vec<OrderType>),
    Idle,
}

/// A realized entry.
#[derive(Debug, Clone, Copy, PartialEq, Eq, Structural)]
pub struct TradeIn {
    pub id: i64,
    pub index_in: usize,
    pub quantity: i64,
    pub origin_price: i64,
    pub price_in: i64,
    pub ask: i64,
    pub spread: i64,
    pub date_in: i64,
    pub trade_type: TradeType,
}

/// A realized exit, with the realized aggregates a backtest computes.
#[derive(Debug, Clone, Copy, PartialEq, Eq, Structural)]
pub struct TradeOut {
    pub id: i64,
    pub trade_type: TradeType,
    pub index_in: usize,
    pub price_in: i64,
    pub ask: i64,
    pub spread_in: i64,
    pub date_in: i64,
    pub index_out: usize,
    pub price_origin: i64,
    pub price_out: i64,
    pub bid: i64,
    pub spread_out: i64,
    pub date_out: i64,
    pub profit: i64,
    pub profit_per: i64,
    pub run_up: i64,
    pub run_up_per: i64,
    pub draw_down: i64,
    pub draw_down_per: i64,
}

#[derive(Debug, Clone)]
pub enum TradeResult {
    TradeIn(TradeIn),
    TradeOut(TradeOut),
    NoTrade,
}

/// What a scan step hands back to the caller once trades are resolved.
#[derive(Debug, Clone)]
pub enum PositionResult {
    MarketIn(TradeResult, Option<Vec<Order>>),
    MarketOut(TradeResult),
    PendingOrder(Vec<Order>),
    MarketInOrder(TradeResult, Order),
    MarketOutOrder(TradeResult, Order),
    Idle,
}

/// Common face of a realized entry or exit.
pub trait Trade {
    spec fn spec_date(&self) -> i64;

    spec fn spec_price_in(&self) -> i64;

    spec fn spec_price_out(&self) -> i64;

    fn get_date(&self) -> (r: i64)
        ensures
            r == self.spec_date(),
    ;

    fn get_price_in(&self) -> (r: i64)
        ensures
            r == self.spec_price_in(),
    ;

    fn get_price_out(&self) -> (r: i64)
        ensures
            r == self.spec_price_out(),
    ;
}

impl Trade for TradeIn {
    open spec fn spec_date(&self) -> i64 {
        self.date_in
    }

    open spec fn spec_price_in(&self) -> i64 {
        self.price_in
    }

    open spec fn spec_price_out(&self) -> i64 {
        self.price_in
    }

    fn get_date(&self) -> (r: i64) {
        self.date_in
    }

    fn get_price_in(&self) -> (r: i64) {
        self.price_in
    }

    fn get_price_out(&self) -> (r: i64) {
        self.price_in
    }
}

impl Trade for TradeOut {
    open spec fn spec_date(&self) -> i64 {
        self.date_out
    }

    open spec fn spec_price_in(&self) -> i64 {
        self.price_in
    }

    open spec fn spec_price_out(&self) -> i64 {
        self.price_out
    }

    fn get_date(&self) -> (r: i64) {
        self.date_out
    }

    fn get_price_in(&self) -> (r: i64) {
        self.price_in
    }

    fn get_price_out(&self) -> (r: i64) {
        self.price_out
    }
}

/// The bar a trade fills on: the next bar in a backtest (next-bar-open
/// semantics), the current one live.
pub open spec fn spec_trade_index(index: int, execution_mode: ExecutionMode) -> int {
    if execution_mode == ExecutionMode::Backtest {
        index + 1
    } else {
        index
    }
}

pub fn calculate_trade_index(
    index: usize,
    _order: Option<&Order>,
    execution_mode: &ExecutionMode,
) -> (r: usize)
    requires
        *execution_mode == ExecutionMode::Backtest ==> index < usize::MAX,
    ensures
        r == spec_trade_index(index as int, *execution_mode),
{
    if execution_mode.is_back_test() {
        index + 1
    } else {
        index
    }
}

/// The order value behind an optional reference.
pub open spec fn spec_opt_order(order: Option<&Order>) -> Option<Order> {
    match order {
        Some(o) => Some(*o),
        None => None,
    }
}

/// The entry this resolution realizes. Only entry-class trade types resolve;
/// the fill price is the triggering order's target under broker-driven fills
/// when an order is present, the fill bar's open otherwise. A long entry
/// pays the spread on top of the fill price; the position size follows from
/// the requested notional size and the effective entry price.
pub open spec fn spec_resolve_trade_in(
    index: usize,
    trade_size: i64,
    data: Seq<Candle>,
    pricing: Pricing,
    trade_type: TradeType,
    order: Option<Order>,
    config: Config,
) -> TradeResult {
    if !trade_type_is_entry(trade_type) {
        TradeResult::NoTrade
    } else {
        let idx = spec_trade_index(index as int, config.execution_mode);
        let candle = data[idx];
        let spread = pricing.spread;
        let price = if config.order_engine == OrderEngine::Broker && order is Some {
            order->0.target_price
        } else {
            candle.open
        };
        let ask = if trade_type_is_long(trade_type) {
            (price + spread) as i64
        } else {
            price
        };
        let price_in = if trade_type_is_long(trade_type) {
            ask
        } else {
            price
        };
        let index_in = if config.execution_mode == ExecutionMode::Backtest {
            idx as usize
        } else {
            candle.date as usize
        };
        TradeResult::TradeIn(
            TradeIn {
                id: candle.date,
                index_in,
                quantity: spec_calculate_quantity(trade_size, price_in),
                origin_price: price,
                price_in,
                ask,
                spread,
                date_in: candle.date,
                trade_type,
            },
        )
    }
}

/// Resolves an activation or a direct market entry into a realized entry
/// with its concrete fill price and position size.
pub fn resolve_trade_in(
    index: usize,
    trade_size: i64,
    instrument: &Instrument,
    pricing: &Pricing,
    trade_type: &TradeType,
    order: Option<&Order>,
    config: &Config,
) -> (r: TradeResult)
    requires
        instrument_wf(*instrument),
        pricing_wf(*pricing),
        0 <= trade_size <= PRICE_MAX,
        trade_type_is_entry(*trade_type) ==> spec_trade_index(index as int, config.execution_mode)
            < instrument.data@.len(),
        order matches Some(o) ==> price_ok(o.target_price),
    ensures
        r == spec_resolve_trade_in(
            index,
            trade_size,
            instrument.data@,
            *pricing,
            *trade_type,
            spec_opt_order(order),
            *config,
        ),
{
    if trade_type.is_entry() {
        let _data_len = instrument.data.len();
        let idx = calculate_trade_index(index, order, &config.execution_mode);
        let spread = pricing.spread;
        let current_candle = instrument.data[idx];
        let current_date = current_candle.date;
        let id = current_date;
        proof {
            assert(crate::candle::candle_wf(current_candle));
        }

        let price = match config.order_engine {
            OrderEngine::Broker => match order {
                Some(order) => order.target_price,
                None => current_candle.open,
            },
            OrderEngine::Bot => current_candle.open,
        };

        let ask = if trade_type.is_long() {
            price + spread
        } else {
            price
        };

        let price_in = if trade_type.is_long() {
            ask
        } else {
            price
        };

        let quantity = calculate_quantity(trade_size, price_in);

        let index_in = if config.execution_mode.is_back_test() {
            idx
        } else {
            #[verifier::truncate]
            (id as usize)
        };

        TradeResult::TradeIn(
            TradeIn {
                id,
                index_in,
                origin_price: price,
                price_in,
                ask,
                spread,
                quantity,
                date_in: current_date,
                trade_type: *trade_type,
            },
        )
    } else {
        TradeResult::NoTrade
    }
}

/// The exit this resolution realizes, if the profitability rule lets it
/// through. A stop-loss exits at its own target level; broker-driven fills
/// use the triggering order's target; anything else exits at the fill bar's
/// open. A backtest charges the spread to a short position's exit and
/// computes the realized profit, its percentage, and the run-up and drawdown
/// over the holding window; live those default to zero pending
/// reconciliation. An exit whose price difference is not positive is
/// suppressed, unless non-profitable exits are allowed or the exit is a
/// stop-loss, which always passes.
pub open spec fn spec_resolve_trade_out(
    index: usize,
    data: Seq<Candle>,
    pricing: Pricing,
    trade_in: TradeIn,
    trade_type: TradeType,
    order: Option<Order>,
    config: Config,
) -> TradeResult {
    let backtest = config.execution_mode == ExecutionMode::Backtest;
    let idx = spec_trade_index(index as int, config.execution_mode);
    let candle = data[idx];
    let spread = pricing.spread;
    let price_in = trade_in.price_in;
    let close_trade_price = if trade_type_is_stop(trade_type) {
        order->0.target_price
    } else {
        candle.open
    };
    let price_out_base = if config.order_engine == OrderEngine::Broker && order is Some {
        order->0.target_price
    } else {
        close_trade_price
    };
    let price_out = if backtest && !trade_type_is_long(trade_in.trade_type) {
        (price_out_base + spread) as i64
    } else {
        price_out_base
    };
    let bid = if trade_type_is_long(trade_type) {
        (price_out + spread) as i64
    } else {
        price_out
    };
    let raw_profit = if trade_type_is_long(trade_in.trade_type) {
        price_out - price_in
    } else {
        price_in - price_out
    };
    let accepted = config.non_profitable_outs || raw_profit > 0 || trade_type_is_stop(trade_type);
    if !accepted {
        TradeResult::NoTrade
    } else {
        let run_up = if backtest {
            spec_calculate_runup(data, price_in, trade_in.index_in as int, idx, trade_in.trade_type)
        } else {
            0
        };
        let draw_down = if backtest {
            spec_calculate_drawdown(
                data,
                price_in,
                trade_in.index_in as int,
                idx,
                trade_in.trade_type,
            )
        } else {
            0
        };
        TradeResult::TradeOut(
            TradeOut {
                id: candle.date,
                trade_type,
                index_in: trade_in.index_in,
                price_in,
                ask: price_in,
                spread_in: trade_in.spread,
                date_in: if backtest {
                    data[trade_in.index_in as int].date
                } else {
                    candle.date
                },
                index_out: idx as usize,
                price_origin: trade_in.price_in,
                price_out,
                bid,
                spread_out: pricing.spread,
                date_out: candle.date,
                profit: if backtest {
                    spec_calculate_profit(price_in, price_out, trade_in.trade_type) as i64
                } else {
                    0
                },
                profit_per: if backtest {
                    spec_calculate_profit_per(price_in, price_out, trade_in.trade_type) as i64
                } else {
                    0
                },
                run_up: run_up as i64,
                run_up_per: if backtest {
                    spec_per_bp(run_up, price_in) as i64
                } else {
                    0
                },
                draw_down: draw_down as i64,
                draw_down_per: if backtest {
                    spec_per_bp(draw_down, price_in) as i64
                } else {
                    0
                },
            },
        )
    }
}

/// Resolves an activation or a direct market exit into a realized exit with
/// its concrete fill price and, in a backtest, the realized aggregates.
#[verifier::rlimit(60)]
pub fn resolve_trade_out(
    index: usize,
    instrument: &Instrument,
    pricing: &Pricing,
    trade_in: &TradeIn,
    trade_type: &TradeType,
    order: Option<&Order>,
    config: &Config,
) -> (r: TradeResult)
    requires
        instrument_wf(*instrument),
        pricing_wf(*pricing),
        spec_trade_index(index as int, config.execution_mode) < instrument.data@.len(),
        trade_type_is_stop(*trade_type) ==> (order matches Some(_)),
        order matches Some(o) ==> -2 * PRICE_MAX <= o.target_price <= 3 * PRICE_MAX,
        0 <= trade_in.price_in <= 2 * PRICE_MAX,
        config.execution_mode == ExecutionMode::Backtest ==> trade_in.index_in <= spec_trade_index(
            index as int,
            config.execution_mode,
        ),
    ensures
        r == spec_resolve_trade_out(
            index,
            instrument.data@,
            *pricing,
            *trade_in,
            *trade_type,
            spec_opt_order(order),
            *config,
        ),
{
    let _data_len = instrument.data.len();
    let backtest = config.execution_mode.is_back_test();
    let spread = pricing.spread;
    let price_in = trade_in.price_in;
    let index_in = trade_in.index_in;
    let spread_in = trade_in.spread;
    let trade_in_type = trade_in.trade_type;

    let idx = calculate_trade_index(index, order, &config.execution_mode);
    let current_candle = instrument.data[idx];
    let current_date = current_candle.date;
    proof {
        assert(crate::candle::candle_wf(current_candle));
    }

    let close_trade_price = if trade_type.is_stop() {
        match order {
            Some(order) => order.target_price,
            None => current_candle.open,
        }
    } else {
        current_candle.open
    };

    let price_out_base = match config.order_engine {
        OrderEngine::Broker => match order {
            Some(order) => order.target_price,
            None => close_trade_price,
        },
        OrderEngine::Bot => close_trade_price,
    };

    let price_out = if backtest && !trade_in_type.is_long() {
        price_out_base + spread
    } else {
        price_out_base
    };

    let bid = if trade_type.is_long() {
        price_out + spread
    } else {
        price_out
    };

    let raw_profit = if trade_in_type.is_long() {
        price_out - price_in
    } else {
        price_in - price_out
    };

    let accepted = config.non_profitable_outs || raw_profit > 0 || trade_type.is_stop();

    if accepted {
        let date_out = current_date;
        let date_in = if backtest {
            instrument.data[index_in].date
        } else {
            current_date
        };
        let profit = if backtest {
            calculate_profit(price_in, price_out, &trade_in_type)
        } else {
            0
        };
        let profit_per = if backtest {
            calculate_profit_per(price_in, price_out, &trade_in_type)
        } else {
            0
        };
        let run_up = if backtest {
            calculate_runup(&instrument.data, price_in, index_in, idx, &trade_in_type)
        } else {
            0
        };
        let run_up_per = if backtest {
            calculate_runup_per(run_up, price_in, &trade_in_type)
        } else {
            0
        };
        let draw_down = if backtest {
            calculate_drawdown(&instrument.data, price_in, index_in, idx, &trade_in_type)
        } else {
            0
        };
        let draw_down_per = if backtest {
            calculate_drawdown_per(draw_down, price_in, &trade_in_type)
        } else {
            0
        };

        TradeResult::TradeOut(
            TradeOut {
                id: current_date,
                index_in,
                price_in,
                trade_type: *trade_type,
                date_in,
                spread_in,
                ask: price_in,
                index_out: idx,
                price_origin: trade_in.price_in,
                price_out,
                bid,
                spread_out: pricing.spread,
                date_out,
                profit,
                profit_per,
                run_up,
                run_up_per,
                draw_down,
                draw_down_per,
            },
        )
    } else {
        TradeResult::NoTrade
    }
}

/// Law: a backtest exit's realized profit follows its entry's direction —
/// exactly `price_out - price_in` for a long position, `price_in -
/// price_out` for a short one — and its recorded percentage is that profit
/// in basis points of the entry price.
pub proof fn lemma_backtest_exit_profit_matches_direction(
    index: usize,
    data: Seq<Candle>,
    pricing: Pricing,
    trade_in: TradeIn,
    trade_type: TradeType,
    order: Option<Order>,
    config: Config,
)
    requires
        config.execution_mode == ExecutionMode::Backtest,
        forall|k: int| 0 <= k < data.len() ==> crate::candle::candle_wf(#[trigger] data[k]),
        pricing_wf(pricing),
        spec_trade_index(index as int, config.execution_mode) < data.len(),
        trade_type_is_stop(trade_type) ==> (order matches Some(_)),
        order matches Some(o) ==> -2 * PRICE_MAX <= o.target_price <= 3 * PRICE_MAX,
        0 <= trade_in.price_in <= 2 * PRICE_MAX,
    ensures
        spec_resolve_trade_out(index, data, pricing, trade_in, trade_type, order, config) matches
            TradeResult::TradeOut(t) ==> {
            &&& trade_type_is_long(trade_in.trade_type) ==> t.profit == t.price_out - t.price_in
            &&& !trade_type_is_long(trade_in.trade_type) ==> t.profit == t.price_in - t.price_out
            &&& t.profit_per == crate::calc::spec_per_bp(t.profit as int, t.price_in)
        },
{
    let idx = spec_trade_index(index as int, config.execution_mode);
    let candle = data[idx];
    assert(crate::candle::candle_wf(candle));
    let r = spec_resolve_trade_out(index, data, pricing, trade_in, trade_type, order, config);
    match r {
        TradeResult::TradeOut(t) => {
            assert(-2 * PRICE_MAX <= t.price_out <= 4 * PRICE_MAX);
            let profit = spec_calculate_profit(t.price_in, t.price_out, trade_in.trade_type);
            assert(-8 * PRICE_MAX <= profit <= 8 * PRICE_MAX);
            assert(t.profit == profit);
            if t.price_in > 0 {
                if profit >= 0 {
                    assert(0 <= profit * crate::calc::BASIS_POINT_SCALE / t.price_in as int
                        <= profit * crate::calc::BASIS_POINT_SCALE) by (nonlinear_arith)
                        requires
                            0 <= profit,
                            t.price_in > 0,
                    ;
                } else {
                    assert(0 <= (-profit) * crate::calc::BASIS_POINT_SCALE / t.price_in as int
                        <= (-profit) * crate::calc::BASIS_POINT_SCALE) by (nonlinear_arith)
                        requires
                            profit < 0,
                            t.price_in > 0,
                    ;
                }
            }
        },
        _ => {},
    }
}

/// Law: a stop-loss exit is always let through, whatever the sign of its
/// profit and whether or not non-profitable exits are allowed; suppression
/// only ever applies to non-stop exits.
pub proof fn lemma_stop_exit_never_suppressed(
    index: usize,
    data: Seq<Candle>,
    pricing: Pricing,
    trade_in: TradeIn,
    trade_type: TradeType,
    order: Option<Order>,
    config: Config,
)
    requires
        trade_type_is_stop(trade_type),
    ensures
        spec_resolve_trade_out(index, data, pricing, trade_in, trade_type, order, config) matches
            TradeResult::TradeOut(_),
{
}

} // verus!
