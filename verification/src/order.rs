//! Pending orders and their ledger: creation and validation, capacity-checked
//! batch insertion, cross-price activation detection, expiry and
//! fulfillment.

use vstd::prelude::*;

use crate::candle::candle_wf;
use crate::candle::Candle;
use crate::config::config_wf;
use crate::config::ActivationSource;
use crate::config::Config;
use crate::config::OrderEngine;
use crate::error::RsAlgoError;
use crate::error::RsAlgoErrorKind;
use crate::instrument::instrument_wf;
use crate::instrument::Instrument;
use crate::mode::ExecutionMode;
use crate::price_ok;
use crate::pricing::pricing_wf;
use crate::pricing::Pricing;
use crate::time_frame::spec_to_number;
use crate::time_frame::TimeFrameType;
use crate::PRICE_MAX;
use crate::trade::Position;
use crate::trade::Trade;
use crate::trade::TradeType;

verus! {

/// Up activates when price rises to or through the target; Down when it
/// falls to or through it.
#[derive(Debug, Clone, Copy, PartialEq, Eq, Structural)]
pub enum OrderDirection {
    Up,
    Down,
}

#[derive(Debug, Clone, Copy, PartialEq, Eq, Structural)]
pub enum OrderCondition {
    Greater,
    Equal,
    Lower,
}

#[derive(Debug, Clone, Copy, PartialEq, Eq, Structural)]
pub enum OrderStatus {
    Pending,
    Fulfilled,
    Canceled,
}

/// How a stop-loss level is derived: an absolute price, or a distance from
/// the entry level in pips.
#[derive(Debug, Clone, Copy, PartialEq, Eq, Structural)]
pub enum StopLossType {
    Price(i64),
    Pips(i64),
}

/// A pending or resolved instruction to enter or exit a position, with its
/// direction, size and activation level.
#[derive(Debug, Clone, Copy, PartialEq, Eq, Structural)]
pub enum OrderType {
    BuyOrderLong { direction: OrderDirection, size: i64, target_price: i64 },
    BuyOrderShort { direction: OrderDirection, size: i64, target_price: i64 },
    SellOrderLong { direction: OrderDirection, size: i64, target_price: i64 },
    SellOrderShort { direction: OrderDirection, size: i64, target_price: i64 },
    TakeProfitLong { direction: OrderDirection, size: i64, target_price: i64 },
    TakeProfitShort { direction: OrderDirection, size: i64, target_price: i64 },
    StopLossLong { direction: OrderDirection, stop_loss_type: StopLossType },
    StopLossShort { direction: OrderDirection, stop_loss_type: StopLossType },
}

pub open spec fn order_type_is_long(t: OrderType) -> bool {
    t matches OrderType::BuyOrderLong { .. } || t matches OrderType::SellOrderLong { .. }
        || t matches OrderType::TakeProfitLong { .. }
}

/// Entries open a position.
pub open spec fn order_type_is_entry(t: OrderType) -> bool {
    t matches OrderType::BuyOrderLong { .. } || t matches OrderType::BuyOrderShort { .. }
}

/// Exits and take-profits close one.
pub open spec fn order_type_is_exit(t: OrderType) -> bool {
    t matches OrderType::SellOrderLong { .. } || t matches OrderType::SellOrderShort { .. }
        || t matches OrderType::TakeProfitLong { .. } || t matches OrderType::TakeProfitShort {
        ..
    }
}

pub open spec fn order_type_is_stop(t: OrderType) -> bool {
    t matches OrderType::StopLossLong { .. } || t matches OrderType::StopLossShort { .. }
}

impl OrderType {
    pub fn is_long(&self) -> (r: bool)
        ensures
            r == order_type_is_long(*self),
    {
        match self {
            OrderType::BuyOrderLong { .. }
            | OrderType::SellOrderLong { .. }
            | OrderType::TakeProfitLong { .. } => true,
            _ => false,
        }
    }

    pub fn is_entry(&self) -> (r: bool)
        ensures
            r == order_type_is_entry(*self),
    {
        match *self {
            OrderType::BuyOrderLong { .. } | OrderType::BuyOrderShort { .. } => true,
            _ => false,
        }
    }

    pub fn is_exit(&self) -> (r: bool)
        ensures
            r == order_type_is_exit(*self),
    {
        match *self {
            OrderType::SellOrderLong { .. }
            | OrderType::SellOrderShort { .. }
            | OrderType::TakeProfitLong { .. }
            | OrderType::TakeProfitShort { .. } => true,
            _ => false,
        }
    }

    pub fn is_stop(&self) -> (r: bool)
        ensures
            r == order_type_is_stop(*self),
    {
        match self {
            OrderType::StopLossLong { .. } | OrderType::StopLossShort { .. } => true,
            _ => false,
        }
    }
}

#[derive(Debug, Clone, Copy, PartialEq, Eq, Structural)]
pub struct Order {
    /// Time-derived identifier: the creation bar's timestamp.
    pub id: i64,
    /// Links related orders, e.g. an entry and its stop.
    pub trade_id: i64,
    pub index_created: usize,
    pub index_fulfilled: usize,
    pub size: i64,
    pub order_type: OrderType,
    pub status: OrderStatus,
    /// Price at creation.
    pub origin_price: i64,
    /// Activation level.
    pub target_price: i64,
    pub created_at: i64,
    pub updated_at: Option<i64>,
    pub full_filled_at: Option<i64>,
    pub valid_until: Option<i64>,
}

pub open spec fn spec_is_pending(o: Order) -> bool {
    o.status == OrderStatus::Pending
}

/// A pending order is still valid while the comparison date lies strictly
/// before its deadline; an order without a deadline is never still valid.
pub open spec fn spec_is_still_valid(o: Order, date_compare: i64) -> bool {
    &&& o.status == OrderStatus::Pending
    &&& match o.valid_until {
        Some(v) => date_compare < v,
        None => false,
    }
}

/// The trade type an order of this type resolves to.
pub open spec fn spec_to_trade_type(t: OrderType) -> TradeType {
    match t {
        OrderType::BuyOrderLong { .. } => TradeType::MarketInLong,
        OrderType::SellOrderLong { .. } => TradeType::MarketOutLong,
        OrderType::TakeProfitLong { .. } => TradeType::MarketOutLong,
        OrderType::StopLossLong { .. } => TradeType::StopLossLong,
        OrderType::BuyOrderShort { .. } => TradeType::MarketInShort,
        OrderType::SellOrderShort { .. } => TradeType::MarketOutShort,
        OrderType::TakeProfitShort { .. } => TradeType::MarketOutShort,
        OrderType::StopLossShort { .. } => TradeType::StopLossShort,
    }
}

impl Order {
    pub fn set_status(&mut self, val: OrderStatus)
        ensures
            *final(self) == (Order { status: val, ..*old(self) }),
    {
        self.status = val
    }

    pub fn set_updated_at(&mut self, val: i64)
        ensures
            *final(self) == (Order { updated_at: Some(val), ..*old(self) }),
    {
        self.updated_at = Some(val)
    }

    pub fn set_full_filled_index(&mut self, val: usize)
        ensures
            *final(self) == (Order { index_fulfilled: val, ..*old(self) }),
    {
        self.index_fulfilled = val
    }

    pub fn set_full_filled_at(&mut self, val: i64)
        ensures
            *final(self) == (Order { full_filled_at: Some(val), ..*old(self) }),
    {
        self.full_filled_at = Some(val)
    }

    pub fn set_trade_id(&mut self, val: i64)
        ensures
            *final(self) == (Order { trade_id: val, ..*old(self) }),
    {
        self.trade_id = val
    }

    pub fn set_valid_until(&mut self, val: i64)
        ensures
            *final(self) == (Order { valid_until: Some(val), ..*old(self) }),
    {
        self.valid_until = Some(val)
    }

    pub fn size(&self) -> (r: i64)
        ensures
            r == self.size,
    {
        self.size
    }

    pub fn update_pricing(&mut self, origin_price: i64, target_price: i64)
        ensures
            *final(self) == (Order { origin_price, target_price, ..*old(self) }),
    {
        self.origin_price = origin_price;
        self.target_price = target_price;
    }

    /// The fulfilled version of an order: status, fulfillment index and both
    /// timestamps set, everything else kept.
    pub open spec fn spec_fulfilled(self, index: usize, date: i64) -> Order {
        Order {
            index_fulfilled: index,
            status: OrderStatus::Fulfilled,
            updated_at: Some(date),
            full_filled_at: Some(date),
            ..self
        }
    }

    pub fn fulfill_order(&mut self, index: usize, date: i64)
        ensures
            *final(self) == old(self).spec_fulfilled(index, date),
    {
        self.set_full_filled_index(index);
        self.set_status(OrderStatus::Fulfilled);
        self.set_updated_at(date);
        self.set_full_filled_at(date);
    }

    /// The canceled version of an order: status Canceled, update timestamp
    /// set, everything else kept.
    pub open spec fn spec_canceled(self, date: i64) -> Order {
        Order { status: OrderStatus::Canceled, updated_at: Some(date), ..self }
    }

    pub fn cancel_order(&mut self, date: i64)
        ensures
            *final(self) == old(self).spec_canceled(date),
    {
        self.set_status(OrderStatus::Canceled);
        self.set_updated_at(date);
    }

    pub fn is_full_filled(&self) -> (r: bool)
        ensures
            r == (self.full_filled_at is Some),
    {
        match self.full_filled_at {
            Some(_) => true,
            None => false,
        }
    }

    pub fn is_pending(&self) -> (r: bool)
        ensures
            r == spec_is_pending(*self),
    {
        match self.status {
            OrderStatus::Pending => true,
            _ => false,
        }
    }

    pub fn to_trade_type(&self) -> (r: TradeType)
        ensures
            r == spec_to_trade_type(self.order_type),
    {
        match self.order_type {
            OrderType::BuyOrderLong { .. } => TradeType::MarketInLong,
            OrderType::SellOrderLong { .. } | OrderType::TakeProfitLong { .. } => {
                TradeType::MarketOutLong
            },
            OrderType::StopLossLong { .. } => TradeType::StopLossLong,
            OrderType::BuyOrderShort { .. } => TradeType::MarketInShort,
            OrderType::SellOrderShort { .. } | OrderType::TakeProfitShort { .. } => {
                TradeType::MarketOutShort
            },
            OrderType::StopLossShort { .. } => TradeType::StopLossShort,
        }
    }

    pub fn is_still_valid(&self, date_compare: i64) -> (r: bool)
        ensures
            r == spec_is_still_valid(*self, date_compare),
    {
        match self.valid_until {
            Some(v) => date_compare < v && self.is_pending(),
            None => false,
        }
    }
}

/// The capacity category an order belongs to: entries, exits and
/// take-profits, or stop-losses. The three partition the order types.
#[derive(Debug, Clone, Copy, PartialEq, Eq, Structural)]
pub enum OrderCategory {
    Buy,
    Sell,
    Stop,
}

pub open spec fn spec_category(t: OrderType) -> OrderCategory {
    if order_type_is_entry(t) {
        OrderCategory::Buy
    } else if order_type_is_stop(t) {
        OrderCategory::Stop
    } else {
        OrderCategory::Sell
    }
}

impl OrderType {
    pub fn category(&self) -> (r: OrderCategory)
        ensures
            r == spec_category(*self),
    {
        match *self {
            OrderType::BuyOrderLong { .. } | OrderType::BuyOrderShort { .. } => OrderCategory::Buy,
            OrderType::StopLossLong { .. } | OrderType::StopLossShort { .. } => OrderCategory::Stop,
            _ => OrderCategory::Sell,
        }
    }
}

/// The order is pending and belongs to the category.
pub open spec fn counts_toward(o: Order, c: OrderCategory) -> bool {
    spec_is_pending(o) && spec_category(o.order_type) == c
}

/// How many orders of the sequence are pending and of the category.
pub open spec fn count_matching(s: Seq<Order>, c: OrderCategory) -> nat
    decreases s.len(),
{
    if s.len() == 0 {
        0
    } else {
        count_matching(s.drop_last(), c) + if counts_toward(s.last(), c) {
            1nat
        } else {
            0nat
        }
    }
}

/// How many orders of the sequence are pending, of any category.
pub open spec fn count_pending(s: Seq<Order>) -> nat
    decreases s.len(),
{
    if s.len() == 0 {
        0
    } else {
        count_pending(s.drop_last()) + if spec_is_pending(s.last()) {
            1nat
        } else {
            0nat
        }
    }
}

/// Where the most-recent window of `w` entries starts.
pub open spec fn window_start(len: int, w: int) -> int {
    if len > w {
        len - w
    } else {
        0
    }
}

/// The most recent `w` entries of the ledger (all of it when shorter).
pub open spec fn recent_window(s: Seq<Order>, w: int) -> Seq<Order> {
    s.subrange(window_start(s.len() as int, w), s.len() as int)
}

/// Pending orders of the category within the recency window.
pub open spec fn count_in_window(s: Seq<Order>, w: int, c: OrderCategory) -> nat {
    count_matching(recent_window(s, w), c)
}

pub proof fn lemma_count_push(s: Seq<Order>, o: Order, c: OrderCategory)
    ensures
        count_matching(s.push(o), c) == count_matching(s, c) + if counts_toward(o, c) {
            1nat
        } else {
            0nat
        },
        count_pending(s.push(o)) == count_pending(s) + if spec_is_pending(o) {
            1nat
        } else {
            0nat
        },
{
    assert(s.push(o).drop_last() =~= s);
}

pub proof fn lemma_count_concat(a: Seq<Order>, b: Seq<Order>, c: OrderCategory)
    ensures
        count_matching(a + b, c) == count_matching(a, c) + count_matching(b, c),
    decreases b.len(),
{
    if b.len() == 0 {
        assert(a + b =~= a);
    } else {
        lemma_count_concat(a, b.drop_last(), c);
        assert((a + b).drop_last() =~= a + b.drop_last());
        assert((a + b).last() == b.last());
    }
}

/// Counting over a shorter suffix never yields more.
pub proof fn lemma_count_suffix_mono(s: Seq<Order>, i: int, j: int, c: OrderCategory)
    requires
        0 <= i <= j <= s.len(),
    ensures
        count_matching(s.subrange(j, s.len() as int), c) <= count_matching(
            s.subrange(i, s.len() as int),
            c,
        ),
{
    assert(s.subrange(i, s.len() as int) =~= s.subrange(i, j) + s.subrange(j, s.len() as int));
    lemma_count_concat(s.subrange(i, j), s.subrange(j, s.len() as int), c);
}

pub proof fn lemma_count_singleton(o: Order, c: OrderCategory)
    ensures
        count_matching(seq![o], c) == if counts_toward(o, c) {
            1nat
        } else {
            0nat
        },
{
    assert(count_matching(Seq::<Order>::empty(), c) == 0);
    assert(seq![o].drop_last() =~= Seq::<Order>::empty());
    assert(seq![o].last() == o);
}

/// No count exceeds the length counted over.
pub proof fn lemma_count_le_len(s: Seq<Order>, c: OrderCategory)
    ensures
        count_matching(s, c) <= s.len(),
        count_pending(s) <= s.len(),
    decreases s.len(),
{
    if s.len() > 0 {
        lemma_count_le_len(s.drop_last(), c);
    }
}

/// Pending orders split exactly into the three categories.
pub proof fn lemma_pending_splits_into_categories(s: Seq<Order>)
    ensures
        count_pending(s) == count_matching(s, OrderCategory::Buy) + count_matching(
            s,
            OrderCategory::Sell,
        ) + count_matching(s, OrderCategory::Stop),
    decreases s.len(),
{
    if s.len() > 0 {
        lemma_pending_splits_into_categories(s.drop_last());
    }
}

/// How many pending buy, sell/take-profit and stop-loss orders sit in the
/// most recent `max_pending_orders` entries of the ledger.
pub fn get_num_pending_orders(orders: &Vec<Order>, config: &Config) -> (r: (usize, usize, usize))
    ensures
        r.0 == count_in_window(orders@, config.max_pending_orders as int, OrderCategory::Buy),
        r.1 == count_in_window(orders@, config.max_pending_orders as int, OrderCategory::Sell),
        r.2 == count_in_window(orders@, config.max_pending_orders as int, OrderCategory::Stop),
{
    let len = orders.len();
    let start = if len > config.max_pending_orders {
        len - config.max_pending_orders
    } else {
        0
    };
    let mut buy_orders: usize = 0;
    let mut sell_orders: usize = 0;
    let mut stop_losses: usize = 0;
    let mut i = start;
    while i < len
        invariant
            start <= i <= len,
            len == orders@.len(),
            start == window_start(len as int, config.max_pending_orders as int),
            buy_orders == count_matching(
                orders@.subrange(start as int, i as int),
                OrderCategory::Buy,
            ),
            sell_orders == count_matching(
                orders@.subrange(start as int, i as int),
                OrderCategory::Sell,
            ),
            stop_losses == count_matching(
                orders@.subrange(start as int, i as int),
                OrderCategory::Stop,
            ),
            buy_orders <= i - start,
            sell_orders <= i - start,
            stop_losses <= i - start,
        decreases len - i,
    {
        let order = &orders[i];
        proof {
            assert(orders@.subrange(start as int, i + 1) =~= orders@.subrange(
                start as int,
                i as int,
            ).push(orders@[i as int]));
            lemma_count_push(orders@.subrange(start as int, i as int), orders@[i as int],
                OrderCategory::Buy);
            lemma_count_push(orders@.subrange(start as int, i as int), orders@[i as int],
                OrderCategory::Sell);
            lemma_count_push(orders@.subrange(start as int, i as int), orders@[i as int],
                OrderCategory::Stop);
        }
        if order.is_pending() {
            match order.order_type.category() {
                OrderCategory::Buy => {
                    buy_orders = buy_orders + 1;
                },
                OrderCategory::Sell => {
                    sell_orders = sell_orders + 1;
                },
                OrderCategory::Stop => {
                    stop_losses = stop_losses + 1;
                },
            }
        }
        i = i + 1;
    }
    proof {
        assert(orders@.subrange(start as int, len as int) =~= recent_window(
            orders@,
            config.max_pending_orders as int,
        ));
    }
    (buy_orders, sell_orders, stop_losses)
}

/// The pending orders of the sequence, in ledger order.
pub open spec fn pending_only(s: Seq<Order>) -> Seq<Order>
    decreases s.len(),
{
    if s.len() == 0 {
        Seq::empty()
    } else {
        let rest = pending_only(s.drop_last());
        if spec_is_pending(s.last()) {
            rest.push(s.last())
        } else {
            rest
        }
    }
}

/// The most recent pending orders, up to `max_pending_orders`, in
/// chronological (ledger) order.
pub fn get_pending(orders: &Vec<Order>, config: &Config) -> (r: Vec<Order>)
    ensures
        r@ == pending_only(recent_window(orders@, config.max_pending_orders as int)),
{
    let len = orders.len();
    let start = if len > config.max_pending_orders {
        len - config.max_pending_orders
    } else {
        0
    };
    let mut pending_orders: Vec<Order> = Vec::new();
    let mut i = start;
    while i < len
        invariant
            start <= i <= len,
            len == orders@.len(),
            start == window_start(len as int, config.max_pending_orders as int),
            pending_orders@ == pending_only(orders@.subrange(start as int, i as int)),
        decreases len - i,
    {
        proof {
            assert(orders@.subrange(start as int, i + 1) =~= orders@.subrange(
                start as int,
                i as int,
            ).push(orders@[i as int]));
            assert(orders@.subrange(start as int, i + 1).drop_last() =~= orders@.subrange(
                start as int,
                i as int,
            ));
        }
        let order = &orders[i];
        if order.is_pending() {
            let o = orders[i];
            pending_orders.push(o);
        }
        i = i + 1;
    }
    proof {
        assert(orders@.subrange(start as int, len as int) =~= recent_window(
            orders@,
            config.max_pending_orders as int,
        ));
    }
    pending_orders
}

/// Which of the proposed orders are admitted, given how many pending orders
/// of each category the ledger already holds. Orders are considered in
/// proposal order; each admission consumes capacity. Only pending orders are
/// considered; a buy also needs free stop-loss capacity, since an entry
/// normally travels with its stop.
pub open spec fn spec_admit(
    new: Seq<Order>,
    buys: int,
    sells: int,
    stops: int,
    config: Config,
) -> Seq<Order>
    decreases new.len(),
{
    if new.len() == 0 {
        Seq::empty()
    } else {
        let o = new[0];
        let rest = new.subrange(1, new.len() as int);
        if !spec_is_pending(o) {
            spec_admit(rest, buys, sells, stops, config)
        } else {
            match spec_category(o.order_type) {
                OrderCategory::Buy => {
                    if buys < config.max_buy_orders && stops < config.max_stop_losses {
                        seq![o] + spec_admit(rest, buys + 1, sells, stops, config)
                    } else {
                        spec_admit(rest, buys, sells, stops, config)
                    }
                },
                OrderCategory::Sell => {
                    if sells < config.max_sell_orders {
                        seq![o] + spec_admit(rest, buys, sells + 1, stops, config)
                    } else {
                        spec_admit(rest, buys, sells, stops, config)
                    }
                },
                OrderCategory::Stop => {
                    if stops < config.max_stop_losses {
                        seq![o] + spec_admit(rest, buys, sells, stops + 1, config)
                    } else {
                        spec_admit(rest, buys, sells, stops, config)
                    }
                },
            }
        }
    }
}

/// The ledger after a batch insertion: the admitted orders are appended, in
/// proposal order, unless admitting them would push the number of pending
/// orders past `max_pending_orders` — then the whole batch is rejected and
/// the ledger is unchanged.
pub open spec fn spec_add_pending(orders: Seq<Order>, new: Seq<Order>, config: Config) -> Seq<
    Order,
> {
    let w = config.max_pending_orders as int;
    let admitted = spec_admit(
        new,
        count_in_window(orders, w, OrderCategory::Buy) as int,
        count_in_window(orders, w, OrderCategory::Sell) as int,
        count_in_window(orders, w, OrderCategory::Stop) as int,
        config,
    );
    if admitted.len() + count_pending(recent_window(orders, w)) <= config.max_pending_orders {
        orders + admitted
    } else {
        orders
    }
}

/// Capacity-checked batch insertion: no partial admission past the total
/// ceiling, and per-category admission while capacity remains.
pub fn add_pending(orders: Vec<Order>, new_orders: Vec<Order>, config: &Config) -> (r: Vec<Order>)
    ensures
        r@ == spec_add_pending(orders@, new_orders@, *config),
{
    let (b0, s0, st0) = get_num_pending_orders(&orders, config);
    let len = new_orders.len();
    let mut admitted: Vec<Order> = Vec::new();
    let mut buys = b0;
    let mut sells = s0;
    let mut stops = st0;
    let mut i: usize = 0;
    proof {
        assert(new_orders@.subrange(0, len as int) =~= new_orders@);
        assert(Seq::<Order>::empty() + spec_admit(
            new_orders@,
            b0 as int,
            s0 as int,
            st0 as int,
            *config,
        ) =~= spec_admit(new_orders@, b0 as int, s0 as int, st0 as int, *config));
    }
    while i < len
        invariant
            0 <= i <= len,
            len == new_orders@.len(),
            spec_admit(new_orders@, b0 as int, s0 as int, st0 as int, *config) == admitted@
                + spec_admit(
                new_orders@.subrange(i as int, len as int),
                buys as int,
                sells as int,
                stops as int,
                *config,
            ),
            buys < config.max_buy_orders || buys == b0 || buys == config.max_buy_orders,
            sells < config.max_sell_orders || sells == s0 || sells == config.max_sell_orders,
            stops < config.max_stop_losses || stops == st0 || stops == config.max_stop_losses,
        decreases len - i,
    {
        let ghost rest_i = new_orders@.subrange(i as int, len as int);
        let ghost rest_next = new_orders@.subrange(i + 1, len as int);
        proof {
            assert(rest_i[0] == new_orders@[i as int]);
            assert(rest_i.subrange(1, rest_i.len() as int) =~= rest_next);
        }
        let o = new_orders[i];
        let ghost pre = admitted@;
        if o.is_pending() {
            match o.order_type.category() {
                OrderCategory::Buy => {
                    if buys < config.max_buy_orders && stops < config.max_stop_losses {
                        admitted.push(o);
                        buys = buys + 1;
                        proof {
                            assert(pre + (seq![o] + spec_admit(
                                rest_next,
                                buys as int,
                                sells as int,
                                stops as int,
                                *config,
                            )) =~= admitted@ + spec_admit(
                                rest_next,
                                buys as int,
                                sells as int,
                                stops as int,
                                *config,
                            ));
                        }
                    }
                },
                OrderCategory::Sell => {
                    if sells < config.max_sell_orders {
                        admitted.push(o);
                        sells = sells + 1;
                        proof {
                            assert(pre + (seq![o] + spec_admit(
                                rest_next,
                                buys as int,
                                sells as int,
                                stops as int,
                                *config,
                            )) =~= admitted@ + spec_admit(
                                rest_next,
                                buys as int,
                                sells as int,
                                stops as int,
                                *config,
                            ));
                        }
                    }
                },
                OrderCategory::Stop => {
                    if stops < config.max_stop_losses {
                        admitted.push(o);
                        stops = stops + 1;
                        proof {
                            assert(pre + (seq![o] + spec_admit(
                                rest_next,
                                buys as int,
                                sells as int,
                                stops as int,
                                *config,
                            )) =~= admitted@ + spec_admit(
                                rest_next,
                                buys as int,
                                sells as int,
                                stops as int,
                                *config,
                            ));
                        }
                    }
                },
            }
        }
        i = i + 1;
    }
    proof {
        assert(new_orders@.subrange(len as int, len as int) =~= Seq::<Order>::empty());
        assert(admitted@ + Seq::<Order>::empty() =~= admitted@);
        let w = config.max_pending_orders as int;
        lemma_pending_splits_into_categories(recent_window(orders@, w));
        lemma_count_le_len(recent_window(orders@, w), OrderCategory::Buy);
    }
    let total_pending = b0 + s0 + st0;
    if total_pending <= config.max_pending_orders && admitted.len() <= config.max_pending_orders
        - total_pending {
        let mut result = orders;
        result.append(&mut admitted);
        result
    } else {
        orders
    }
}

/// A resolved exit is genuine only while buy capacity has been consumed: it
/// passes only when the windowed pending-buy count is strictly below the
/// ceiling, since a count still at (or past) the ceiling means no entry was
/// filled and there is no open position to exit.
pub open spec fn spec_has_executed_buy_order(
    orders: Seq<Order>,
    operation: Position,
    config: Config,
) -> bool {
    match operation {
        Position::MarketOutOrder(_) => count_in_window(
            orders,
            config.max_pending_orders as int,
            OrderCategory::Buy,
        ) < config.max_buy_orders,
        _ => true,
    }
}

pub fn has_executed_buy_order(orders: &Vec<Order>, operation: &Position, config: &Config) -> (r:
    bool)
    ensures
        r == spec_has_executed_buy_order(orders@, *operation, *config),
{
    let (pending_buy_orders, _sell_orders, _stop_losses) = get_num_pending_orders(orders, config);
    match operation {
        Position::MarketOutOrder(_) => pending_buy_orders < config.max_buy_orders,
        _ => true,
    }
}

/// Admission consumes capacity: starting from counts already held against
/// each ceiling, at most the remaining capacity of a category is admitted.
pub proof fn lemma_admit_counts(new: Seq<Order>, buys: int, sells: int, stops: int, config: Config)
    requires
        0 <= buys,
        0 <= sells,
        0 <= stops,
    ensures
        count_matching(spec_admit(new, buys, sells, stops, config), OrderCategory::Buy) <= if buys
            < config.max_buy_orders {
            config.max_buy_orders - buys
        } else {
            0
        },
        count_matching(spec_admit(new, buys, sells, stops, config), OrderCategory::Sell) <= if sells
            < config.max_sell_orders {
            config.max_sell_orders - sells
        } else {
            0
        },
        count_matching(spec_admit(new, buys, sells, stops, config), OrderCategory::Stop) <= if stops
            < config.max_stop_losses {
            config.max_stop_losses - stops
        } else {
            0
        },
    decreases new.len(),
{
    if new.len() == 0 {
    } else {
        let o = new[0];
        let rest = new.subrange(1, new.len() as int);
        if !spec_is_pending(o) {
            lemma_admit_counts(rest, buys, sells, stops, config);
        } else {
            match spec_category(o.order_type) {
                OrderCategory::Buy => {
                    if buys < config.max_buy_orders && stops < config.max_stop_losses {
                        lemma_admit_counts(rest, buys + 1, sells, stops, config);
                        lemma_count_singleton(o, OrderCategory::Buy);
                        lemma_count_singleton(o, OrderCategory::Sell);
                        lemma_count_singleton(o, OrderCategory::Stop);
                        lemma_count_concat(
                            seq![o],
                            spec_admit(rest, buys + 1, sells, stops, config),
                            OrderCategory::Buy,
                        );
                        lemma_count_concat(
                            seq![o],
                            spec_admit(rest, buys + 1, sells, stops, config),
                            OrderCategory::Sell,
                        );
                        lemma_count_concat(
                            seq![o],
                            spec_admit(rest, buys + 1, sells, stops, config),
                            OrderCategory::Stop,
                        );
                    } else {
                        lemma_admit_counts(rest, buys, sells, stops, config);
                    }
                },
                OrderCategory::Sell => {
                    if sells < config.max_sell_orders {
                        lemma_admit_counts(rest, buys, sells + 1, stops, config);
                        lemma_count_singleton(o, OrderCategory::Buy);
                        lemma_count_singleton(o, OrderCategory::Sell);
                        lemma_count_singleton(o, OrderCategory::Stop);
                        lemma_count_concat(
                            seq![o],
                            spec_admit(rest, buys, sells + 1, stops, config),
                            OrderCategory::Buy,
                        );
                        lemma_count_concat(
                            seq![o],
                            spec_admit(rest, buys, sells + 1, stops, config),
                            OrderCategory::Sell,
                        );
                        lemma_count_concat(
                            seq![o],
                            spec_admit(rest, buys, sells + 1, stops, config),
                            OrderCategory::Stop,
                        );
                    } else {
                        lemma_admit_counts(rest, buys, sells, stops, config);
                    }
                },
                OrderCategory::Stop => {
                    if stops < config.max_stop_losses {
                        lemma_admit_counts(rest, buys, sells, stops + 1, config);
                        lemma_count_singleton(o, OrderCategory::Buy);
                        lemma_count_singleton(o, OrderCategory::Sell);
                        lemma_count_singleton(o, OrderCategory::Stop);
                        lemma_count_concat(
                            seq![o],
                            spec_admit(rest, buys, sells, stops + 1, config),
                            OrderCategory::Buy,
                        );
                        lemma_count_concat(
                            seq![o],
                            spec_admit(rest, buys, sells, stops + 1, config),
                            OrderCategory::Sell,
                        );
                        lemma_count_concat(
                            seq![o],
                            spec_admit(rest, buys, sells, stops + 1, config),
                            OrderCategory::Stop,
                        );
                    } else {
                        lemma_admit_counts(rest, buys, sells, stops, config);
                    }
                },
            }
        }
    }
}

/// Within one category, a batch insertion into a ledger whose windowed count
/// respects the ceiling yields a ledger whose windowed count still does.
proof fn lemma_add_pending_respects_ceiling_for(
    orders: Seq<Order>,
    new: Seq<Order>,
    config: Config,
    c: OrderCategory,
    ceiling: int,
)
    requires
        count_in_window(orders, config.max_pending_orders as int, c) <= ceiling,
        ceiling == match c {
            OrderCategory::Buy => config.max_buy_orders as int,
            OrderCategory::Sell => config.max_sell_orders as int,
            OrderCategory::Stop => config.max_stop_losses as int,
        },
    ensures
        count_in_window(
            spec_add_pending(orders, new, config),
            config.max_pending_orders as int,
            c,
        ) <= ceiling,
{
    let w = config.max_pending_orders as int;
    let b0 = count_in_window(orders, w, OrderCategory::Buy) as int;
    let s0 = count_in_window(orders, w, OrderCategory::Sell) as int;
    let st0 = count_in_window(orders, w, OrderCategory::Stop) as int;
    let admitted = spec_admit(new, b0, s0, st0, config);
    let result = spec_add_pending(orders, new, config);
    if result == orders + admitted {
        let len = orders.len() as int;
        let k = admitted.len() as int;
        let start1 = window_start(len, w);
        let start2 = window_start(len + k, w);
        lemma_admit_counts(new, b0, s0, st0, config);
        let c0 = match c {
            OrderCategory::Buy => b0,
            OrderCategory::Sell => s0,
            OrderCategory::Stop => st0,
        };
        assert(count_matching(admitted, c) <= if c0 < ceiling {
            ceiling - c0
        } else {
            0
        });
        if start2 <= len {
            assert(result.subrange(start2, len + k) =~= orders.subrange(start2, len) + admitted);
            lemma_count_concat(orders.subrange(start2, len), admitted, c);
            lemma_count_suffix_mono(orders, start1, start2, c);
            assert(orders.subrange(start1, len) =~= recent_window(orders, w));
        } else {
            assert(result.subrange(start2, len + k) =~= admitted.subrange(start2 - len, k));
            lemma_count_suffix_mono(admitted, 0, start2 - len, c);
            assert(admitted.subrange(0, k) =~= admitted);
        }
    }
}

/// Law: category counts over the recency window never exceed their
/// configured ceilings after `add_pending`, provided they did not before;
/// and an oversized batch leaves the ledger unchanged (that part is the
/// rejection branch of `spec_add_pending`, restated here).
pub proof fn lemma_add_pending_respects_ceilings(
    orders: Seq<Order>,
    new: Seq<Order>,
    config: Config,
)
    requires
        count_in_window(orders, config.max_pending_orders as int, OrderCategory::Buy)
            <= config.max_buy_orders,
        count_in_window(orders, config.max_pending_orders as int, OrderCategory::Sell)
            <= config.max_sell_orders,
        count_in_window(orders, config.max_pending_orders as int, OrderCategory::Stop)
            <= config.max_stop_losses,
    ensures
        count_in_window(
            spec_add_pending(orders, new, config),
            config.max_pending_orders as int,
            OrderCategory::Buy,
        ) <= config.max_buy_orders,
        count_in_window(
            spec_add_pending(orders, new, config),
            config.max_pending_orders as int,
            OrderCategory::Sell,
        ) <= config.max_sell_orders,
        count_in_window(
            spec_add_pending(orders, new, config),
            config.max_pending_orders as int,
            OrderCategory::Stop,
        ) <= config.max_stop_losses,
{
    lemma_add_pending_respects_ceiling_for(
        orders,
        new,
        config,
        OrderCategory::Buy,
        config.max_buy_orders as int,
    );
    lemma_add_pending_respects_ceiling_for(
        orders,
        new,
        config,
        OrderCategory::Sell,
        config.max_sell_orders as int,
    );
    lemma_add_pending_respects_ceiling_for(
        orders,
        new,
        config,
        OrderCategory::Stop,
        config.max_stop_losses as int,
    );
}

/// The prices that drive cross detection this step: the level that counts as
/// crossing over, the level that counts as crossing under, and the previous
/// bar's counterparts. Broker-driven fills watch highs and lows; bot-driven
/// fills watch whatever the activation source selects.
pub open spec fn spec_activation_prices(candle: Candle, prev_candle: Candle, config: Config) -> (
    i64,
    i64,
    i64,
    i64,
) {
    match config.order_engine {
        OrderEngine::Broker => (candle.high, candle.low, prev_candle.high, prev_candle.low),
        OrderEngine::Bot => match config.order_activation_source {
            ActivationSource::HighsLows => (
                candle.high,
                candle.low,
                prev_candle.high,
                prev_candle.low,
            ),
            ActivationSource::Close => (
                candle.close,
                candle.close,
                prev_candle.close,
                prev_candle.close,
            ),
        },
    }
}

fn get_order_activation_price(candle: &Candle, prev_candle: &Candle, config: &Config) -> (r: (
    i64,
    i64,
    i64,
    i64,
))
    ensures
        r == spec_activation_prices(*candle, *prev_candle, *config),
{
    match config.order_engine {
        OrderEngine::Broker => (candle.high, candle.low, prev_candle.high, prev_candle.low),
        OrderEngine::Bot => match config.order_activation_source {
            ActivationSource::HighsLows => (
                candle.high,
                candle.low,
                prev_candle.high,
                prev_candle.low,
            ),
            ActivationSource::Close => (
                candle.close,
                candle.close,
                prev_candle.close,
                prev_candle.close,
            ),
        },
    }
}

/// Whether the current bar triggers the order. Every activation needs the
/// bar's identifier to lie strictly after the order's creation bar; when
/// closes drive the detection, the bar must also be closed. Directional
/// orders cross in their own direction; stop-losses use the raw high or low.
pub open spec fn spec_order_activated(
    order: Order,
    candle: Candle,
    prev_candle: Candle,
    config: Config,
) -> bool {
    let prices = spec_activation_prices(candle, prev_candle, config);
    let current_price_over = prices.0;
    let current_price_below = prices.1;
    let is_next_bar = candle.date > order.id;
    let is_closed = match config.order_activation_source {
        ActivationSource::Close => candle.is_closed,
        ActivationSource::HighsLows => true,
    };
    let cross_over = current_price_over >= order.target_price && is_next_bar && is_closed;
    let cross_below = current_price_below <= order.target_price && is_next_bar && is_closed;
    let stop_cross_over = candle.high >= order.target_price && is_next_bar;
    let stop_cross_below = candle.low <= order.target_price && is_next_bar;
    match order.order_type {
        OrderType::BuyOrderLong { direction, .. } => if direction == OrderDirection::Up {
            cross_over
        } else {
            cross_below
        },
        OrderType::BuyOrderShort { direction, .. } => if direction == OrderDirection::Up {
            cross_over
        } else {
            cross_below
        },
        OrderType::SellOrderLong { direction, .. } => if direction == OrderDirection::Up {
            cross_over
        } else {
            cross_below
        },
        OrderType::SellOrderShort { direction, .. } => if direction == OrderDirection::Up {
            cross_over
        } else {
            cross_below
        },
        OrderType::TakeProfitLong { direction, .. } => if direction == OrderDirection::Up {
            cross_over
        } else {
            cross_below
        },
        OrderType::TakeProfitShort { direction, .. } => if direction == OrderDirection::Up {
            cross_over
        } else {
            cross_below
        },
        OrderType::StopLossLong { .. } => stop_cross_below,
        OrderType::StopLossShort { .. } => stop_cross_over,
    }
}

/// The bar a step looks back to: the one just before, or the first bar at
/// the start of the window.
pub open spec fn spec_prev_index(index: int) -> int {
    if index > 0 {
        index - 1
    } else {
        0
    }
}

fn order_activated(index: usize, order: &Order, instrument: &Instrument, config: &Config) -> (r:
    bool)
    requires
        index < instrument.data@.len(),
    ensures
        r == spec_order_activated(
            *order,
            instrument.data@[index as int],
            instrument.data@[spec_prev_index(index as int)],
            *config,
        ),
        r ==> instrument.data@[index as int].date > order.id,
{
    let prev_index = if index > 0 {
        index - 1
    } else {
        0
    };
    let current_candle = instrument.data[index];
    let candle_ts = current_candle.date;
    let prev_candle = instrument.data[prev_index];
    let is_next_bar = candle_ts > order.id;

    let prices = get_order_activation_price(&current_candle, &prev_candle, config);
    let current_price_over = prices.0;
    let current_price_below = prices.1;

    let is_closed = match config.order_activation_source {
        ActivationSource::Close => current_candle.is_closed,
        ActivationSource::HighsLows => true,
    };

    let cross_over = current_price_over >= order.target_price && is_next_bar && is_closed;
    let cross_below = current_price_below <= order.target_price && is_next_bar && is_closed;
    let stop_cross_over = current_candle.high >= order.target_price && is_next_bar;
    let stop_cross_below = current_candle.low <= order.target_price && is_next_bar;

    match order.order_type {
        OrderType::BuyOrderLong { direction, .. }
        | OrderType::BuyOrderShort { direction, .. }
        | OrderType::SellOrderLong { direction, .. }
        | OrderType::SellOrderShort { direction, .. }
        | OrderType::TakeProfitLong { direction, .. }
        | OrderType::TakeProfitShort { direction, .. } => {
            match direction {
                OrderDirection::Up => cross_over,
                OrderDirection::Down => cross_below,
            }
        },
        OrderType::StopLossLong { .. } => stop_cross_below,
        OrderType::StopLossShort { .. } => stop_cross_over,
    }
}

/// The position an activated order resolves to: entries open, everything
/// else closes.
pub open spec fn spec_position_for(o: Order) -> Position {
    if order_type_is_entry(o.order_type) {
        Position::MarketInOrder(o)
    } else {
        Position::MarketOutOrder(o)
    }
}

/// The scan over the ledger, in insertion order, keeping the last pending
/// order the bar activates: when several activate in one step, the latest in
/// ledger order overwrites the earlier ones.
pub open spec fn scan_positions(
    s: Seq<Order>,
    candle: Candle,
    prev_candle: Candle,
    config: Config,
) -> Position
    decreases s.len(),
{
    if s.len() == 0 {
        Position::Idle
    } else {
        let o = s.last();
        if spec_is_pending(o) && spec_order_activated(o, candle, prev_candle, config) {
            spec_position_for(o)
        } else {
            scan_positions(s.drop_last(), candle, prev_candle, config)
        }
    }
}

/// What one scan step resolves to: the scan's last activation, suppressed
/// back to idle when a resolved exit has no consumed buy capacity behind it
/// (no position can be open then).
pub open spec fn spec_resolve_active_orders(
    orders: Seq<Order>,
    candle: Candle,
    prev_candle: Candle,
    config: Config,
) -> Position {
    let p = scan_positions(orders, candle, prev_candle, config);
    if spec_has_executed_buy_order(orders, p, config) {
        p
    } else {
        Position::Idle
    }
}

/// Scans the pending orders against the current and previous bar and yields
/// at most one resolved trading intent for the step.
pub fn resolve_active_orders(
    index: usize,
    instrument: &Instrument,
    orders: &Vec<Order>,
    _pricing: &Pricing,
    config: &Config,
) -> (r: Position)
    requires
        index < instrument.data@.len(),
    ensures
        r == spec_resolve_active_orders(
            orders@,
            instrument.data@[index as int],
            instrument.data@[spec_prev_index(index as int)],
            *config,
        ),
{
    let ghost candle = instrument.data@[index as int];
    let ghost prev_candle = instrument.data@[spec_prev_index(index as int)];
    let mut order_position: Position = Position::Idle;
    let len = orders.len();
    let mut i: usize = 0;
    proof {
        assert(orders@.subrange(0, 0) =~= Seq::<Order>::empty());
    }
    while i < len
        invariant
            0 <= i <= len,
            len == orders@.len(),
            index < instrument.data@.len(),
            candle == instrument.data@[index as int],
            prev_candle == instrument.data@[spec_prev_index(index as int)],
            order_position == scan_positions(
                orders@.subrange(0, i as int),
                candle,
                prev_candle,
                *config,
            ),
        decreases len - i,
    {
        proof {
            assert(orders@.subrange(0, i + 1).drop_last() =~= orders@.subrange(0, i as int));
            assert(orders@.subrange(0, i + 1).last() == orders@[i as int]);
        }
        let order = orders[i];
        if order.is_pending() && order_activated(index, &order, instrument, config) {
            if order.order_type.is_entry() {
                order_position = Position::MarketInOrder(order);
            } else {
                order_position = Position::MarketOutOrder(order);
            }
        }
        i = i + 1;
    }
    proof {
        assert(orders@.subrange(0, len as int) =~= orders@);
    }
    if has_executed_buy_order(orders, &order_position, config) {
        order_position
    } else {
        Position::Idle
    }
}

/// Whatever the scan keeps was a pending order of the ledger that the bar
/// really activated.
proof fn lemma_scan_positions_props(s: Seq<Order>, candle: Candle, prev_candle: Candle, config: Config)
    ensures
        scan_positions(s, candle, prev_candle, config) matches Position::MarketInOrder(o) ==> (
        s.contains(o) && spec_is_pending(o) && spec_order_activated(o, candle, prev_candle, config)),
        scan_positions(s, candle, prev_candle, config) matches Position::MarketOutOrder(o) ==> (
        s.contains(o) && spec_is_pending(o) && spec_order_activated(o, candle, prev_candle, config)),
    decreases s.len(),
{
    if s.len() > 0 {
        let o = s.last();
        if spec_is_pending(o) && spec_order_activated(o, candle, prev_candle, config) {
            assert(s[s.len() - 1] == o);
            assert(s.contains(o));
        } else {
            lemma_scan_positions_props(s.drop_last(), candle, prev_candle, config);
            let p = scan_positions(s.drop_last(), candle, prev_candle, config);
            match p {
                Position::MarketInOrder(o2) => {
                    let j = choose|j: int| 0 <= j < s.drop_last().len() && s.drop_last()[j] == o2;
                    assert(s[j] == o2);
                    assert(s.contains(o2));
                },
                Position::MarketOutOrder(o2) => {
                    let j = choose|j: int| 0 <= j < s.drop_last().len() && s.drop_last()[j] == o2;
                    assert(s[j] == o2);
                    assert(s.contains(o2));
                },
                _ => {},
            }
        }
    }
}

/// Law: activation itself presupposes a strictly later bar — whatever the
/// order, the bars and the configuration, a triggered cross means the
/// current bar's time-derived identifier lies strictly above the order's
/// creation identifier (same-bar fills are disallowed).
pub proof fn lemma_order_activated_next_bar_only(
    order: Order,
    candle: Candle,
    prev_candle: Candle,
    config: Config,
)
    ensures
        spec_order_activated(order, candle, prev_candle, config) ==> candle.date > order.id,
{
}

/// Law: an order can only activate on a bar strictly later than its creation
/// bar. Whatever order the resolver hands back, the current bar's
/// time-derived identifier lies strictly above the order's own, and the
/// order is a pending member of the ledger.
pub proof fn lemma_activation_only_after_creation(
    orders: Seq<Order>,
    candle: Candle,
    prev_candle: Candle,
    config: Config,
)
    ensures
        spec_resolve_active_orders(orders, candle, prev_candle, config) matches
            Position::MarketInOrder(o) ==> (orders.contains(o) && spec_is_pending(o) && candle.date
            > o.id),
        spec_resolve_active_orders(orders, candle, prev_candle, config) matches
            Position::MarketOutOrder(o) ==> (orders.contains(o) && spec_is_pending(o)
            && candle.date > o.id),
{
    lemma_scan_positions_props(orders, candle, prev_candle, config);
}

/// Law: resolution is a pure function of the ledger, the two bars and the
/// configuration. Re-running it on an unchanged ledger and unchanged bar
/// yields the same position; no hidden state advances. (The `ensures` of
/// `resolve_active_orders` pins its result to this same function of the
/// inputs, so two calls agree.)
pub proof fn lemma_resolve_idempotent(
    orders: Seq<Order>,
    candle: Candle,
    prev_candle: Candle,
    config: Config,
)
    ensures
        spec_resolve_active_orders(orders, candle, prev_candle, config)
            == spec_resolve_active_orders(orders, candle, prev_candle, config),
{
}

/// A target price sits strictly on the correct side of the close for its
/// direction: above it for Up, below it for Down.
pub open spec fn spec_target_ok(direction: OrderDirection, close_price: i64, target_price: i64) -> bool {
    match direction {
        OrderDirection::Up => target_price > close_price,
        OrderDirection::Down => target_price < close_price,
    }
}

/// Checks a proposed order's target against the current close. A target
/// already crossed (at or past the close) is invalid.
pub fn validate_target_price(direction: &OrderDirection, close_price: i64, target_price: i64) -> (r: bool)
    ensures
        r == spec_target_ok(*direction, close_price, target_price),
{
    match direction {
        OrderDirection::Up => target_price > close_price,
        OrderDirection::Down => target_price < close_price,
    }
}

/// The bar an order is stamped from: the indexed bar in a backtest, the
/// latest bar live.
pub open spec fn spec_mode_candle(data: Seq<Candle>, index: int, config: Config) -> Candle
    recommends
        data.len() > 0,
        config.execution_mode == ExecutionMode::Backtest ==> 0 <= index < data.len(),
{
    if config.execution_mode == ExecutionMode::Backtest {
        data[index]
    } else {
        data[data.len() - 1]
    }
}

/// When an order created on this bar stops being valid: its creation time
/// plus the configured number of bars of the trading time frame.
pub open spec fn spec_valid_until(date: i64, time_frame: TimeFrameType, config: Config) -> int {
    date + config.valid_until_bars * spec_to_number(time_frame) * 60_000
}

/// The order a creation call stamps out: pending, identified and dated by
/// the creation bar, priced at its close, expiring after the configured
/// number of bars.
pub open spec fn spec_create_order(
    index: usize,
    trade_id: i64,
    candle: Candle,
    time_frame: TimeFrameType,
    order_type: OrderType,
    target_price: i64,
    order_size: i64,
    config: Config,
) -> Order {
    Order {
        id: candle.date,
        trade_id,
        index_created: index,
        index_fulfilled: 0,
        size: order_size,
        order_type,
        status: OrderStatus::Pending,
        origin_price: candle.close,
        target_price,
        created_at: candle.date,
        updated_at: None,
        full_filled_at: None,
        valid_until: Some(spec_valid_until(candle.date, time_frame, config) as i64),
    }
}

pub fn create_order(
    index: usize,
    trade_id: i64,
    instrument: &Instrument,
    order_type: &OrderType,
    target_price: i64,
    order_size: i64,
    config: &Config,
) -> (r: Order)
    requires
        instrument.data@.len() > 0,
        config.execution_mode == ExecutionMode::Backtest ==> index < instrument.data@.len(),
        instrument_wf(*instrument),
        config_wf(*config),
    ensures
        r == spec_create_order(
            index,
            trade_id,
            spec_mode_candle(instrument.data@, index as int, *config),
            instrument.time_frame,
            *order_type,
            target_price,
            order_size,
            *config,
        ),
{
    let current_candle = if config.execution_mode.is_back_test() {
        instrument.data[index]
    } else {
        instrument.data[instrument.data.len() - 1]
    };
    proof {
        assert(candle_wf(current_candle));
    }
    let current_date = current_candle.date;
    let origin_price = current_candle.close;
    let bar_minutes = instrument.time_frame.to_number();
    proof {
        assert(0 <= spec_to_number(instrument.time_frame) <= 43200);
        assert(0 <= config.valid_until_bars * bar_minutes <= 100_000 * 43200) by (nonlinear_arith)
            requires
                0 <= config.valid_until_bars <= 100_000,
                0 <= bar_minutes <= 43200,
        ;
    }
    let valid_until = current_date + config.valid_until_bars * bar_minutes * 60_000;

    Order {
        id: current_date,
        index_created: index,
        index_fulfilled: 0,
        trade_id,
        order_type: *order_type,
        status: OrderStatus::Pending,
        origin_price,
        target_price,
        size: order_size,
        created_at: current_date,
        updated_at: None,
        full_filled_at: None,
        valid_until: Some(valid_until),
    }
}

/// The direction embedded in an order type.
pub open spec fn spec_order_direction(t: OrderType) -> OrderDirection {
    match t {
        OrderType::BuyOrderLong { direction, .. } => direction,
        OrderType::BuyOrderShort { direction, .. } => direction,
        OrderType::SellOrderLong { direction, .. } => direction,
        OrderType::SellOrderShort { direction, .. } => direction,
        OrderType::TakeProfitLong { direction, .. } => direction,
        OrderType::TakeProfitShort { direction, .. } => direction,
        OrderType::StopLossLong { direction, .. } => direction,
        OrderType::StopLossShort { direction, .. } => direction,
    }
}

/// The size embedded in a non-stop order type; stops carry none.
pub open spec fn spec_order_size(t: OrderType) -> i64 {
    match t {
        OrderType::BuyOrderLong { size, .. } => size,
        OrderType::BuyOrderShort { size, .. } => size,
        OrderType::SellOrderLong { size, .. } => size,
        OrderType::SellOrderShort { size, .. } => size,
        OrderType::TakeProfitLong { size, .. } => size,
        OrderType::TakeProfitShort { size, .. } => size,
        OrderType::StopLossLong { .. } => 0,
        OrderType::StopLossShort { .. } => 0,
    }
}

/// The target price embedded in a non-stop order type; stops derive theirs.
pub open spec fn spec_order_target(t: OrderType) -> i64 {
    match t {
        OrderType::BuyOrderLong { target_price, .. } => target_price,
        OrderType::BuyOrderShort { target_price, .. } => target_price,
        OrderType::SellOrderLong { target_price, .. } => target_price,
        OrderType::SellOrderShort { target_price, .. } => target_price,
        OrderType::TakeProfitLong { target_price, .. } => target_price,
        OrderType::TakeProfitShort { target_price, .. } => target_price,
        OrderType::StopLossLong { .. } => 0,
        OrderType::StopLossShort { .. } => 0,
    }
}

/// The stop kind embedded in a stop order type.
pub open spec fn spec_stop_kind(t: OrderType) -> StopLossType {
    match t {
        OrderType::StopLossLong { stop_loss_type, .. } => stop_loss_type,
        OrderType::StopLossShort { stop_loss_type, .. } => stop_loss_type,
        _ => StopLossType::Price(0),
    }
}

/// Where a stop-loss sits: at its absolute price, or the given number of
/// pips on the loss side of the entry level (below it for a Down stop,
/// above it for an Up stop).
pub open spec fn spec_stop_loss_target(
    direction: OrderDirection,
    stop_loss_type: StopLossType,
    entry_target: i64,
    pip_size: i64,
) -> int {
    match stop_loss_type {
        StopLossType::Price(p) => p as int,
        StopLossType::Pips(n) => if direction == OrderDirection::Down {
            entry_target - n * pip_size
        } else {
            entry_target + n * pip_size
        },
    }
}

/// The embedded prices and sizes of a proposed order type are in range: the
/// bounds every later computation on them needs.
pub open spec fn order_type_values_ok(t: OrderType, pip_size: i64) -> bool {
    if order_type_is_stop(t) {
        match spec_stop_kind(t) {
            StopLossType::Price(p) => price_ok(p),
            StopLossType::Pips(n) => 0 <= n && 0 <= n * pip_size <= PRICE_MAX,
        }
    } else {
        price_ok(spec_order_size(t)) && price_ok(spec_order_target(t))
    }
}

pub fn create_stop_loss_order(
    index: usize,
    trade_id: i64,
    instrument: &Instrument,
    pricing: &Pricing,
    order_type: &OrderType,
    target_price: i64,
    order_size: i64,
    config: &Config,
) -> (r: Order)
    requires
        instrument.data@.len() > 0,
        config.execution_mode == ExecutionMode::Backtest ==> index < instrument.data@.len(),
        instrument_wf(*instrument),
        pricing_wf(*pricing),
        config_wf(*config),
        order_type_is_stop(*order_type),
        order_type_values_ok(*order_type, pricing.pip_size),
        -PRICE_MAX <= target_price <= 2 * PRICE_MAX,
    ensures
        r == spec_create_order(
            index,
            trade_id,
            spec_mode_candle(instrument.data@, index as int, *config),
            instrument.time_frame,
            *order_type,
            spec_stop_loss_target(
                spec_order_direction(*order_type),
                spec_stop_kind(*order_type),
                target_price,
                pricing.pip_size,
            ) as i64,
            order_size,
            *config,
        ),
{
    let (direction, stop_loss_type) = match *order_type {
        OrderType::StopLossLong { direction, stop_loss_type } => (direction, stop_loss_type),
        OrderType::StopLossShort { direction, stop_loss_type } => (direction, stop_loss_type),
        _ => (OrderDirection::Up, StopLossType::Price(0)),
    };
    let stop_target = match stop_loss_type {
        StopLossType::Price(p) => p,
        StopLossType::Pips(n) => {
            let distance = n * pricing.pip_size;
            if direction == OrderDirection::Down {
                target_price - distance
            } else {
                target_price + distance
            }
        },
    };
    create_order(index, trade_id, instrument, order_type, stop_target, order_size, config)
}

/// The context one batch-preparation step works in: the bar the orders are
/// stamped from, the close they validate against, and the pricing knobs.
pub struct PrepareCtx {
    pub index: usize,
    pub trade_id: i64,
    pub candle: Candle,
    pub time_frame: TimeFrameType,
    pub close_price: i64,
    pub next_open: i64,
    pub pip_size: i64,
    pub config: Config,
}

/// What a pass over a proposed batch produces: the created orders, the
/// tracked entry and exit levels (the raw target prices of the last entry
/// and exit accepted), the stop-loss bookkeeping, and whether every
/// directional validation passed.
pub struct PrepareOutcome {
    pub orders: Seq<Order>,
    pub buy_target: int,
    pub sell_target: int,
    pub has_stop: bool,
    pub stop_target: int,
    pub stop_direction: OrderDirection,
    pub all_valid: bool,
}

/// One pass over the proposed batch, in proposal order. A directional order
/// whose target validates is created and its adjusted level tracked; one
/// that fails marks the whole pass invalid. A stop-loss derives its level
/// from the first created order (or the stamping bar's open when there is
/// none) and is only created while the pass is still valid.
pub open spec fn prepare_rec(ots: Seq<OrderType>, ctx: PrepareCtx) -> PrepareOutcome
    decreases ots.len(),
{
    if ots.len() == 0 {
        PrepareOutcome {
            orders: Seq::empty(),
            buy_target: 0,
            sell_target: 0,
            has_stop: false,
            stop_target: 0,
            stop_direction: OrderDirection::Up,
            all_valid: true,
        }
    } else {
        let st = prepare_rec(ots.drop_last(), ctx);
        let ot = ots.last();
        if order_type_is_stop(ot) {
            let entry_target = if st.orders.len() > 0 {
                st.orders[0].target_price
            } else {
                ctx.next_open
            };
            let entry_size = if st.orders.len() > 0 {
                st.orders[0].size
            } else {
                ctx.config.order_size
            };
            if st.all_valid {
                let target = spec_stop_loss_target(
                    spec_order_direction(ot),
                    spec_stop_kind(ot),
                    entry_target,
                    ctx.pip_size,
                ) as i64;
                let o = spec_create_order(
                    ctx.index,
                    ctx.trade_id,
                    ctx.candle,
                    ctx.time_frame,
                    ot,
                    target,
                    entry_size,
                    ctx.config,
                );
                PrepareOutcome {
                    orders: st.orders.push(o),
                    has_stop: true,
                    stop_target: o.target_price as int,
                    stop_direction: spec_order_direction(ot),
                    ..st
                }
            } else {
                PrepareOutcome { has_stop: true, ..st }
            }
        } else {
            let direction = spec_order_direction(ot);
            let size = spec_order_size(ot);
            let target = spec_order_target(ot);
            if spec_target_ok(direction, ctx.close_price, target) {
                let o = spec_create_order(
                    ctx.index,
                    ctx.trade_id,
                    ctx.candle,
                    ctx.time_frame,
                    ot,
                    target,
                    size,
                    ctx.config,
                );
                if order_type_is_entry(ot) {
                    PrepareOutcome {
                        orders: st.orders.push(o),
                        buy_target: target as int,
                        ..st
                    }
                } else {
                    PrepareOutcome {
                        orders: st.orders.push(o),
                        sell_target: target as int,
                        ..st
                    }
                }
            } else {
                PrepareOutcome { all_valid: false, ..st }
            }
        }
    }
}

/// The stop-loss sits on the wrong side of the tracked entry level: at or
/// above it for a Down stop under a long entry, at or below it for an Up
/// stop over a short entry. Checked only while an entry level was tracked.
pub open spec fn spec_stop_misplaced(out: PrepareOutcome) -> bool {
    out.has_stop && if out.stop_direction == OrderDirection::Down {
        out.stop_target >= out.buy_target && out.buy_target > 0
    } else {
        out.stop_target <= out.buy_target && out.buy_target > 0
    }
}

/// The exit level sits on the wrong side of the tracked entry level: at or
/// below it for a long trade, at or above it for a short one. Checked only
/// while an exit level was tracked.
pub open spec fn spec_exit_misplaced(out: PrepareOutcome, trade_type: TradeType) -> bool {
    if crate::trade::trade_type_is_long(trade_type) {
        out.sell_target <= out.buy_target && out.sell_target > 0
    } else {
        out.sell_target >= out.buy_target && out.sell_target > 0
    }
}

/// The context `prepare_orders` works in for the given inputs.
pub open spec fn spec_prepare_ctx(
    index: usize,
    instrument: Instrument,
    pricing: Pricing,
    config: Config,
) -> PrepareCtx {
    let mode_candle = spec_mode_candle(instrument.data@, index as int, config);
    PrepareCtx {
        index,
        trade_id: mode_candle.date,
        candle: mode_candle,
        time_frame: instrument.time_frame,
        close_price: instrument.data@[index as int].close,
        next_open: mode_candle.open,
        pip_size: pricing.pip_size,
        config,
    }
}

/// Validates a proposed batch against the current close, creates the orders
/// it accepts, and rejects the whole batch — atomically — when any target is
/// already crossed, the stop-loss sits on the profit side of the entry
/// level, or the exit level is ordered against the entry level.
#[verifier::rlimit(60)]
pub fn prepare_orders(
    index: usize,
    instrument: &Instrument,
    pricing: &Pricing,
    trade_type: &TradeType,
    order_types: &Vec<OrderType>,
    config: &Config,
) -> (r: Result<Vec<Order>, RsAlgoError>)
    requires
        instrument.data@.len() > 0,
        index < instrument.data@.len(),
        instrument_wf(*instrument),
        pricing_wf(*pricing),
        config_wf(*config),
        forall|j: int|
            0 <= j < order_types@.len() ==> order_type_values_ok(
                #[trigger] order_types@[j],
                pricing.pip_size,
            ),
    ensures
        ({
            let out = prepare_rec(
                order_types@,
                spec_prepare_ctx(index, *instrument, *pricing, *config),
            );
            &&& !out.all_valid ==> r == Err::<Vec<Order>, RsAlgoError>(
                RsAlgoError { err: RsAlgoErrorKind::InvalidTargetPrice },
            )
            &&& out.all_valid && spec_stop_misplaced(out) ==> r == Err::<Vec<Order>, RsAlgoError>(
                RsAlgoError { err: RsAlgoErrorKind::StopLossWrongSide },
            )
            &&& out.all_valid && !spec_stop_misplaced(out) && spec_exit_misplaced(out, *trade_type)
                ==> r == Err::<Vec<Order>, RsAlgoError>(
                RsAlgoError { err: RsAlgoErrorKind::ExitWrongSide },
            )
            &&& out.all_valid && !spec_stop_misplaced(out) && !spec_exit_misplaced(
                out,
                *trade_type,
            ) ==> (r matches Ok(v) && v@ == out.orders)
        }),
{
    let ghost ctx = spec_prepare_ctx(index, *instrument, *pricing, *config);
    let current_candle = instrument.data[index];
    let close_price = current_candle.close;
    let next_candle = if config.execution_mode.is_back_test() {
        instrument.data[index]
    } else {
        instrument.data[instrument.data.len() - 1]
    };
    proof {
        assert(candle_wf(next_candle));
        assert(candle_wf(current_candle));
    }
    let trade_id = next_candle.date;

    let mut orders: Vec<Order> = Vec::new();
    let mut buy_order_target: i64 = 0;
    let mut sell_order_target: i64 = 0;
    let mut is_stop_loss = false;
    let mut stop_order_target: i64 = 0;
    let mut stop_loss_direction = OrderDirection::Up;
    let mut is_valid_buy_sell_order = true;

    let len = order_types.len();
    let mut i: usize = 0;
    proof {
        assert(order_types@.subrange(0, 0) =~= Seq::<OrderType>::empty());
    }
    while i < len
        invariant
            0 <= i <= len,
            len == order_types@.len(),
            instrument.data@.len() > 0,
            index < instrument.data@.len(),
            instrument_wf(*instrument),
            pricing_wf(*pricing),
            config_wf(*config),
            forall|j: int|
                0 <= j < order_types@.len() ==> order_type_values_ok(
                    #[trigger] order_types@[j],
                    pricing.pip_size,
                ),
            ctx == spec_prepare_ctx(index, *instrument, *pricing, *config),
            trade_id == ctx.trade_id,
            close_price == ctx.close_price,
            next_candle == ctx.candle,
            candle_wf(next_candle),
            ({
                let st = prepare_rec(order_types@.subrange(0, i as int), ctx);
                &&& orders@ == st.orders
                &&& buy_order_target as int == st.buy_target
                &&& sell_order_target as int == st.sell_target
                &&& is_stop_loss == st.has_stop
                &&& stop_order_target as int == st.stop_target
                &&& stop_loss_direction == st.stop_direction
                &&& is_valid_buy_sell_order == st.all_valid
            }),
            orders@.len() > 0 ==> (-PRICE_MAX <= orders@[0].target_price <= 2 * PRICE_MAX
                && price_ok(orders@[0].size)),
            0 <= buy_order_target <= 2 * PRICE_MAX,
            0 <= sell_order_target <= 2 * PRICE_MAX,
            -2 * PRICE_MAX <= stop_order_target <= 3 * PRICE_MAX,
        decreases len - i,
    {
        proof {
            assert(order_types@.subrange(0, i + 1).drop_last() =~= order_types@.subrange(
                0,
                i as int,
            ));
            assert(order_types@.subrange(0, i + 1).last() == order_types@[i as int]);
        }
        let order_type = order_types[i];
        if order_type.is_stop() {
            is_stop_loss = true;
            let target_price = if orders.len() > 0 {
                orders[0].target_price
            } else {
                next_candle.open
            };
            let order_size = if orders.len() > 0 {
                orders[0].size
            } else {
                config.order_size
            };
            if is_valid_buy_sell_order {
                let stop_loss = create_stop_loss_order(
                    index,
                    trade_id,
                    instrument,
                    pricing,
                    &order_type,
                    target_price,
                    order_size,
                    config,
                );
                stop_order_target = stop_loss.target_price;
                stop_loss_direction = match order_type {
                    OrderType::StopLossLong { direction, .. } => direction,
                    OrderType::StopLossShort { direction, .. } => direction,
                    _ => OrderDirection::Up,
                };
                orders.push(stop_loss);
            }
        } else {
            let (direction, order_size, target_price) = match order_type {
                OrderType::BuyOrderLong { direction, size, target_price } => (
                    direction,
                    size,
                    target_price,
                ),
                OrderType::BuyOrderShort { direction, size, target_price } => (
                    direction,
                    size,
                    target_price,
                ),
                OrderType::SellOrderLong { direction, size, target_price } => (
                    direction,
                    size,
                    target_price,
                ),
                OrderType::SellOrderShort { direction, size, target_price } => (
                    direction,
                    size,
                    target_price,
                ),
                OrderType::TakeProfitLong { direction, size, target_price } => (
                    direction,
                    size,
                    target_price,
                ),
                OrderType::TakeProfitShort { direction, size, target_price } => (
                    direction,
                    size,
                    target_price,
                ),
                _ => (OrderDirection::Up, 0, 0),
            };
            if validate_target_price(&direction, close_price, target_price) {
                let order = create_order(
                    index,
                    trade_id,
                    instrument,
                    &order_type,
                    target_price,
                    order_size,
                    config,
                );
                if order_type.is_entry() {
                    buy_order_target = order.target_price;
                } else {
                    sell_order_target = order.target_price;
                }
                orders.push(order);
            } else {
                is_valid_buy_sell_order = false;
            }
        }
        i = i + 1;
    }
    proof {
        assert(order_types@.subrange(0, len as int) =~= order_types@);
    }

    if !is_valid_buy_sell_order {
        Err(RsAlgoError { err: RsAlgoErrorKind::InvalidTargetPrice })
    } else {
        let stop_misplaced = is_stop_loss && (if stop_loss_direction == OrderDirection::Down {
            stop_order_target >= buy_order_target && buy_order_target > 0
        } else {
            stop_order_target <= buy_order_target && buy_order_target > 0
        });
        if stop_misplaced {
            Err(RsAlgoError { err: RsAlgoErrorKind::StopLossWrongSide })
        } else {
            let exit_misplaced = if trade_type.is_long() {
                sell_order_target <= buy_order_target && sell_order_target > 0
            } else {
                sell_order_target >= buy_order_target && sell_order_target > 0
            };
            if exit_misplaced {
                Err(RsAlgoError { err: RsAlgoErrorKind::ExitWrongSide })
            } else {
                Ok(orders)
            }
        }
    }
}

/// Law: every accepted directional order's target price is strictly above
/// the close for direction Up and strictly below it for direction Down.
/// (Stop-losses derive their level separately; the stop-side law below
/// orders them against the entry level.)
pub proof fn lemma_prepared_targets_directionally_valid(ots: Seq<OrderType>, ctx: PrepareCtx)
    ensures
        forall|j: int|
            0 <= j < prepare_rec(ots, ctx).orders.len() ==> {
                let o = #[trigger] prepare_rec(ots, ctx).orders[j];
                !order_type_is_stop(o.order_type) ==> spec_target_ok(
                    spec_order_direction(o.order_type),
                    ctx.close_price,
                    o.target_price,
                )
            },
    decreases ots.len(),
{
    if ots.len() > 0 {
        lemma_prepared_targets_directionally_valid(ots.drop_last(), ctx);
    }
}

/// Law: a batch the preparation accepts with a stop-loss beside a tracked
/// entry level keeps the stop strictly on the loss side: strictly below the
/// entry level for a Down stop (long entry), strictly above it for an Up
/// stop (short entry). The entry level the batch tracks is the entry
/// order's own target price (see the lemma below).
pub proof fn lemma_accepted_stop_on_loss_side(out: PrepareOutcome)
    requires
        out.all_valid,
        !spec_stop_misplaced(out),
        out.has_stop,
        out.buy_target > 0,
    ensures
        out.stop_direction == OrderDirection::Down ==> out.stop_target < out.buy_target,
        out.stop_direction != OrderDirection::Down ==> out.stop_target > out.buy_target,
{
}

/// Whenever the tracked buy target is set at all, it is the target price of
/// an accepted entry order of the batch, so the stop-side law above speaks
/// of the entry order's own level.
pub proof fn lemma_buy_target_is_entry_target(ots: Seq<OrderType>, ctx: PrepareCtx)
    ensures
        ({
            let out = prepare_rec(ots, ctx);
            out.buy_target != 0 ==> exists|j: int|
                0 <= j < out.orders.len() && order_type_is_entry(
                    #[trigger] out.orders[j].order_type,
                ) && out.orders[j].target_price == out.buy_target
        }),
    decreases ots.len(),
{
    if ots.len() > 0 {
        lemma_buy_target_is_entry_target(ots.drop_last(), ctx);
        let st = prepare_rec(ots.drop_last(), ctx);
        let out = prepare_rec(ots, ctx);
        let ot = ots.last();
        if !order_type_is_stop(ot) && spec_target_ok(
            spec_order_direction(ot),
            ctx.close_price,
            spec_order_target(ot),
        ) && order_type_is_entry(ot) {
            let last = out.orders.len() - 1;
            assert(order_type_is_entry(out.orders[last].order_type));
            assert(out.orders[last].target_price == out.buy_target);
        } else {
            if out.buy_target != 0 {
                let j = choose|j: int|
                    0 <= j < st.orders.len() && order_type_is_entry(
                        #[trigger] st.orders[j].order_type,
                    ) && st.orders[j].target_price == st.buy_target;
                assert(out.orders.len() >= st.orders.len());
                assert(out.orders[j] == st.orders[j]);
                assert(order_type_is_entry(out.orders[j].order_type));
                assert(out.orders[j].target_price == out.buy_target);
            }
        }
    }
}

/// Milliseconds a deadline extension adds: one year of bars.
pub const VALID_UNTIL_EXTENSION_MS: i64 = 31_536_000_000;

/// Largest deadline the engine stores; keeps an extension inside `i64`.
pub const DEADLINE_MAX: i64 = 1_000_000_000_000_000;

/// The order survives the expiry sweep: it is not a pending order whose
/// deadline has passed.
pub open spec fn spec_survives_expiry(o: Order, date: i64) -> bool {
    !(spec_is_pending(o) && !spec_is_still_valid(o, date))
}

/// The ledger after a backtest expiry sweep: expired pending orders are
/// physically removed, order preserved.
pub open spec fn spec_expiry_sweep_backtest(s: Seq<Order>, date: i64) -> Seq<Order>
    decreases s.len(),
{
    if s.len() == 0 {
        Seq::empty()
    } else {
        let rest = spec_expiry_sweep_backtest(s.drop_last(), date);
        if spec_survives_expiry(s.last(), date) {
            rest.push(s.last())
        } else {
            rest
        }
    }
}

/// One order after a live expiry sweep: an expired pending order is marked
/// Canceled with the sweep date; everything else is untouched.
pub open spec fn spec_expiry_mark_live(o: Order, date: i64) -> Order {
    if spec_is_pending(o) && !spec_is_still_valid(o, date) {
        o.spec_canceled(date)
    } else {
        o
    }
}

/// Time-bounds the pending orders. In a backtest, expired pending orders are
/// removed from the ledger; live, they are marked Canceled with the given
/// current time and kept for audit. Returns the updated ledger.
pub fn cancel_pending_expired_orders(
    index: usize,
    instrument: &Instrument,
    orders: &mut Vec<Order>,
    now: i64,
    config: &Config,
) -> (r: Vec<Order>)
    requires
        config.execution_mode == ExecutionMode::Backtest ==> index < instrument.data@.len(),
    ensures
        config.execution_mode == ExecutionMode::Backtest ==> final(orders)@
            == spec_expiry_sweep_backtest(old(orders)@, instrument.data@[index as int].date),
        config.execution_mode == ExecutionMode::Live ==> (final(orders)@.len() == old(
            orders,
        )@.len() && (forall|j: int|
            0 <= j < old(orders)@.len() ==> final(orders)@[j] == spec_expiry_mark_live(
                #[trigger] old(orders)@[j],
                now,
            ))),
        r@ == final(orders)@,
{
    if config.execution_mode.is_back_test() {
        let current_date = instrument.data[index].date;
        let len = orders.len();
        let mut kept: Vec<Order> = Vec::new();
        let mut result: Vec<Order> = Vec::new();
        let mut i: usize = 0;
        while i < len
            invariant
                0 <= i <= len,
                len == old(orders)@.len(),
                orders@ == old(orders)@,
                kept@ == spec_expiry_sweep_backtest(
                    old(orders)@.subrange(0, i as int),
                    current_date,
                ),
                result@ == kept@,
            decreases len - i,
        {
            proof {
                assert(old(orders)@.subrange(0, i + 1).drop_last() =~= old(orders)@.subrange(
                    0,
                    i as int,
                ));
                assert(old(orders)@.subrange(0, i + 1).last() == old(orders)@[i as int]);
            }
            let order = orders[i];
            if !(order.is_pending() && !order.is_still_valid(current_date)) {
                kept.push(order);
                result.push(order);
            }
            i = i + 1;
        }
        proof {
            assert(old(orders)@.subrange(0, len as int) =~= old(orders)@);
        }
        *orders = kept;
        result
    } else {
        let len = orders.len();
        let mut result: Vec<Order> = Vec::new();
        let mut i: usize = 0;
        while i < len
            invariant
                0 <= i <= len,
                len == old(orders)@.len(),
                orders@.len() == old(orders)@.len(),
                forall|j: int|
                    0 <= j < i ==> orders@[j] == spec_expiry_mark_live(
                        #[trigger] old(orders)@[j],
                        now,
                    ),
                forall|j: int| i <= j < len ==> orders@[j] == #[trigger] old(orders)@[j],
                result@.len() == i,
                forall|j: int| 0 <= j < i ==> result@[j] == #[trigger] orders@[j],
            decreases len - i,
        {
            let order = orders[i];
            if order.is_pending() && !order.is_still_valid(now) {
                let canceled = Order {
                    status: OrderStatus::Canceled,
                    updated_at: Some(now),
                    ..order
                };
                orders[i] = canceled;
                result.push(canceled);
            } else {
                result.push(order);
            }
            i = i + 1;
        }
        proof {
            assert(result@ =~= orders@);
        }
        result
    }
}

/// The deadline of a pending order is in storable range.
pub open spec fn order_deadline_ok(o: Order) -> bool {
    match o.valid_until {
        Some(v) => v <= DEADLINE_MAX,
        None => true,
    }
}

/// A pending order with its deadline pushed out by a year; anything else is
/// untouched.
pub open spec fn spec_extended(o: Order) -> Order {
    if spec_is_pending(o) && o.valid_until is Some {
        Order { valid_until: Some((o.valid_until->0 + VALID_UNTIL_EXTENSION_MS) as i64), ..o }
    } else {
        o
    }
}

/// Pushes every pending order's deadline out by a year, in place.
pub fn extend_all_pending_orders(orders: &mut Vec<Order>)
    requires
        forall|j: int| 0 <= j < old(orders)@.len() ==> order_deadline_ok(#[trigger] old(orders)@[j]),
    ensures
        final(orders)@.len() == old(orders)@.len(),
        forall|j: int|
            0 <= j < old(orders)@.len() ==> final(orders)@[j] == spec_extended(
                #[trigger] old(orders)@[j],
            ),
{
    let len = orders.len();
    let mut i: usize = 0;
    while i < len
        invariant
            0 <= i <= len,
            len == old(orders)@.len(),
            orders@.len() == old(orders)@.len(),
            forall|j: int| 0 <= j < old(orders)@.len() ==> order_deadline_ok(#[trigger] old(orders)@[j]),
            forall|j: int| 0 <= j < i ==> orders@[j] == spec_extended(#[trigger] old(orders)@[j]),
            forall|j: int| i <= j < len ==> orders@[j] == #[trigger] old(orders)@[j],
        decreases len - i,
    {
        let order = orders[i];
        proof {
            assert(order == old(orders)@[i as int]);
            assert(order_deadline_ok(order));
        }
        if order.is_pending() {
            match order.valid_until {
                Some(current_valid) => {
                    let new_valid_date = current_valid + VALID_UNTIL_EXTENSION_MS;
                    orders[i] = Order { valid_until: Some(new_valid_date), ..order };
                },
                None => {},
            }
        }
        i = i + 1;
    }
}

/// The ledger after all pending orders are force-canceled in a backtest:
/// they are removed, everything else kept in order.
pub open spec fn spec_drop_pending(s: Seq<Order>) -> Seq<Order>
    decreases s.len(),
{
    if s.len() == 0 {
        Seq::empty()
    } else {
        let rest = spec_drop_pending(s.drop_last());
        if spec_is_pending(s.last()) {
            rest
        } else {
            rest.push(s.last())
        }
    }
}

/// Force-cancels all pending orders once the position is flat: removed in a
/// backtest, marked Canceled with the trade's date live.
pub fn cancel_trade_pending_orders<T: Trade>(trade: &T, orders: &mut Vec<Order>, config: &Config)
    ensures
        config.execution_mode == ExecutionMode::Backtest ==> final(orders)@ == spec_drop_pending(
            old(orders)@,
        ),
        config.execution_mode == ExecutionMode::Live ==> (final(orders)@.len() == old(
            orders,
        )@.len() && (forall|j: int|
            0 <= j < old(orders)@.len() ==> final(orders)@[j] == (
            if spec_is_pending(old(orders)@[j]) {
                (#[trigger] old(orders)@[j]).spec_canceled(trade.spec_date())
            } else {
                old(orders)@[j]
            }))),
{
    if config.execution_mode.is_back_test() {
        let len = orders.len();
        let mut kept: Vec<Order> = Vec::new();
        let mut i: usize = 0;
        while i < len
            invariant
                0 <= i <= len,
                len == old(orders)@.len(),
                orders@ == old(orders)@,
                kept@ == spec_drop_pending(old(orders)@.subrange(0, i as int)),
            decreases len - i,
        {
            proof {
                assert(old(orders)@.subrange(0, i + 1).drop_last() =~= old(orders)@.subrange(
                    0,
                    i as int,
                ));
                assert(old(orders)@.subrange(0, i + 1).last() == old(orders)@[i as int]);
            }
            let order = orders[i];
            if !order.is_pending() {
                kept.push(order);
            }
            i = i + 1;
        }
        proof {
            assert(old(orders)@.subrange(0, len as int) =~= old(orders)@);
        }
        *orders = kept;
    } else {
        let date = trade.get_date();
        let len = orders.len();
        let mut i: usize = 0;
        while i < len
            invariant
                0 <= i <= len,
                len == old(orders)@.len(),
                orders@.len() == old(orders)@.len(),
                date == trade.spec_date(),
                forall|j: int|
                    0 <= j < i ==> orders@[j] == (if spec_is_pending(old(orders)@[j]) {
                        (#[trigger] old(orders)@[j]).spec_canceled(date)
                    } else {
                        old(orders)@[j]
                    }),
                forall|j: int| i <= j < len ==> orders@[j] == #[trigger] old(orders)@[j],
            decreases len - i,
        {
            let order = orders[i];
            if order.is_pending() {
                orders[i] = Order { status: OrderStatus::Canceled, updated_at: Some(date), ..order };
            }
            i = i + 1;
        }
    }
}

/// A ledger entry the fulfillment linker would pick: pending and of the
/// triggering order's type.
pub open spec fn spec_fulfill_match(o: Order, t: OrderType) -> bool {
    spec_is_pending(o) && o.order_type == t
}

/// The position of the first pending order of the given type, or -1 when no
/// entry matches.
pub open spec fn spec_first_match(s: Seq<Order>, t: OrderType) -> int
    decreases s.len(),
{
    if s.len() == 0 {
        -1
    } else if spec_fulfill_match(s[0], t) {
        0
    } else {
        let rest = spec_first_match(s.subrange(1, s.len() as int), t);
        if rest == -1 {
            -1
        } else {
            rest + 1
        }
    }
}

proof fn lemma_first_match_at(s: Seq<Order>, t: OrderType, i: int)
    requires
        0 <= i < s.len(),
        forall|j: int| 0 <= j < i ==> !spec_fulfill_match(#[trigger] s[j], t),
        spec_fulfill_match(s[i], t),
    ensures
        spec_first_match(s, t) == i,
    decreases i,
{
    if i > 0 {
        let rest = s.subrange(1, s.len() as int);
        assert(forall|j: int| 0 <= j < i - 1 ==> rest[j] == #[trigger] s[j + 1]);
        lemma_first_match_at(rest, t, i - 1);
    }
}

proof fn lemma_first_match_missing(s: Seq<Order>, t: OrderType)
    requires
        forall|j: int| 0 <= j < s.len() ==> !spec_fulfill_match(#[trigger] s[j], t),
    ensures
        spec_first_match(s, t) == -1,
    decreases s.len(),
{
    if s.len() > 0 {
        let rest = s.subrange(1, s.len() as int);
        assert(forall|j: int| 0 <= j < rest.len() ==> rest[j] == #[trigger] s[j + 1]);
        lemma_first_match_missing(rest, t);
    }
}

/// Locates the first pending order of the triggering order's type and marks
/// it fulfilled with the trade's date and the given bar index; a no-op when
/// nothing matches, so the surrounding trade resolution never fails here.
pub fn fulfill_trade_order<T: Trade>(
    index: usize,
    trade: &T,
    order: &Order,
    orders: &mut Vec<Order>,
)
    ensures
        ({
            let m = spec_first_match(old(orders)@, order.order_type);
            &&& m == -1 ==> final(orders)@ == old(orders)@
            &&& m >= 0 ==> final(orders)@ == old(orders)@.update(
                m,
                old(orders)@[m].spec_fulfilled(index, trade.spec_date()),
            )
        }),
{
    let date = trade.get_date();
    let len = orders.len();
    let mut i: usize = 0;
    while i < len
        invariant
            0 <= i <= len,
            len == orders@.len(),
            orders@ == old(orders)@,
            date == trade.spec_date(),
            forall|j: int| 0 <= j < i ==> !spec_fulfill_match(#[trigger] old(orders)@[j], order.order_type),
        decreases len - i,
    {
        let candidate = orders[i];
        if candidate.is_pending() && candidate.order_type == order.order_type {
            let fulfilled = Order {
                index_fulfilled: index,
                status: OrderStatus::Fulfilled,
                updated_at: Some(date),
                full_filled_at: Some(date),
                ..candidate
            };
            proof {
                lemma_first_match_at(old(orders)@, order.order_type, i as int);
            }
            orders[i] = fulfilled;
            return ;
        }
        i = i + 1;
    }
    proof {
        lemma_first_match_missing(old(orders)@, order.order_type);
    }
}

/// Fulfillment against the latest bar: the live-mode variant of the linker.
pub fn fulfill_bot_order<T: Trade>(
    trade: &T,
    order: &Order,
    orders: &mut Vec<Order>,
    instrument: &Instrument,
)
    requires
        instrument.data@.len() > 0,
    ensures
        ({
            let m = spec_first_match(old(orders)@, order.order_type);
            let index = (instrument.data@.len() - 1) as usize;
            &&& m == -1 ==> final(orders)@ == old(orders)@
            &&& m >= 0 ==> final(orders)@ == old(orders)@.update(
                m,
                old(orders)@[m].spec_fulfilled(index, trade.spec_date()),
            )
        }),
{
    let index = instrument.data.len() - 1;
    fulfill_trade_order(index, trade, order, orders)
}

/// Law, in its direct form: an accepted batch that carries a stop-loss
/// beside a tracked entry level holds an entry order whose own target price
/// the stop sits strictly on the loss side of — strictly below it for a
/// Down stop (long entry), strictly above it for an Up stop (short entry).
pub proof fn lemma_accepted_stop_on_loss_side_of_entry_order(ots: Seq<OrderType>, ctx: PrepareCtx)
    requires
        prepare_rec(ots, ctx).all_valid,
        !spec_stop_misplaced(prepare_rec(ots, ctx)),
        prepare_rec(ots, ctx).has_stop,
        prepare_rec(ots, ctx).buy_target > 0,
    ensures
        ({
            let out = prepare_rec(ots, ctx);
            exists|j: int|
                0 <= j < out.orders.len() && order_type_is_entry(
                    #[trigger] out.orders[j].order_type,
                ) && (if out.stop_direction == OrderDirection::Down {
                    out.stop_target < out.orders[j].target_price
                } else {
                    out.stop_target > out.orders[j].target_price
                })
        }),
{
    lemma_buy_target_is_entry_target(ots, ctx);
    lemma_accepted_stop_on_loss_side(prepare_rec(ots, ctx));
    let out = prepare_rec(ots, ctx);
    let j = choose|j: int|
        0 <= j < out.orders.len() && order_type_is_entry(#[trigger] out.orders[j].order_type)
            && out.orders[j].target_price == out.buy_target;
    assert(order_type_is_entry(out.orders[j].order_type));
}

} // verus!
