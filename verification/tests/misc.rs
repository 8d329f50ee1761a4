use rsalgo::candle::{Candle, CandleBuilder, CandleType};
use rsalgo::instrument::Instrument;
use rsalgo::market::{market_open_at, MarketHour, MarketHours};
use rsalgo::message::{Command, CommandType, ResponseBody, ResponseType, TradeData};
use rsalgo::mode::{from_str, ExecutionMode};
use rsalgo::order::{
    extend_all_pending_orders, Order, OrderCategory, OrderDirection, OrderStatus, OrderType,
    StopLossType,
};
use rsalgo::pricing::Pricing;
use rsalgo::strategy::StrategyType;
use rsalgo::time_frame::{adapt_to_time_frame, TimeFrame, TimeFrameType, OPEN_CANDLE_OFFSET};
use rsalgo::trade::{type_from_str, Trade, TradeIn, TradeType};

#[test]
fn execution_mode_from_str() {
    assert_eq!(from_str("backtest"), ExecutionMode::Backtest);
    assert_eq!(from_str("live"), ExecutionMode::Live);
    assert_eq!(from_str("anything else"), ExecutionMode::Live);
    assert!(ExecutionMode::Backtest.is_back_test());
    assert!(ExecutionMode::Live.is_live());
}

#[test]
fn trade_type_from_str_round() {
    assert_eq!(type_from_str("MarketInLong"), TradeType::MarketInLong);
    assert_eq!(type_from_str("OrderOutShort"), TradeType::OrderOutShort);
    assert_eq!(type_from_str("StopLossLong"), TradeType::StopLossLong);
    assert_eq!(type_from_str("nonsense"), TradeType::Undefined);
}

#[test]
fn trade_type_predicates() {
    assert!(TradeType::MarketInLong.is_entry());
    assert!(TradeType::MarketInLong.is_long());
    assert!(TradeType::MarketInLong.is_long_entry());
    assert!(!TradeType::MarketInLong.is_exit());
    assert!(TradeType::StopLossShort.is_exit());
    assert!(TradeType::StopLossShort.is_stop());
    assert!(TradeType::StopLossShort.is_order());
    assert!(TradeType::OrderInShort.is_short_entry());
    assert!(TradeType::OrderInShort.is_short());
    assert!(!TradeType::Undefined.is_entry());
}

#[test]
fn time_frames_by_name_and_number() {
    assert_eq!(TimeFrame::new("H4"), TimeFrameType::H4);
    assert_eq!(TimeFrameType::from_str("M15"), TimeFrameType::M15);
    assert_eq!(TimeFrameType::from_str("bogus"), TimeFrameType::ERR);
    assert_eq!(TimeFrameType::from_number(60), TimeFrameType::H1);
    assert_eq!(TimeFrameType::from_number(7), TimeFrameType::ERR);
    assert_eq!(TimeFrameType::H4.to_number(), 240);
    assert_eq!(TimeFrameType::W.max_bars(), 10080);
    assert_eq!(TimeFrameType::M5.prev_candles(), 5);
    assert_eq!(TimeFrameType::M15.closing_time(), vec![0, 15, 30, 45]);
}

#[test]
fn adapt_marks_candles_between_closing_ticks() {
    let data = (60_000, 1000, 1010, 990, 1005, 7);
    // 12:03 is not a closing minute of a five-minute frame
    let marked = adapt_to_time_frame(data, &TimeFrameType::M5, 3, 12);
    assert_eq!(marked.4, 1005 + OPEN_CANDLE_OFFSET);
    assert_eq!(marked.1, 1000);
    // 12:04 is: minute + 1 hits the closing list
    let closed = adapt_to_time_frame(data, &TimeFrameType::M5, 4, 12);
    assert_eq!(closed, data);
    // hour frames look at the hour instead
    let hourly = adapt_to_time_frame(data, &TimeFrameType::H4, 3, 12);
    assert_eq!(hourly.4, 1005 + OPEN_CANDLE_OFFSET);
    let hourly_closed = adapt_to_time_frame(data, &TimeFrameType::H4, 3, 11);
    assert_eq!(hourly_closed, data);
    // one-minute candles always pass unchanged
    assert_eq!(adapt_to_time_frame(data, &TimeFrameType::M1, 3, 12), data);
}

#[test]
fn candle_builder_requires_all_fields() {
    let built = Candle::new()
        .date(60_000)
        .open(1000)
        .high(1010)
        .low(990)
        .close(1005)
        .volume(3)
        .is_closed(true)
        .build()
        .unwrap();
    assert_eq!(built.open(), 1000);
    assert_eq!(built.close(), 1005);
    assert_eq!(built.high(), 1010);
    assert_eq!(built.low(), 990);
    assert_eq!(built.volume(), 3);
    assert_eq!(built.date(), 60_000);
    assert!(built.is_closed());
    assert_eq!(*built.candle_type(), CandleType::Default);

    let missing = CandleBuilder::new().date(60_000).open(1000).build();
    assert!(missing.is_err());
}

#[test]
fn candle_sentiment_follows_type() {
    let mut c = Candle {
        candle_type: CandleType::Karakasa,
        date: 1,
        open: 1,
        high: 1,
        low: 1,
        close: 1,
        volume: 1,
        is_closed: true,
    };
    assert!(c.is_bullish());
    assert!(!c.is_bearish());
    c.candle_type = CandleType::BearishEngulfing;
    assert!(c.is_bearish());
    c.set_close(5);
    c.set_open(2);
    c.set_high(6);
    c.set_low(1);
    c.set_date(99);
    c.set_is_closed(false);
    assert_eq!((c.open, c.high, c.low, c.close, c.date, c.is_closed), (2, 6, 1, 5, 99, false));
}

#[test]
fn market_hours_last_entry_wins() {
    let hours = vec![
        MarketHour { day: 1, from: 8, to: 16 },
        MarketHour { day: 2, from: 0, to: 23 },
        MarketHour { day: 1, from: 10, to: 12 },
    ];
    // the later weekday-1 window overrides the earlier one
    assert!(!market_open_at(&hours, 1, 9));
    assert!(market_open_at(&hours, 1, 11));
    assert!(market_open_at(&hours, 2, 5));
    assert!(!market_open_at(&hours, 3, 5));
    let mh = MarketHours::new(true, "EURUSD".to_string(), hours);
    assert!(mh.is_open());
}

#[test]
fn extend_pushes_deadlines_a_year() {
    let order = Order {
        id: 1,
        trade_id: 1,
        index_created: 0,
        index_fulfilled: 0,
        size: 10,
        order_type: OrderType::BuyOrderLong {
            direction: OrderDirection::Up,
            size: 10,
            target_price: 1100,
        },
        status: OrderStatus::Pending,
        origin_price: 1000,
        target_price: 1100,
        created_at: 1,
        updated_at: None,
        full_filled_at: None,
        valid_until: Some(500_000),
    };
    let mut canceled = order;
    canceled.cancel_order(7);
    let mut ledger = vec![order, canceled];
    extend_all_pending_orders(&mut ledger);
    assert_eq!(ledger[0].valid_until, Some(500_000 + 31_536_000_000));
    // a non-pending order keeps its deadline
    assert_eq!(ledger[1].valid_until, Some(500_000));
}

#[test]
fn message_envelopes_carry_payloads() {
    let cmd = Command { command: CommandType::GetInstrumentPricing, data: Some(42u32) };
    assert!(matches!(cmd.command, CommandType::GetInstrumentPricing));
    assert_eq!(cmd.data, Some(42));
    let resp: ResponseBody<bool> =
        ResponseBody { response: ResponseType::Connected, payload: None };
    assert!(matches!(resp.response, ResponseType::Connected));
    assert!(resp.payload.is_none());
    let td = TradeData { symbol: "EURUSD".to_string(), data: 7i64 };
    assert_eq!(td.symbol, "EURUSD");
    assert_eq!(td.data, 7);
}

#[test]
fn strategy_type_predicates() {
    assert!(StrategyType::OnlyLong.is_long_only());
    assert!(StrategyType::OnlyLongMTF.is_long_only());
    assert!(!StrategyType::LongShort.is_long_only());
    assert!(StrategyType::LongShortMTF.is_multi_timeframe());
    assert!(!StrategyType::OnlyShort.is_multi_timeframe());
}

#[test]
fn order_type_predicates_and_category() {
    let buy = OrderType::BuyOrderLong {
        direction: OrderDirection::Up,
        size: 10,
        target_price: 1100,
    };
    let sell = OrderType::SellOrderShort {
        direction: OrderDirection::Down,
        size: 10,
        target_price: 900,
    };
    let tp = OrderType::TakeProfitShort {
        direction: OrderDirection::Down,
        size: 10,
        target_price: 900,
    };
    let stop = OrderType::StopLossShort {
        direction: OrderDirection::Up,
        stop_loss_type: StopLossType::Pips(5),
    };
    assert!(buy.is_entry() && buy.is_long() && !buy.is_exit() && !buy.is_stop());
    assert!(sell.is_exit() && !sell.is_long() && !sell.is_entry());
    assert!(tp.is_exit() && !tp.is_stop());
    assert!(stop.is_stop() && !stop.is_exit() && !stop.is_entry());
    assert_eq!(buy.category(), OrderCategory::Buy);
    assert_eq!(sell.category(), OrderCategory::Sell);
    assert_eq!(tp.category(), OrderCategory::Sell);
    assert_eq!(stop.category(), OrderCategory::Stop);
}

#[test]
fn pricing_and_instrument_accessors() {
    let p = Pricing::new("EURUSD".to_string(), 1002, 1000, 2, 1);
    assert_eq!(p.ask(), 1002);
    assert_eq!(p.bid(), 1000);
    assert_eq!(p.spread(), 2);
    assert_eq!(p.pip_size(), 1);
    let inst = Instrument::new("EURUSD".to_string(), TimeFrameType::M5, Vec::new());
    assert_eq!(*inst.time_frame(), TimeFrameType::M5);
    assert_eq!(inst.data().len(), 0);
}

#[test]
fn order_field_setters() {
    let mut order = Order {
        id: 1,
        trade_id: 1,
        index_created: 0,
        index_fulfilled: 0,
        size: 10,
        order_type: OrderType::BuyOrderLong {
            direction: OrderDirection::Up,
            size: 10,
            target_price: 1100,
        },
        status: OrderStatus::Pending,
        origin_price: 1000,
        target_price: 1100,
        created_at: 1,
        updated_at: None,
        full_filled_at: None,
        valid_until: None,
    };
    order.set_trade_id(9);
    order.update_pricing(1010, 1110);
    order.set_full_filled_index(4);
    order.set_full_filled_at(55);
    order.set_valid_until(77);
    order.set_updated_at(66);
    order.set_status(OrderStatus::Canceled);
    assert_eq!(order.trade_id, 9);
    assert_eq!((order.origin_price, order.target_price), (1010, 1110));
    assert_eq!(order.index_fulfilled, 4);
    assert_eq!(order.full_filled_at, Some(55));
    assert_eq!(order.valid_until, Some(77));
    assert_eq!(order.updated_at, Some(66));
    assert_eq!(order.status, OrderStatus::Canceled);
    assert_eq!(order.size(), 10);
}

#[test]
fn trade_records_expose_their_prices() {
    let t = TradeIn {
        id: 1,
        index_in: 5,
        quantity: 10,
        origin_price: 1000,
        price_in: 1002,
        ask: 1002,
        spread: 2,
        date_in: 777,
        trade_type: TradeType::MarketInLong,
    };
    assert_eq!(t.get_date(), 777);
    assert_eq!(t.get_price_in(), 1002);
    assert_eq!(t.get_price_out(), 1002);
}
