use rsalgo::broker::{close_order_fill, close_trade_fill, open_order_fill, open_trade_fill};
use rsalgo::calc::{
    calculate_drawdown, calculate_profit, calculate_profit_per, calculate_quantity,
    calculate_runup,
};
use rsalgo::candle::{Candle, CandleType};
use rsalgo::config::{ActivationSource, Config, OrderEngine};
use rsalgo::instrument::Instrument;
use rsalgo::mode::ExecutionMode;
use rsalgo::order::{Order, OrderDirection, OrderStatus, OrderType, StopLossType};
use rsalgo::pricing::Pricing;
use rsalgo::time_frame::TimeFrameType;
use rsalgo::trade::{
    calculate_trade_index, resolve_trade_in, resolve_trade_out, TradeIn, TradeOut, TradeResult,
    TradeType,
};

fn bar(i: usize, open: i64, high: i64, low: i64, close: i64) -> Candle {
    Candle {
        candle_type: CandleType::Default,
        date: ((i + 1) as i64) * 60_000,
        open,
        high,
        low,
        close,
        volume: 1,
        is_closed: true,
    }
}

fn config() -> Config {
    Config {
        max_buy_orders: 1,
        max_sell_orders: 2,
        max_stop_losses: 1,
        max_pending_orders: 10,
        valid_until_bars: 10,
        order_with_spread: true,
        non_profitable_outs: true,
        order_engine: OrderEngine::Bot,
        order_activation_source: ActivationSource::HighsLows,
        execution_mode: ExecutionMode::Backtest,
        order_size: 10,
    }
}

fn pricing() -> Pricing {
    Pricing::new("EURUSD".to_string(), 1002, 1000, 2, 1)
}

/// Bars 0..=9: flat at 100.0 until bar 9, which opens at 105.0. Highs peak
/// at 106.0 on bar 7; lows dip to 99.0 on bar 6. One fixed-point unit is a
/// tenth of the quoted price.
fn scenario_bars() -> Vec<Candle> {
    let mut data: Vec<Candle> = (0..10).map(|i| bar(i, 1000, 1010, 995, 1000)).collect();
    data[7].high = 1060;
    data[6].low = 990;
    data[9].open = 1050;
    data
}

fn entry(data: &Vec<Candle>) -> TradeIn {
    let inst = Instrument::new("EURUSD".to_string(), TimeFrameType::M1, data.clone());
    match resolve_trade_in(4, 10, &inst, &pricing(), &TradeType::MarketInLong, None, &config()) {
        TradeResult::TradeIn(t) => t,
        other => panic!("expected an entry, got {:?}", other),
    }
}

#[test]
fn backtest_entry_fills_next_bar_open_plus_spread() {
    // entry at bar 5, which opens at 100.0, with a spread of 0.2
    let data = scenario_bars();
    let trade_in = entry(&data);
    assert_eq!(trade_in.index_in, 5);
    assert_eq!(trade_in.origin_price, 1000);
    assert_eq!(trade_in.ask, 1002);
    assert_eq!(trade_in.price_in, 1002);
    assert_eq!(trade_in.spread, 2);
    assert_eq!(trade_in.id, 6 * 60_000);
    // quantity: notional 1.0 over price 100.2, in ten-thousandths of a unit
    assert_eq!(trade_in.quantity, 10 * 10_000 / 1002);
}

#[test]
fn short_entry_pays_no_spread() {
    let data = scenario_bars();
    let inst = Instrument::new("EURUSD".to_string(), TimeFrameType::M1, data);
    match resolve_trade_in(4, 10, &inst, &pricing(), &TradeType::MarketInShort, None, &config()) {
        TradeResult::TradeIn(t) => {
            assert_eq!(t.price_in, 1000);
            assert_eq!(t.ask, 1000);
        },
        other => panic!("expected an entry, got {:?}", other),
    }
}

#[test]
fn exit_trade_type_resolves_no_entry() {
    let data = scenario_bars();
    let inst = Instrument::new("EURUSD".to_string(), TimeFrameType::M1, data);
    let r = resolve_trade_in(4, 10, &inst, &pricing(), &TradeType::MarketOutLong, None, &config());
    assert!(matches!(r, TradeResult::NoTrade));
}

#[test]
fn backtest_exit_computes_profit_and_excursions() {
    // exit triggers at bar 9, which opens at 105.0: profit 105.0 - 100.2 = 4.8
    let data = scenario_bars();
    let trade_in = entry(&data);
    let inst = Instrument::new("EURUSD".to_string(), TimeFrameType::M1, data);
    let out = match resolve_trade_out(
        8,
        &inst,
        &pricing(),
        &trade_in,
        &TradeType::MarketOutLong,
        None,
        &config(),
    ) {
        TradeResult::TradeOut(t) => t,
        other => panic!("expected an exit, got {:?}", other),
    };
    assert_eq!(out.index_out, 9);
    assert_eq!(out.price_in, 1002);
    assert_eq!(out.price_out, 1050);
    assert_eq!(out.profit, 48);
    // 4.8 over 100.2 in basis points, truncated
    assert_eq!(out.profit_per, 48 * 10_000 / 1002);
    // best excursion: high 106.0 on bar 7 against entry 100.2
    assert_eq!(out.run_up, 58);
    assert_eq!(out.run_up_per, 58 * 10_000 / 1002);
    // worst excursion: low 99.0 on bar 6 against entry 100.2
    assert_eq!(out.draw_down, 12);
    assert_eq!(out.draw_down_per, 12 * 10_000 / 1002);
    assert_eq!(out.bid, 1052);
    assert_eq!(out.date_in, trade_in.date_in);
    assert_eq!(out.date_out, 10 * 60_000);
}

#[test]
fn non_profitable_exit_is_suppressed() {
    // the suppression scenario: non-profitable exits disallowed, negative profit, not a stop
    let data = scenario_bars();
    let mut trade_in = entry(&data);
    trade_in.price_in = 1062;  // exit at 105.0 would lose 1.2
    let inst = Instrument::new("EURUSD".to_string(), TimeFrameType::M1, data);
    let mut cfg = config();
    cfg.non_profitable_outs = false;
    let r = resolve_trade_out(
        8,
        &inst,
        &pricing(),
        &trade_in,
        &TradeType::MarketOutLong,
        None,
        &cfg,
    );
    assert!(matches!(r, TradeResult::NoTrade));
}

#[test]
fn losing_stop_loss_exit_always_passes() {
    let data = scenario_bars();
    let mut trade_in = entry(&data);
    trade_in.price_in = 1062;
    let inst = Instrument::new("EURUSD".to_string(), TimeFrameType::M1, data);
    let mut cfg = config();
    cfg.non_profitable_outs = false;
    let stop = Order {
        id: 1,
        trade_id: 1,
        index_created: 4,
        index_fulfilled: 0,
        size: 10,
        order_type: OrderType::StopLossLong {
            direction: OrderDirection::Down,
            stop_loss_type: StopLossType::Price(990),
        },
        status: OrderStatus::Pending,
        origin_price: 1000,
        target_price: 990,
        created_at: 1,
        updated_at: None,
        full_filled_at: None,
        valid_until: Some(i64::MAX / 2),
    };
    let out = match resolve_trade_out(
        8,
        &inst,
        &pricing(),
        &trade_in,
        &TradeType::StopLossLong,
        Some(&stop),
        &cfg,
    ) {
        TradeResult::TradeOut(t) => t,
        other => panic!("expected a stop exit, got {:?}", other),
    };
    // the stop exits at its own level, at a loss, and is not suppressed
    assert_eq!(out.price_out, 990);
    assert!(out.profit < 0);
}

#[test]
fn live_exit_defers_aggregates() {
    let data = scenario_bars();
    let trade_in = entry(&data);
    let inst = Instrument::new("EURUSD".to_string(), TimeFrameType::M1, data);
    let mut cfg = config();
    cfg.execution_mode = ExecutionMode::Live;
    let out = match resolve_trade_out(
        9,
        &inst,
        &pricing(),
        &trade_in,
        &TradeType::MarketOutLong,
        None,
        &cfg,
    ) {
        TradeResult::TradeOut(t) => t,
        other => panic!("expected an exit, got {:?}", other),
    };
    assert_eq!(out.profit, 0);
    assert_eq!(out.profit_per, 0);
    assert_eq!(out.run_up, 0);
    assert_eq!(out.draw_down, 0);
    assert_eq!(out.index_out, 9);
}

#[test]
fn backtest_short_exit_pays_spread() {
    let data = scenario_bars();
    let inst = Instrument::new("EURUSD".to_string(), TimeFrameType::M1, data.clone());
    let short_in = match resolve_trade_in(
        4,
        10,
        &inst,
        &pricing(),
        &TradeType::MarketInShort,
        None,
        &config(),
    ) {
        TradeResult::TradeIn(t) => t,
        other => panic!("expected an entry, got {:?}", other),
    };
    let out = match resolve_trade_out(
        8,
        &inst,
        &pricing(),
        &short_in,
        &TradeType::MarketOutShort,
        None,
        &config(),
    ) {
        TradeResult::TradeOut(t) => t,
        other => panic!("expected an exit, got {:?}", other),
    };
    // a short exit in a backtest is charged the spread on top of the open
    assert_eq!(out.price_out, 1052);
    // profit of a short: price_in - price_out = 100.0 - 105.2
    assert_eq!(out.profit, -52);
}

#[test]
fn trade_index_offsets_by_mode() {
    assert_eq!(calculate_trade_index(7, None, &ExecutionMode::Backtest), 8);
    assert_eq!(calculate_trade_index(7, None, &ExecutionMode::Live), 7);
}

#[test]
fn calc_formulas_exact_values() {
    assert_eq!(calculate_quantity(10, 1002), 99);
    assert_eq!(calculate_quantity(10, 0), 0);
    assert_eq!(calculate_profit(1002, 1050, &TradeType::MarketOutLong), 48);
    assert_eq!(calculate_profit(1002, 1050, &TradeType::MarketOutShort), -48);
    assert_eq!(calculate_profit_per(1002, 1050, &TradeType::MarketOutLong), 479);
    assert_eq!(calculate_profit_per(1002, 954, &TradeType::MarketOutLong), -479);
    let data = scenario_bars();
    assert_eq!(calculate_runup(&data, 1002, 5, 9, &TradeType::MarketInLong), 58);
    assert_eq!(calculate_drawdown(&data, 1002, 5, 9, &TradeType::MarketInLong), 12);
    // for a short position the roles of highs and lows swap
    assert_eq!(calculate_runup(&data, 1002, 5, 9, &TradeType::MarketInShort), 12);
    assert_eq!(calculate_drawdown(&data, 1002, 5, 9, &TradeType::MarketInShort), 58);
}

fn sample_trade_out() -> TradeOut {
    TradeOut {
        id: 1,
        trade_type: TradeType::MarketOutLong,
        index_in: 5,
        price_in: 1002,
        ask: 1002,
        spread_in: 2,
        date_in: 6 * 60_000,
        index_out: 9,
        price_origin: 1002,
        price_out: 0,
        bid: 0,
        spread_out: 0,
        date_out: 0,
        profit: 0,
        profit_per: 0,
        run_up: 0,
        run_up_per: 0,
        draw_down: 0,
        draw_down_per: 0,
    }
}

#[test]
fn broker_open_trade_fills_quote_side() {
    let data = scenario_bars();
    let trade_in = entry(&data);
    let filled = open_trade_fill(&trade_in, 1004, 998, 6, 12345);
    assert_eq!(filled.price_in, 1004);
    assert_eq!(filled.ask, 1004);
    assert_eq!(filled.spread, 6);
    assert_eq!(filled.id, 12345);
}

#[test]
fn broker_close_trade_checks_profit() {
    let data = sample_trade_out();
    let (closed, accepted) = close_trade_fill(&data, 1004, 1050, 6, false, 777);
    // long close receives the bid 105.0 against entry 100.2: profitable
    assert!(accepted);
    assert_eq!(closed.price_out, 1050);
    assert_eq!(closed.date_out, 777);
    let (_, rejected) = close_trade_fill(&data, 1004, 998, 6, false, 777);
    assert!(!rejected);
    let (_, let_through) = close_trade_fill(&data, 1004, 998, 6, true, 777);
    assert!(let_through);
}

#[test]
fn broker_open_order_derives_trade_from_order() {
    let order = Order {
        id: 1,
        trade_id: 1,
        index_created: 4,
        index_fulfilled: 0,
        size: 10,
        order_type: OrderType::BuyOrderLong {
            direction: OrderDirection::Up,
            size: 10,
            target_price: 1100,
        },
        status: OrderStatus::Pending,
        origin_price: 1000,
        target_price: 1100,
        created_at: 1,
        updated_at: None,
        full_filled_at: None,
        valid_until: None,
    };
    let trade_in = open_order_fill(&order, 1004, 998, 6, 555);
    assert_eq!(trade_in.trade_type, TradeType::OrderInLong);
    assert_eq!(trade_in.price_in, 1004);
    assert_eq!(trade_in.index_in, 4);
    assert_eq!(trade_in.origin_price, 1000);
    assert_eq!(trade_in.quantity, 10 * 10_000 / 1004);
}

#[test]
fn broker_close_order_stop_uses_its_level() {
    let mut data = sample_trade_out();
    data.trade_type = TradeType::StopLossShort;
    let order = Order {
        id: 1,
        trade_id: 1,
        index_created: 4,
        index_fulfilled: 0,
        size: 10,
        order_type: OrderType::StopLossShort {
            direction: OrderDirection::Up,
            stop_loss_type: StopLossType::Price(1100),
        },
        status: OrderStatus::Pending,
        origin_price: 1000,
        target_price: 1100,
        created_at: 1,
        updated_at: None,
        full_filled_at: None,
        valid_until: None,
    };
    let (closed, accepted) = close_order_fill(&data, &order, 1004, 998, 6, false, 888);
    // a short-side stop closes at its target plus the spread, and always passes
    assert_eq!(closed.price_out, 1106);
    assert!(accepted);
}
