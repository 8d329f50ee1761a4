use rsalgo::candle::{Candle, CandleType};
use rsalgo::config::{ActivationSource, Config, OrderEngine};
use rsalgo::error::RsAlgoErrorKind;
use rsalgo::instrument::Instrument;
use rsalgo::mode::ExecutionMode;
use rsalgo::order::{
    add_pending, cancel_pending_expired_orders, cancel_trade_pending_orders, create_order,
    fulfill_trade_order, get_num_pending_orders, get_pending, has_executed_buy_order,
    prepare_orders, resolve_active_orders, validate_target_price, Order, OrderDirection,
    OrderStatus, OrderType, StopLossType,
};
use rsalgo::pricing::Pricing;
use rsalgo::time_frame::TimeFrameType;
use rsalgo::trade::{Position, TradeIn, TradeType};

fn bar(i: usize, open: i64, high: i64, low: i64, close: i64) -> Candle {
    Candle {
        candle_type: CandleType::Default,
        date: ((i + 1) as i64) * 60_000,
        open,
        high,
        low,
        close,
        volume: 1,
        is_closed: true,
    }
}

fn flat_bars(n: usize) -> Vec<Candle> {
    (0..n).map(|i| bar(i, 1000, 1010, 990, 1000)).collect()
}

fn config() -> Config {
    Config {
        max_buy_orders: 1,
        max_sell_orders: 2,
        max_stop_losses: 1,
        max_pending_orders: 10,
        valid_until_bars: 10,
        order_with_spread: true,
        non_profitable_outs: true,
        order_engine: OrderEngine::Bot,
        order_activation_source: ActivationSource::HighsLows,
        execution_mode: ExecutionMode::Backtest,
        order_size: 10,
    }
}

fn pricing() -> Pricing {
    Pricing::new("EURUSD".to_string(), 1002, 1000, 2, 1)
}

fn instrument(data: Vec<Candle>) -> Instrument {
    Instrument::new("EURUSD".to_string(), TimeFrameType::M1, data)
}

fn buy_long(size: i64, target: i64) -> OrderType {
    OrderType::BuyOrderLong { direction: OrderDirection::Up, size, target_price: target }
}

#[test]
fn validate_target_price_by_direction() {
    assert!(validate_target_price(&OrderDirection::Up, 1000, 1100));
    assert!(!validate_target_price(&OrderDirection::Up, 1000, 1000));
    assert!(!validate_target_price(&OrderDirection::Up, 1000, 900));
    assert!(validate_target_price(&OrderDirection::Down, 1000, 900));
    assert!(!validate_target_price(&OrderDirection::Down, 1000, 1000));
    assert!(!validate_target_price(&OrderDirection::Down, 1000, 1100));
}

#[test]
fn prepare_orders_accepts_valid_batch() {
    let inst = instrument(flat_bars(13));
    let batch = vec![
        buy_long(10, 1100),
        OrderType::StopLossLong {
            direction: OrderDirection::Down,
            stop_loss_type: StopLossType::Price(1050),
        },
    ];
    let orders =
        prepare_orders(10, &inst, &pricing(), &TradeType::MarketInLong, &batch, &config()).unwrap();
    assert_eq!(orders.len(), 2);
    assert_eq!(orders[0].target_price, 1100);
    assert_eq!(orders[0].status, OrderStatus::Pending);
    assert_eq!(orders[0].origin_price, 1000);
    assert_eq!(orders[1].target_price, 1050);
    assert_eq!(orders[0].trade_id, orders[1].trade_id);
    // the orders are stamped from bar 10 and expire ten one-minute bars later
    assert_eq!(orders[0].id, 11 * 60_000);
    assert_eq!(orders[0].valid_until, Some(11 * 60_000 + 10 * 60_000));
}

#[test]
fn prepare_orders_rejects_crossed_target() {
    let inst = instrument(flat_bars(13));
    let batch = vec![buy_long(10, 900)];
    let err = prepare_orders(10, &inst, &pricing(), &TradeType::MarketInLong, &batch, &config())
        .unwrap_err();
    assert_eq!(err.err, RsAlgoErrorKind::InvalidTargetPrice);
    assert!(err.is_fatal());
}

#[test]
fn prepare_orders_rejects_stop_above_long_entry() {
    // entry target 110.0 with a stop at 115.0: above a long entry, rejected
    let inst = instrument(flat_bars(13));
    let batch = vec![
        buy_long(10, 1100),
        OrderType::StopLossLong {
            direction: OrderDirection::Down,
            stop_loss_type: StopLossType::Price(1150),
        },
    ];
    let err = prepare_orders(10, &inst, &pricing(), &TradeType::MarketInLong, &batch, &config())
        .unwrap_err();
    assert_eq!(err.err, RsAlgoErrorKind::StopLossWrongSide);
    assert!(err.is_fatal());
}

#[test]
fn prepare_orders_compares_stop_to_raw_entry_target() {
    // whatever the spread accounting, the stop is ordered against the entry
    // order's own target: a stop at 110.1 over a long entry at 110.0 is
    // rejected even though it sits below target-plus-spread
    let inst = instrument(flat_bars(13));
    let mut cfg = config();
    cfg.order_with_spread = false;
    let bad = vec![
        buy_long(10, 1100),
        OrderType::StopLossLong {
            direction: OrderDirection::Down,
            stop_loss_type: StopLossType::Price(1101),
        },
    ];
    let err =
        prepare_orders(10, &inst, &pricing(), &TradeType::MarketInLong, &bad, &cfg).unwrap_err();
    assert_eq!(err.err, RsAlgoErrorKind::StopLossWrongSide);

    // strictly below the entry target: accepted
    let good = vec![
        buy_long(10, 1100),
        OrderType::StopLossLong {
            direction: OrderDirection::Down,
            stop_loss_type: StopLossType::Price(1099),
        },
    ];
    let orders =
        prepare_orders(10, &inst, &pricing(), &TradeType::MarketInLong, &good, &cfg).unwrap();
    assert_eq!(orders.len(), 2);
    assert_eq!(orders[1].target_price, 1099);
}

#[test]
fn prepare_orders_rejects_exit_below_long_entry() {
    let inst = instrument(flat_bars(13));
    let batch = vec![
        buy_long(10, 1100),
        OrderType::TakeProfitLong { direction: OrderDirection::Up, size: 10, target_price: 1050 },
    ];
    let err = prepare_orders(10, &inst, &pricing(), &TradeType::MarketInLong, &batch, &config())
        .unwrap_err();
    assert_eq!(err.err, RsAlgoErrorKind::ExitWrongSide);
    assert!(!err.is_fatal());
}

#[test]
fn prepare_orders_derives_stop_from_pips() {
    let inst = instrument(flat_bars(13));
    let batch = vec![
        buy_long(10, 1100),
        OrderType::StopLossLong {
            direction: OrderDirection::Down,
            stop_loss_type: StopLossType::Pips(30),
        },
    ];
    let orders =
        prepare_orders(10, &inst, &pricing(), &TradeType::MarketInLong, &batch, &config()).unwrap();
    // pip size 1: thirty pips below the entry target
    assert_eq!(orders[1].target_price, 1070);
}

#[test]
fn create_order_stamps_pending_order() {
    let inst = instrument(flat_bars(13));
    let ot = buy_long(10, 1100);
    let order = create_order(10, 77, &inst, &ot, 1100, 10, &config());
    assert_eq!(order.id, 11 * 60_000);
    assert_eq!(order.trade_id, 77);
    assert_eq!(order.index_created, 10);
    assert_eq!(order.status, OrderStatus::Pending);
    assert_eq!(order.size, 10);
    assert_eq!(order.updated_at, None);
    assert_eq!(order.full_filled_at, None);
}

fn pending_order_from(inst: &Instrument, target: i64) -> Order {
    let batch = vec![buy_long(10, target)];
    prepare_orders(10, inst, &pricing(), &TradeType::MarketInLong, &batch, &config()).unwrap()
        [0]
}

#[test]
fn activation_waits_for_a_later_bar() {
    // order created at bar 10 with target 110.0;
    // bar 11 high 105.0 does not trigger, bar 12 high 111.0 does
    let mut data = flat_bars(13);
    data[10].high = 1200;
    data[11].high = 1050;
    data[12].high = 1110;
    let inst = instrument(data);
    let order = pending_order_from(&inst, 1100);
    let ledger = vec![order];

    // bar 10 reaches the target but is the creation bar itself
    let p10 = resolve_active_orders(10, &inst, &ledger, &pricing(), &config());
    assert!(matches!(p10, Position::Idle));

    let p11 = resolve_active_orders(11, &inst, &ledger, &pricing(), &config());
    assert!(matches!(p11, Position::Idle));

    let p12 = resolve_active_orders(12, &inst, &ledger, &pricing(), &config());
    match p12 {
        Position::MarketInOrder(o) => assert_eq!(o, order),
        other => panic!("expected an activated entry, got {:?}", other),
    }
}

#[test]
fn resolution_is_idempotent_on_unchanged_inputs() {
    let mut data = flat_bars(13);
    data[12].high = 1110;
    let inst = instrument(data);
    let ledger = vec![pending_order_from(&inst, 1100)];
    let first = resolve_active_orders(12, &inst, &ledger, &pricing(), &config());
    let second = resolve_active_orders(12, &inst, &ledger, &pricing(), &config());
    match (first, second) {
        (Position::MarketInOrder(a), Position::MarketInOrder(b)) => assert_eq!(a, b),
        other => panic!("expected the same activated entry twice, got {:?}", other),
    }
}

#[test]
fn exit_is_suppressed_without_consumed_buy_capacity() {
    // a sell order activates, but the pending-buy count equals the ceiling,
    // so no position can be open and the exit is suppressed
    let mut data = flat_bars(13);
    data[12].high = 1110;
    let inst = instrument(data);
    let batch = vec![
        buy_long(10, 1100),
        OrderType::SellOrderLong { direction: OrderDirection::Up, size: 10, target_price: 1105 },
    ];
    let ledger =
        prepare_orders(10, &inst, &pricing(), &TradeType::MarketInLong, &batch, &config()).unwrap();
    // both the buy and the sell cross on bar 12; the sell wins the scan, but
    // one pending buy == max_buy_orders, so the exit falls back to idle
    let p = resolve_active_orders(12, &inst, &ledger, &pricing(), &config());
    assert!(matches!(p, Position::Idle));
}

#[test]
fn has_executed_buy_order_guards_market_out() {
    let inst = instrument(flat_bars(13));
    let order = pending_order_from(&inst, 1100);
    let ledger = vec![order];
    let out = Position::MarketOutOrder(order);
    // one pending buy == ceiling: no executed buy
    assert!(!has_executed_buy_order(&ledger, &out, &config()));
    // a count past the ceiling is no consumed capacity either
    let crowded = vec![order, pending_order_from(&inst, 1200)];
    assert!(!has_executed_buy_order(&crowded, &out, &config()));
    // an empty ledger has spare capacity: a filled entry must explain it
    assert!(has_executed_buy_order(&Vec::new(), &out, &config()));
    // entries and idle positions always pass
    assert!(has_executed_buy_order(&ledger, &Position::MarketInOrder(order), &config()));
    assert!(has_executed_buy_order(&ledger, &Position::Idle, &config()));
}

#[test]
fn add_pending_respects_category_ceilings() {
    let inst = instrument(flat_bars(13));
    let order = pending_order_from(&inst, 1100);
    let second = pending_order_from(&inst, 1200);
    // ceiling of one buy: the second proposed buy is not admitted
    let ledger = add_pending(Vec::new(), vec![order, second], &config());
    assert_eq!(ledger.len(), 1);
    assert_eq!(ledger[0], order);
    let (buys, sells, stops) = get_num_pending_orders(&ledger, &config());
    assert_eq!((buys, sells, stops), (1, 0, 0));
}

#[test]
fn add_pending_rejects_oversized_batch_unchanged() {
    let inst = instrument(flat_bars(13));
    let order = pending_order_from(&inst, 1100);
    let existing = vec![order];
    let mut cfg = config();
    cfg.max_pending_orders = 1;
    cfg.max_sell_orders = 2;
    let sell = OrderType::SellOrderLong {
        direction: OrderDirection::Up,
        size: 10,
        target_price: 1105,
    };
    let proposed = prepare_orders(
        10,
        &inst,
        &pricing(),
        &TradeType::MarketInLong,
        &vec![sell],
        &cfg,
    )
    .unwrap();
    // one admitted sell plus one already-pending order exceeds the total
    // ceiling of one: the ledger comes back unchanged
    let after = add_pending(existing.clone(), proposed, &cfg);
    assert_eq!(after, existing);
}

#[test]
fn add_pending_skips_non_pending_orders() {
    let inst = instrument(flat_bars(13));
    let mut order = pending_order_from(&inst, 1100);
    order.cancel_order(999);
    let ledger = add_pending(Vec::new(), vec![order], &config());
    assert_eq!(ledger.len(), 0);
}

#[test]
fn get_pending_returns_recent_pending_in_order() {
    let inst = instrument(flat_bars(13));
    let a = pending_order_from(&inst, 1100);
    let mut b = pending_order_from(&inst, 1200);
    b.cancel_order(999);
    let c = pending_order_from(&inst, 1300);
    let ledger = vec![a, b, c];
    let pending = get_pending(&ledger, &config());
    assert_eq!(pending, vec![a, c]);
}

#[test]
fn backtest_expiry_removes_expired_orders() {
    let mut data = flat_bars(13);
    data[12].date = 10_000_000;
    let inst = instrument(data);
    let order = pending_order_from(&inst, 1100);
    let mut ledger = vec![order];
    // bar 12 lies past the order's deadline: the order is removed
    let updated = cancel_pending_expired_orders(12, &inst, &mut ledger, 0, &config());
    assert_eq!(updated.len(), 0);
    assert_eq!(ledger.len(), 0);
}

#[test]
fn live_expiry_marks_orders_canceled() {
    // live mode with a deadline in the past leaves the
    // order in the ledger, Canceled, with a set update timestamp
    let inst = instrument(flat_bars(13));
    let mut order = pending_order_from(&inst, 1100);
    order.set_valid_until(100);
    let mut ledger = vec![order];
    let mut cfg = config();
    cfg.execution_mode = ExecutionMode::Live;
    let now = 5_000_000;
    let updated = cancel_pending_expired_orders(0, &inst, &mut ledger, now, &cfg);
    assert_eq!(updated.len(), 1);
    assert_eq!(ledger.len(), 1);
    assert_eq!(ledger[0].status, OrderStatus::Canceled);
    assert_eq!(ledger[0].updated_at, Some(now));
}

#[test]
fn live_expiry_keeps_fresh_orders_pending() {
    let inst = instrument(flat_bars(13));
    let order = pending_order_from(&inst, 1100);
    let mut ledger = vec![order];
    let mut cfg = config();
    cfg.execution_mode = ExecutionMode::Live;
    cancel_pending_expired_orders(0, &inst, &mut ledger, order.created_at + 1, &cfg);
    assert_eq!(ledger[0].status, OrderStatus::Pending);
}

#[test]
fn cancel_trade_pending_orders_by_mode() {
    let inst = instrument(flat_bars(13));
    let order = pending_order_from(&inst, 1100);
    let trade = TradeIn {
        id: 1,
        index_in: 5,
        quantity: 10,
        origin_price: 1000,
        price_in: 1002,
        ask: 1002,
        spread: 2,
        date_in: 777,
        trade_type: TradeType::MarketInLong,
    };

    let mut backtest_ledger = vec![order];
    cancel_trade_pending_orders(&trade, &mut backtest_ledger, &config());
    assert_eq!(backtest_ledger.len(), 0);

    let mut live_ledger = vec![order];
    let mut cfg = config();
    cfg.execution_mode = ExecutionMode::Live;
    cancel_trade_pending_orders(&trade, &mut live_ledger, &cfg);
    assert_eq!(live_ledger.len(), 1);
    assert_eq!(live_ledger[0].status, OrderStatus::Canceled);
    assert_eq!(live_ledger[0].updated_at, Some(777));
}

#[test]
fn fulfill_trade_order_marks_first_match() {
    let inst = instrument(flat_bars(13));
    let order = pending_order_from(&inst, 1100);
    let other = pending_order_from(&inst, 1100);
    let trade = TradeIn {
        id: 1,
        index_in: 5,
        quantity: 10,
        origin_price: 1000,
        price_in: 1002,
        ask: 1002,
        spread: 2,
        date_in: 888,
        trade_type: TradeType::MarketInLong,
    };
    let mut ledger = vec![order, other];
    fulfill_trade_order(12, &trade, &order, &mut ledger);
    assert_eq!(ledger[0].status, OrderStatus::Fulfilled);
    assert_eq!(ledger[0].index_fulfilled, 12);
    assert_eq!(ledger[0].updated_at, Some(888));
    assert_eq!(ledger[0].full_filled_at, Some(888));
    // only the first match transitions
    assert_eq!(ledger[1].status, OrderStatus::Pending);
}

#[test]
fn fulfill_trade_order_is_noop_without_match() {
    let inst = instrument(flat_bars(13));
    let order = pending_order_from(&inst, 1100);
    let unrelated = OrderType::SellOrderLong {
        direction: OrderDirection::Up,
        size: 10,
        target_price: 1200,
    };
    let trade = TradeIn {
        id: 1,
        index_in: 5,
        quantity: 10,
        origin_price: 1000,
        price_in: 1002,
        ask: 1002,
        spread: 2,
        date_in: 888,
        trade_type: TradeType::MarketInLong,
    };
    let mut probe = order;
    probe.order_type = unrelated;
    let mut ledger = vec![order];
    fulfill_trade_order(12, &trade, &probe, &mut ledger);
    assert_eq!(ledger[0], order);
}

#[test]
fn order_lifecycle_setters() {
    let inst = instrument(flat_bars(13));
    let mut order = pending_order_from(&inst, 1100);
    assert!(order.is_pending());
    assert!(!order.is_full_filled());
    assert!(order.is_still_valid(order.created_at + 1));
    assert!(!order.is_still_valid(i64::MAX));
    assert_eq!(order.to_trade_type(), TradeType::MarketInLong);
    order.fulfill_order(12, 999);
    assert!(!order.is_pending());
    assert!(order.is_full_filled());
    assert_eq!(order.status, OrderStatus::Fulfilled);
}
