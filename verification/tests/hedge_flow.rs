use hedge_engine::engine::{ExecutionEngine, FillEvent, OrderStatus, SpotUserTradesObserver};
use hedge_engine::hedge::HedgeAccumulator;

// Atoms per whole base unit in these tests: one atom is 1e-4 of the asset,
// so a venue minimum lot of 0.001 is 10 atoms.
const UNIT: u64 = 10_000;
const MIN_LOT: u64 = 10;

fn accumulator() -> HedgeAccumulator {
    HedgeAccumulator::new(None, 50_000, MIN_LOT, 1, UNIT)
}

#[test]
fn terminal_flush_sells_everything_available() {
    // available_to_sell 0.0015, remains_to_buy 0: sold in full, no gating.
    let r = accumulator().calculate_size_to_sell_on_futures(15, 0);
    assert_eq!(r, Some(15));
}

#[test]
fn terminal_flush_may_go_below_the_minimum() {
    // The flush ignores the venue minimum: a sub-minimum leftover still goes.
    let r = accumulator().calculate_size_to_sell_on_futures(4, 0);
    assert_eq!(r, Some(4));
}

#[test]
fn borrowed_shortfall_can_defer_the_hedge() {
    // available 0.0004, remains 0.0003 (below the 0.001 minimum): the
    // shortfall of 0.0007 is borrowed, which exhausts what is available, so
    // nothing is sold yet.
    let r = accumulator().calculate_size_to_sell_on_futures(4, 3);
    assert_eq!(r, None);
}

#[test]
fn borrowed_shortfall_holds_back_part_of_a_sell() {
    // available 0.0017, remains 0.0003: 0.0007 is held back so the final
    // fill can still form a legal order, leaving 0.0010 to sell now.
    let r = accumulator().calculate_size_to_sell_on_futures(17, 3);
    assert_eq!(r, Some(10));
}

#[test]
fn sub_minimum_accumulation_is_deferred() {
    // available 0.0005 with plenty remaining: below the minimum, wait.
    let r = accumulator().calculate_size_to_sell_on_futures(5, 200);
    assert_eq!(r, None);
}

#[test]
fn proposed_sell_is_truncated_to_the_grid() {
    let acc = HedgeAccumulator::new(None, 50_000, MIN_LOT, 5, UNIT);
    // available 0.0023, no borrow needed: floor(23, 5) = 20 atoms.
    assert_eq!(acc.calculate_size_to_sell_on_futures(23, 100), Some(20));
    // With a borrow of 6: floor(17, 5) = 15, still at or above the minimum.
    assert_eq!(acc.calculate_size_to_sell_on_futures(23, 4), Some(15));
}

#[test]
fn min_base_size_follows_the_venue_min_notional() {
    // Minimum notional 200 at price 50000 with unit 1e6 atoms: the implied
    // minimum is ceil(200e6 / 50000) = 4000 atoms, above the lot of 1000.
    let acc = HedgeAccumulator::new(Some(200), 50_000, 1_000, 1_000, 1_000_000);
    assert_eq!(acc.futures_order_min_base_size, 4_000);
    assert_eq!(acc.size_step, 1_000);
    // Without a minimum notional the venue lot stands.
    let lot_only = HedgeAccumulator::new(None, 50_000, 1_000, 1_000, 1_000_000);
    assert_eq!(lot_only.futures_order_min_base_size, 1_000);
}

#[test]
fn unrelated_order_events_leave_the_engine_unchanged() {
    // Tracking order 17: a FILLED event for order 99 changes nothing and
    // submits nothing.
    let mut engine = ExecutionEngine::start_cycle(17, accumulator());
    let before = engine;
    let ev = FillEvent {
        order_id: 99,
        status: OrderStatus::Filled,
        qty_last_filled_trade: 50,
        accumulated_qty_filled_trades: 50,
        total_order_qty: 50,
    };
    assert_eq!(engine.on_fill_event(&ev), None);
    assert_eq!(engine, before);
}

#[test]
fn resting_order_notice_changes_nothing() {
    let mut engine = ExecutionEngine::start_cycle(17, accumulator());
    let before = engine;
    let ev = FillEvent {
        order_id: 17,
        status: OrderStatus::New,
        qty_last_filled_trade: 0,
        accumulated_qty_filled_trades: 0,
        total_order_qty: 100,
    };
    assert_eq!(engine.on_fill_event(&ev), None);
    assert_eq!(engine, before);
}

#[test]
fn unknown_status_changes_nothing() {
    let mut engine = ExecutionEngine::start_cycle(17, accumulator());
    let before = engine;
    let ev = FillEvent {
        order_id: 17,
        status: OrderStatus::Other,
        qty_last_filled_trade: 30,
        accumulated_qty_filled_trades: 30,
        total_order_qty: 100,
    };
    assert_eq!(engine.on_fill_event(&ev), None);
    assert_eq!(engine, before);
}

#[test]
fn full_lifecycle_conserves_the_hedge() {
    // Order of 100 atoms fills in three parts; every proposed sell executes.
    let mut engine = ExecutionEngine::start_cycle(17, accumulator());

    let first = FillEvent {
        order_id: 17,
        status: OrderStatus::PartiallyFilled,
        qty_last_filled_trade: 30,
        accumulated_qty_filled_trades: 30,
        total_order_qty: 100,
    };
    let sell = engine.on_fill_event(&first);
    assert_eq!(sell, Some(30));
    engine.on_hedge_result(30);

    let second = FillEvent {
        order_id: 17,
        status: OrderStatus::PartiallyFilled,
        qty_last_filled_trade: 50,
        accumulated_qty_filled_trades: 80,
        total_order_qty: 100,
    };
    let sell = engine.on_fill_event(&second);
    assert_eq!(sell, Some(50));
    engine.on_hedge_result(50);

    let last = FillEvent {
        order_id: 17,
        status: OrderStatus::Filled,
        qty_last_filled_trade: 20,
        accumulated_qty_filled_trades: 100,
        total_order_qty: 100,
    };
    let flush = engine.on_fill_event(&last);
    assert_eq!(flush, Some(20));
    engine.on_hedge_result(20);

    assert!(engine.done);
    assert_eq!(engine.total_filled, 100);
    assert_eq!(engine.total_hedged, 100);
    assert_eq!(engine.available_to_sell, 0);
}

#[test]
fn failed_hedge_leaves_the_shortfall_for_the_next_fill() {
    // The first proposed sell fails (zero executed); the shortfall rides
    // along and goes out with the next one.
    let mut engine = ExecutionEngine::start_cycle(17, accumulator());

    let first = FillEvent {
        order_id: 17,
        status: OrderStatus::PartiallyFilled,
        qty_last_filled_trade: 30,
        accumulated_qty_filled_trades: 30,
        total_order_qty: 100,
    };
    assert_eq!(engine.on_fill_event(&first), Some(30));
    engine.on_hedge_result(0);
    assert_eq!(engine.available_to_sell, 30);

    let last = FillEvent {
        order_id: 17,
        status: OrderStatus::Filled,
        qty_last_filled_trade: 70,
        accumulated_qty_filled_trades: 100,
        total_order_qty: 100,
    };
    assert_eq!(engine.on_fill_event(&last), Some(100));
    engine.on_hedge_result(100);
    assert_eq!(engine.total_hedged, 100);
    assert_eq!(engine.available_to_sell, 0);
}

#[test]
fn small_fills_accumulate_until_the_minimum() {
    let mut engine = ExecutionEngine::start_cycle(17, accumulator());

    let first = FillEvent {
        order_id: 17,
        status: OrderStatus::PartiallyFilled,
        qty_last_filled_trade: 4,
        accumulated_qty_filled_trades: 4,
        total_order_qty: 100,
    };
    assert_eq!(engine.on_fill_event(&first), None);

    let second = FillEvent {
        order_id: 17,
        status: OrderStatus::PartiallyFilled,
        qty_last_filled_trade: 8,
        accumulated_qty_filled_trades: 12,
        total_order_qty: 100,
    };
    assert_eq!(engine.on_fill_event(&second), Some(12));
    engine.on_hedge_result(12);
    assert_eq!(engine.available_to_sell, 0);
}

#[test]
fn normalize_accepts_consistent_quantities() {
    let ev = SpotUserTradesObserver::normalize(17, OrderStatus::PartiallyFilled, 30, 30, 100);
    assert_eq!(
        ev,
        Some(FillEvent {
            order_id: 17,
            status: OrderStatus::PartiallyFilled,
            qty_last_filled_trade: 30,
            accumulated_qty_filled_trades: 30,
            total_order_qty: 100,
        })
    );
}

#[test]
fn normalize_rejects_inconsistent_quantities() {
    // A single trade larger than the running total.
    assert_eq!(
        SpotUserTradesObserver::normalize(17, OrderStatus::PartiallyFilled, 40, 30, 100),
        None
    );
    // A running total larger than the order.
    assert_eq!(
        SpotUserTradesObserver::normalize(17, OrderStatus::Filled, 10, 120, 100),
        None
    );
}
