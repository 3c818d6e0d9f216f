use maker_engine::execution::order_action::{OrderAction, Side};
use maker_engine::execution::order_manager::OrderManager;
use maker_engine::execution::order_report::OrderReport;
use maker_engine::execution::order_side_manager::{OrderSideManager, SideInputs};
use maker_engine::execution::types::OrderSideState;
use maker_engine::types::instrument::Instrument;
use maker_engine::types::price::Price;
use maker_engine::types::quote::Quote;
use maker_engine::types::quote_target::QuoteTarget;
use maker_engine::types::trading_hours::TradingHours;
use maker_engine::types::trading_rules::TradingRules;
use maker_engine::units::SCALE;

const TICK: u64 = 10_000_000_000; // 0.01

fn rules() -> TradingRules {
    TradingRules {
        price_tick: TICK,
        quantity_step: 1_000_000_000,
        min_half_spread: 0,
        max_order_notional: 100 * SCALE,
        max_exposure_in_quote: 200 * SCALE,
        trading_hours: Some(TradingHours { start_hour: 0, end_hour: 24, weekend_pause: false }),
    }
}

fn instrument() -> Instrument {
    Instrument::new("SOL".to_string(), "GBP".to_string(), rules())
}

fn price(units: u64) -> Price {
    Price::new(units)
}

fn accepted(id: &str, side: Side, price_units: u64, quantity: u64) -> OrderReport {
    OrderReport::Accepted {
        order_id: id.to_string(),
        instrument: instrument(),
        side,
        price: price(price_units),
        quantity,
    }
}

/// A live order drifted three ticks; the replace cancels the old
/// order before placing the new one, and the side is optimistically
/// placing the new order afterwards.
#[test]
fn replace_on_drift_cancels_then_places() {
    let inst = instrument();
    let mut side = OrderSideManager::for_side(Side::Sell);
    // Live at 100.05 x 1.0, accepted at t = 1000.
    side.on_report(&accepted("A", Side::Sell, 100_050_000_000_000, SCALE), 1_000);
    // 600 ms later the desired quote sits 3 ticks away.
    let desired = Quote { price: price(100_080_000_000_000), quantity: SCALE };
    let actions = side.actions_for_target(SideInputs::new(&inst, 1_600, TICK, Some(desired)));
    assert_eq!(actions.len(), 2);
    match &actions[0] {
        OrderAction::Cancel { order_id, side, .. } => {
            assert_eq!(order_id, "A");
            assert_eq!(*side, Side::Sell);
        }
        other => panic!("expected a cancel first, got {other:?}"),
    }
    let new_id = match &actions[1] {
        OrderAction::Place(order) => {
            assert_eq!(order.price.units(), 100_080_000_000_000);
            assert_eq!(order.quantity, SCALE);
            assert_eq!(order.side, Side::Sell);
            assert_eq!(order.order_id.len(), 36);
            order.order_id.clone()
        }
        other => panic!("expected a place second, got {other:?}"),
    };
    assert_ne!(new_id, "A");
    match &side.state {
        OrderSideState::Placing { order_id, requested } => {
            assert_eq!(*order_id, new_id);
            assert_eq!(requested.price.units(), 100_080_000_000_000);
            assert_eq!(requested.quantity, SCALE);
        }
        other => panic!("expected placing, got {other:?}"),
    }
    assert_eq!(side.last_update_ms, Some(1_600));
}

/// A partial fill shrinks the resting quantity and refreshes the
/// lifetime, so the same desired quote within the minimum lifetime is
/// left alone.
#[test]
fn partial_fill_shrinks_and_protects() {
    let inst = instrument();
    let mut side = OrderSideManager::for_side(Side::Buy);
    side.on_report(&accepted("A", Side::Buy, 100 * SCALE, SCALE), 1_000);
    side.on_report(
        &OrderReport::PartiallyFilled {
            order_id: "A".to_string(),
            instrument: instrument(),
            side: Side::Buy,
            price: price(100 * SCALE),
            quantity: 300_000_000_000, // 0.3
            cum_quantity: 300_000_000_000,
        },
        2_000,
    );
    match &side.state {
        OrderSideState::Live { order_id, resting } => {
            assert_eq!(order_id, "A");
            assert_eq!(resting.quantity, 700_000_000_000);
            assert_eq!(resting.price.units(), 100 * SCALE);
        }
        other => panic!("expected live, got {other:?}"),
    }
    assert_eq!(side.last_update_ms, Some(2_000));
    // Same desired quote 100 ms later: within min_lifetime, no action.
    let desired = Quote { price: price(100 * SCALE), quantity: 700_000_000_000 };
    let actions = side.actions_for_target(SideInputs::new(&inst, 2_100, TICK, Some(desired)));
    assert!(actions.is_empty());
}

/// A filled report matching the current id returns the side to no order
/// and clears the update instant.
#[test]
fn filled_clears_side() {
    let mut side = OrderSideManager::for_side(Side::Buy);
    side.on_report(&accepted("A", Side::Buy, 100 * SCALE, SCALE), 1_000);
    side.on_report(
        &OrderReport::Filled {
            order_id: "A".to_string(),
            instrument: instrument(),
            side: Side::Buy,
            price: price(100 * SCALE),
            quantity: SCALE,
            cum_quantity: SCALE,
        },
        2_000,
    );
    assert_eq!(side.state, OrderSideState::NoOrder);
    assert_eq!(side.last_update_ms, None);
}

/// A cancelled report matching the current id clears the side too.
#[test]
fn cancelled_clears_side() {
    let mut side = OrderSideManager::for_side(Side::Sell);
    side.on_report(&accepted("A", Side::Sell, 100 * SCALE, SCALE), 1_000);
    side.on_report(
        &OrderReport::Cancelled {
            order_id: "A".to_string(),
            instrument: instrument(),
            side: Side::Sell,
        },
        2_000,
    );
    assert_eq!(side.state, OrderSideState::NoOrder);
    assert_eq!(side.last_update_ms, None);
}

/// Reports naming an unknown order id are ignored.
#[test]
fn mismatched_ids_are_ignored() {
    let mut side = OrderSideManager::for_side(Side::Buy);
    side.on_report(&accepted("A", Side::Buy, 100 * SCALE, SCALE), 1_000);
    let before = side.clone();
    side.on_report(
        &OrderReport::Filled {
            order_id: "B".to_string(),
            instrument: instrument(),
            side: Side::Buy,
            price: price(100 * SCALE),
            quantity: SCALE,
            cum_quantity: SCALE,
        },
        2_000,
    );
    assert_eq!(side, before);
}

/// Reports for the other side are ignored.
#[test]
fn other_side_reports_are_ignored() {
    let mut side = OrderSideManager::for_side(Side::Buy);
    side.on_report(&accepted("A", Side::Sell, 100 * SCALE, SCALE), 1_000);
    assert_eq!(side.state, OrderSideState::NoOrder);
}

/// A quantity difference of exactly one unit (10^-12) is not stale: the
/// comparison is strictly greater.
#[test]
fn quantity_epsilon_is_not_stale() {
    let inst = instrument();
    let mut side = OrderSideManager::for_side(Side::Buy);
    side.on_report(&accepted("A", Side::Buy, 100 * SCALE, SCALE), 1_000);
    // Well past min_lifetime; quantity differs by exactly one unit.
    let desired = Quote { price: price(100 * SCALE), quantity: SCALE + 1 };
    let actions = side.actions_for_target(SideInputs::new(&inst, 10_000, TICK, Some(desired)));
    assert!(actions.is_empty());
    // Two units of difference is a change.
    let desired = Quote { price: price(100 * SCALE), quantity: SCALE + 2 };
    let actions = side.actions_for_target(SideInputs::new(&inst, 10_000, TICK, Some(desired)));
    assert_eq!(actions.len(), 2);
}

/// At exactly the minimum lifetime the order is no longer protected,
/// but an unchanged quote is still not stale.
#[test]
fn min_lifetime_boundary_is_strict() {
    let inst = instrument();
    let mut side = OrderSideManager::for_side(Side::Buy);
    side.on_report(&accepted("A", Side::Buy, 100 * SCALE, SCALE), 1_000);
    // One millisecond under the lifetime: even a big change is protected.
    let moved = Quote { price: price(101 * SCALE), quantity: SCALE };
    let actions = side.actions_for_target(SideInputs::new(&inst, 1_499, TICK, Some(moved)));
    assert!(actions.is_empty());
    // Exactly at the lifetime: the unchanged quote is not stale.
    let same = Quote { price: price(100 * SCALE), quantity: SCALE };
    let actions = side.actions_for_target(SideInputs::new(&inst, 1_500, TICK, Some(same)));
    assert!(actions.is_empty());
    // Exactly at the lifetime: a three-tick drift is stale.
    let actions = side.actions_for_target(SideInputs::new(&inst, 1_500, TICK, Some(moved)));
    assert_eq!(actions.len(), 2);
}

/// While an action is in flight, both planning paths wait for the venue.
#[test]
fn inflight_side_waits() {
    let inst = instrument();
    let mut side = OrderSideManager::for_side(Side::Buy);
    let desired = Quote { price: price(100 * SCALE), quantity: SCALE };
    let actions = side.actions_for_target(SideInputs::new(&inst, 1_000, TICK, Some(desired)));
    assert_eq!(actions.len(), 1);
    assert!(side.has_inflight_actions());
    // A second tick while placing emits nothing.
    let actions = side.actions_for_target(SideInputs::new(&inst, 2_000, TICK, Some(desired)));
    assert!(actions.is_empty());
}

/// The order manager concatenates bid actions before ask actions.
#[test]
fn manager_orders_bid_before_ask() {
    let inst = instrument();
    let mut manager = OrderManager::default();
    let target = QuoteTarget {
        bid: Some(Quote { price: price(99 * SCALE), quantity: SCALE }),
        ask: Some(Quote { price: price(101 * SCALE), quantity: SCALE }),
    };
    let actions = manager.actions_for_target(&inst, &target, 1_000);
    assert_eq!(actions.len(), 2);
    match (&actions[0], &actions[1]) {
        (OrderAction::Place(bid), OrderAction::Place(ask)) => {
            assert_eq!(bid.side, Side::Buy);
            assert_eq!(ask.side, Side::Sell);
        }
        other => panic!("expected two places, got {other:?}"),
    }
    assert!(manager.has_inflight_actions());
    assert!(!manager.has_live_orders());
}

/// A live order with no desired quote is cancelled.
#[test]
fn live_without_target_cancels() {
    let inst = instrument();
    let mut side = OrderSideManager::for_side(Side::Buy);
    side.on_report(&accepted("A", Side::Buy, 100 * SCALE, SCALE), 1_000);
    let actions = side.actions_for_target(SideInputs::new(&inst, 2_000, TICK, None));
    assert_eq!(actions.len(), 1);
    match &actions[0] {
        OrderAction::Cancel { order_id, .. } => assert_eq!(order_id, "A"),
        other => panic!("expected a cancel, got {other:?}"),
    }
    match &side.state {
        OrderSideState::Cancelling { order_id, .. } => assert_eq!(order_id, "A"),
        other => panic!("expected cancelling, got {other:?}"),
    }
}
