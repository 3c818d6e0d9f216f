use maker_engine::execution::order_action::{OrderAction, Side};
use maker_engine::market::market_state::MarketState;
use maker_engine::risk::checks::churn_throttle::ChurnThrottleCheck;
use maker_engine::risk::checks::exposure_limit::ExposureLimitCheck;
use maker_engine::risk::checks::inventory_available::InventoryAvailableCheck;
use maker_engine::risk::checks::kill_switch::KillSwitchCheck;
use maker_engine::risk::checks::market_freshness::MarketFreshnessCheck;
use maker_engine::risk::checks::market_sanity::MarketSanityCheck;
use maker_engine::risk::checks::min_edge::MinEdgeCheck;
use maker_engine::risk::context::RiskContext;
use maker_engine::risk::decision::{RiskDecision, RiskReason};
use maker_engine::risk::engine::RiskEngine;
use maker_engine::types::instrument::Instrument;
use maker_engine::types::inventory::Inventory;
use maker_engine::types::price::Price;
use maker_engine::types::quote::Quote;
use maker_engine::types::quote_target::QuoteTarget;
use maker_engine::types::trading_rules::TradingRules;
use maker_engine::units::SCALE;

const TICK: u64 = 10_000_000_000; // 0.01

fn rules() -> TradingRules {
    TradingRules {
        price_tick: TICK,
        quantity_step: 1_000_000_000,
        min_half_spread: 0,
        max_order_notional: 100 * SCALE,
        max_exposure_in_quote: 200 * SCALE,
        trading_hours: None,
    }
}

fn instrument() -> Instrument {
    Instrument::new("SOL".to_string(), "GBP".to_string(), rules())
}

fn market(bid: u64, ask: u64, last_event_ms: u64) -> MarketState {
    MarketState {
        best_bid: Some(Price::new(bid)),
        best_ask: Some(Price::new(ask)),
        last_trade_price: None,
        last_event_ms: Some(last_event_ms),
    }
}

fn bid_target(price_units: u64) -> QuoteTarget {
    QuoteTarget {
        bid: Some(Quote { price: Price::new(price_units), quantity: SCALE }),
        ask: None,
    }
}

fn engine() -> RiskEngine {
    RiskEngine::new(
        KillSwitchCheck::new(false),
        MarketFreshnessCheck::new(3_000),
        MarketSanityCheck::new(),
        ChurnThrottleCheck::new(800),
        MinEdgeCheck::new(0),
    )
}

/// A second price change within the churn interval is held and the
/// recorded state is unchanged; after the interval the change records.
#[test]
fn churn_throttle_sequence() {
    let inst = instrument();
    let mkt = market(100 * SCALE, 101 * SCALE, 0);
    let mut check = ChurnThrottleCheck::new(800);
    let t0 = bid_target(100 * SCALE);
    let ctx0 = RiskContext {
        instrument: &inst,
        market_state: &mkt,
        target: &t0,
        inventory: Inventory::new(0, 0),
        now_ms: 0,
    };
    assert!(check.evaluate(&ctx0).is_ok());
    assert_eq!(check.last_bid_price, Some(100 * SCALE));
    assert_eq!(check.last_bid_update_ms, Some(0));
    // 500 ms later the bid moved: throttled, state untouched.
    let t1 = bid_target(100_050_000_000_000);
    let ctx1 = RiskContext {
        instrument: &inst,
        market_state: &mkt,
        target: &t1,
        inventory: Inventory::new(0, 0),
        now_ms: 500,
    };
    let r = check.evaluate(&ctx1);
    assert_eq!(r, Err(vec![RiskReason::ChurnThrottleBid]));
    assert_eq!(check.last_bid_price, Some(100 * SCALE));
    assert_eq!(check.last_bid_update_ms, Some(0));
    // At 900 ms the same change records and passes.
    let ctx2 = RiskContext {
        instrument: &inst,
        market_state: &mkt,
        target: &t1,
        inventory: Inventory::new(0, 0),
        now_ms: 900,
    };
    assert!(check.evaluate(&ctx2).is_ok());
    assert_eq!(check.last_bid_price, Some(100_050_000_000_000));
    assert_eq!(check.last_bid_update_ms, Some(900));
}

/// A price that moved under half a tick does not count as a change.
#[test]
fn churn_ignores_sub_epsilon_moves() {
    let inst = instrument();
    let mkt = market(100 * SCALE, 101 * SCALE, 0);
    let mut check = ChurnThrottleCheck::new(800);
    let t0 = bid_target(100 * SCALE);
    let ctx0 = RiskContext {
        instrument: &inst,
        market_state: &mkt,
        target: &t0,
        inventory: Inventory::new(0, 0),
        now_ms: 0,
    };
    assert!(check.evaluate(&ctx0).is_ok());
    // Under tick / 2 = 0.005: not a change, no throttle, no record.
    let t1 = bid_target(100 * SCALE + TICK / 2 - 1);
    let ctx1 = RiskContext {
        instrument: &inst,
        market_state: &mkt,
        target: &t1,
        inventory: Inventory::new(0, 0),
        now_ms: 100,
    };
    assert!(check.evaluate(&ctx1).is_ok());
    assert_eq!(check.last_bid_update_ms, Some(0));
}

/// The kill switch rejects with a single cancel-all.
#[test]
fn kill_switch_rejects_with_cancel_all() {
    let inst = instrument();
    let mkt = market(100 * SCALE, 101 * SCALE, 0);
    let mut risk = RiskEngine::new(
        KillSwitchCheck::new(true),
        MarketFreshnessCheck::new(3_000),
        MarketSanityCheck::new(),
        ChurnThrottleCheck::new(800),
        MinEdgeCheck::new(0),
    );
    let target = bid_target(100 * SCALE);
    let ctx = RiskContext {
        instrument: &inst,
        market_state: &mkt,
        target: &target,
        inventory: Inventory::new(0, 0),
        now_ms: 0,
    };
    match risk.evaluate(&ctx, target.clone()) {
        RiskDecision::Rejected(rejection) => {
            assert!(rejection.reasons.contains(&RiskReason::KillSwitchEnabled));
            assert_eq!(rejection.required_actions, vec![OrderAction::CancelAll]);
        }
        other => panic!("expected a rejection, got {other:?}"),
    }
}

/// Stale market data forces a rejection whose actions contain the
/// cancel-all.
#[test]
fn stale_market_rejects_with_cancel_all() {
    let inst = instrument();
    let mkt = market(100 * SCALE, 101 * SCALE, 0);
    let mut risk = engine();
    let target = bid_target(100 * SCALE);
    let ctx = RiskContext {
        instrument: &inst,
        market_state: &mkt,
        target: &target,
        inventory: Inventory::new(0, 0),
        now_ms: 10_000, // last event 10 s ago, bound is 3 s
    };
    match risk.evaluate(&ctx, target.clone()) {
        RiskDecision::Rejected(rejection) => {
            assert!(rejection.reasons.contains(&RiskReason::MarketDataStale));
            assert!(rejection.required_actions.contains(&OrderAction::CancelAll));
        }
        other => panic!("expected a rejection, got {other:?}"),
    }
}

/// A crossed book forces a rejection with the cancel-all.
#[test]
fn crossed_book_rejects_with_cancel_all() {
    let inst = instrument();
    let mkt = market(101 * SCALE, 100 * SCALE, 0); // bid above ask
    let mut risk = engine();
    let target = bid_target(100 * SCALE);
    let ctx = RiskContext {
        instrument: &inst,
        market_state: &mkt,
        target: &target,
        inventory: Inventory::new(0, 0),
        now_ms: 0,
    };
    match risk.evaluate(&ctx, target.clone()) {
        RiskDecision::Rejected(rejection) => {
            assert!(rejection.reasons.contains(&RiskReason::CrossedOrInvalidBook));
            assert!(rejection.required_actions.contains(&OrderAction::CancelAll));
        }
        other => panic!("expected a rejection, got {other:?}"),
    }
}

/// A clean context is approved with the target unchanged.
#[test]
fn clean_context_is_approved() {
    let inst = instrument();
    let mkt = market(100 * SCALE, 101 * SCALE, 0);
    let mut risk = engine();
    let target = bid_target(100 * SCALE);
    let ctx = RiskContext {
        instrument: &inst,
        market_state: &mkt,
        target: &target,
        inventory: Inventory::new(0, 0),
        now_ms: 0,
    };
    match risk.evaluate(&ctx, target.clone()) {
        RiskDecision::Approved(approved) => assert_eq!(approved, target),
        other => panic!("expected approval, got {other:?}"),
    }
}

/// Soft reasons only hold: a churned side never rejects by itself.
#[test]
fn soft_reason_holds() {
    let inst = instrument();
    let mkt = market(100 * SCALE, 101 * SCALE, 0);
    let mut risk = engine();
    let t0 = bid_target(100 * SCALE);
    let ctx0 = RiskContext {
        instrument: &inst,
        market_state: &mkt,
        target: &t0,
        inventory: Inventory::new(0, 0),
        now_ms: 0,
    };
    assert!(matches!(risk.evaluate(&ctx0, t0.clone()), RiskDecision::Approved(_)));
    let t1 = bid_target(100_050_000_000_000);
    let ctx1 = RiskContext {
        instrument: &inst,
        market_state: &mkt,
        target: &t1,
        inventory: Inventory::new(0, 0),
        now_ms: 500,
    };
    match risk.evaluate(&ctx1, t1.clone()) {
        RiskDecision::Hold(hold) => {
            assert_eq!(hold.reasons, vec![RiskReason::ChurnThrottleBid]);
        }
        other => panic!("expected a hold, got {other:?}"),
    }
}

/// The edge check holds a spread under twice the half-spread floor.
#[test]
fn min_edge_holds_thin_spreads() {
    let inst = instrument();
    let mkt = market(100 * SCALE, 100 * SCALE + TICK, 0); // spread 0.01
    let check = MinEdgeCheck::new(TICK); // needs half-spread 0.01, so spread 0.02
    let target = bid_target(100 * SCALE);
    let ctx = RiskContext {
        instrument: &inst,
        market_state: &mkt,
        target: &target,
        inventory: Inventory::new(0, 0),
        now_ms: 0,
    };
    match check.evaluate(&ctx) {
        Err(reasons) => {
            assert_eq!(
                reasons,
                vec![RiskReason::InsufficientEdge {
                    half_spread: (TICK / 2) as i64,
                    required: TICK,
                }]
            );
        }
        Ok(()) => panic!("expected insufficient edge"),
    }
}

/// The exposure check fails a bid that would overshoot the cap.
#[test]
fn exposure_limit_blocks_overshooting_bid() {
    let inst = instrument();
    let mkt = market(100 * SCALE, 100 * SCALE + TICK, 0); // mid about 100
    let check = ExposureLimitCheck::new(200 * SCALE);
    // Long 1.5 base; buying 1 more makes 2.5 base, about 250 > 200.
    let target = bid_target(100 * SCALE);
    let ctx = RiskContext {
        instrument: &inst,
        market_state: &mkt,
        target: &target,
        inventory: Inventory::new(1_500_000_000_000, 0),
        now_ms: 0,
    };
    match check.evaluate(&ctx) {
        Err(reasons) => {
            assert_eq!(reasons.len(), 1);
            match &reasons[0] {
                RiskReason::ExposureLimit { side, exposure_quote, max_exposure_in_quote } => {
                    assert_eq!(*side, Side::Buy);
                    assert!(*exposure_quote > 200 * SCALE as i64);
                    assert_eq!(*max_exposure_in_quote, 200 * SCALE);
                }
                other => panic!("expected an exposure reason, got {other:?}"),
            }
        }
        Ok(()) => panic!("expected an exposure failure"),
    }
}

/// The funding check fails a bid the quote cash cannot cover, naming the
/// quote asset.
#[test]
fn inventory_available_blocks_unfunded_bid() {
    let inst = instrument();
    let mkt = market(100 * SCALE, 100 * SCALE + TICK, 0);
    let check = InventoryAvailableCheck::new();
    // Bid for 1 base at 100: needs 100 quote, holding 50.
    let target = bid_target(100 * SCALE);
    let ctx = RiskContext {
        instrument: &inst,
        market_state: &mkt,
        target: &target,
        inventory: Inventory::new(0, 50 * SCALE as i64),
        now_ms: 0,
    };
    match check.evaluate(&ctx) {
        Err(reasons) => {
            assert_eq!(reasons.len(), 1);
            match &reasons[0] {
                RiskReason::InsufficientInventory { asset, required, available } => {
                    assert_eq!(asset, "GBP");
                    assert_eq!(*required, 100 * SCALE);
                    assert_eq!(*available, 50 * SCALE as i64);
                }
                other => panic!("expected an inventory reason, got {other:?}"),
            }
        }
        Ok(()) => panic!("expected an inventory failure"),
    }
}

/// The funding check fails an ask beyond the base position, naming the
/// base asset.
#[test]
fn inventory_available_blocks_unfunded_ask() {
    let inst = instrument();
    let mkt = market(100 * SCALE, 100 * SCALE + TICK, 0);
    let check = InventoryAvailableCheck::new();
    let target = QuoteTarget {
        bid: None,
        ask: Some(Quote { price: Price::new(100 * SCALE), quantity: SCALE }),
    };
    let ctx = RiskContext {
        instrument: &inst,
        market_state: &mkt,
        target: &target,
        inventory: Inventory::new(0, 0),
        now_ms: 0,
    };
    match check.evaluate(&ctx) {
        Err(reasons) => match &reasons[0] {
            RiskReason::InsufficientInventory { asset, required, available } => {
                assert_eq!(asset, "SOL");
                assert_eq!(*required, SCALE);
                assert_eq!(*available, 0);
            }
            other => panic!("expected an inventory reason, got {other:?}"),
        },
        Ok(()) => panic!("expected an inventory failure"),
    }
}

/// The sanity check needs both sides, positive and uncrossed.
#[test]
fn sanity_check_boundaries() {
    let inst = instrument();
    let check = MarketSanityCheck::new();
    let target = bid_target(100 * SCALE);
    let inv = Inventory::new(0, 0);
    let good = market(100 * SCALE, 101 * SCALE, 0);
    let ctx = RiskContext {
        instrument: &inst,
        market_state: &good,
        target: &target,
        inventory: inv,
        now_ms: 0,
    };
    assert!(check.evaluate(&ctx).is_ok());
    let equal = market(100 * SCALE, 100 * SCALE, 0);
    let ctx = RiskContext {
        instrument: &inst,
        market_state: &equal,
        target: &target,
        inventory: inv,
        now_ms: 0,
    };
    assert_eq!(check.evaluate(&ctx), Err(vec![RiskReason::CrossedOrInvalidBook]));
    let missing = MarketState::new();
    let ctx = RiskContext {
        instrument: &inst,
        market_state: &missing,
        target: &target,
        inventory: inv,
        now_ms: 0,
    };
    assert_eq!(check.evaluate(&ctx), Err(vec![RiskReason::CrossedOrInvalidBook]));
}
