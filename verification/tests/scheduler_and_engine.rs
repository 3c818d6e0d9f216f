use maker_engine::engine::{Engine, TickOutcome};
use maker_engine::events::MarketEvent;
use maker_engine::execution::dry_run::dry_run_reports;
use maker_engine::execution::order_action::{OrderAction, Side};
use maker_engine::execution::order_manager::OrderManager;
use maker_engine::execution::order_report::OrderReport;
use maker_engine::kraken::{
    execution_report, instrument_to_kraken_pair, kraken_balance_codes, pick_balance,
    BalanceRecord, WalletRecord,
};
use maker_engine::market::market_state::MarketState;
use maker_engine::risk::checks::churn_throttle::ChurnThrottleCheck;
use maker_engine::risk::checks::kill_switch::KillSwitchCheck;
use maker_engine::risk::checks::market_freshness::MarketFreshnessCheck;
use maker_engine::risk::checks::market_sanity::MarketSanityCheck;
use maker_engine::risk::checks::min_edge::MinEdgeCheck;
use maker_engine::risk::engine::RiskEngine;
use maker_engine::scenario::{Scenario, StrategyKind};
use maker_engine::scheduling::policies::in_flight_policy::InFlightPolicy;
use maker_engine::scheduling::policies::min_interval_policy::MinIntervalPolicy;
use maker_engine::scheduling::policies::top_of_book_tick_move_policy::TopOfBookTickMovePolicy;
use maker_engine::scheduling::policies::trading_hours_policy::TradingHoursPolicy;
use maker_engine::scheduling::quote_scheduler::QuoteScheduler;
use maker_engine::scheduling::schedule_context::ScheduleContext;
use maker_engine::scheduling::types::{ScheduleDecision, SkipReason};
use maker_engine::types::instrument::Instrument;
use maker_engine::types::inventory::Inventory;
use maker_engine::types::price::Price;
use maker_engine::types::quote::Quote;
use maker_engine::types::trading_hours::TradingHours;
use maker_engine::types::trading_rules::TradingRules;
use maker_engine::units::SCALE;

const TICK: u64 = 10_000_000_000; // 0.01

fn rules() -> TradingRules {
    TradingRules {
        price_tick: TICK,
        quantity_step: 1_000_000_000,
        min_half_spread: 0,
        max_order_notional: 100 * SCALE,
        max_exposure_in_quote: 200 * SCALE,
        trading_hours: Some(TradingHours { start_hour: 0, end_hour: 24, weekend_pause: false }),
    }
}

fn instrument() -> Instrument {
    Instrument::new("SOL".to_string(), "GBP".to_string(), rules())
}

fn scheduler() -> QuoteScheduler {
    QuoteScheduler::new(
        InFlightPolicy,
        TopOfBookTickMovePolicy::new(1),
        TradingHoursPolicy::new(TradingHours { start_hour: 0, end_hour: 24, weekend_pause: false }),
        MinIntervalPolicy::new(200),
    )
}

fn risk_engine(kill: bool) -> RiskEngine {
    RiskEngine::new(
        KillSwitchCheck::new(kill),
        MarketFreshnessCheck::new(3_000),
        MarketSanityCheck::new(),
        ChurnThrottleCheck::new(800),
        MinEdgeCheck::new(0),
    )
}

fn top_of_book(bid: u64, ask: u64, ts: u64) -> MarketEvent {
    MarketEvent::TopOfBook {
        instrument: instrument(),
        best_bid: Price::new(bid),
        best_ask: Price::new(ask),
        timestamp_ms: ts,
    }
}

fn market(bid: u64, ask: u64, last_event_ms: u64) -> MarketState {
    MarketState {
        best_bid: Some(Price::new(bid)),
        best_ask: Some(Price::new(ask)),
        last_trade_price: None,
        last_event_ms: Some(last_event_ms),
    }
}

/// An in-flight action short-circuits the whole pipeline.
#[test]
fn scheduler_skips_while_inflight() {
    let inst = instrument();
    let mkt = market(100 * SCALE, 101 * SCALE, 0);
    let mut manager = OrderManager::default();
    // Put the bid side in flight.
    let target = maker_engine::types::quote_target::QuoteTarget {
        bid: Some(Quote { price: Price::new(100 * SCALE), quantity: SCALE }),
        ask: None,
    };
    let _ = manager.actions_for_target(&inst, &target, 0);
    assert!(manager.has_inflight_actions());
    let mut sched = scheduler();
    let ctx = ScheduleContext {
        now_ms: 1_000,
        instrument: &inst,
        market_state: &mkt,
        order_manager: &manager,
    };
    assert_eq!(sched.decide(&ctx), ScheduleDecision::Skip(SkipReason::InFlight));
}

/// An empty book is skipped with its own reason.
#[test]
fn scheduler_skips_without_book() {
    let inst = instrument();
    let mkt = MarketState::new();
    let manager = OrderManager::default();
    let mut sched = scheduler();
    let ctx = ScheduleContext {
        now_ms: 1_000,
        instrument: &inst,
        market_state: &mkt,
        order_manager: &manager,
    };
    assert_eq!(sched.decide(&ctx), ScheduleDecision::Skip(SkipReason::NoBook));
}

/// An unmoved book is skipped until the staleness bound forces an
/// evaluation.
#[test]
fn tick_move_policy_skips_unmoved_book() {
    let inst = instrument();
    let mkt = market(100 * SCALE, 101 * SCALE, 0);
    let manager = OrderManager::default();
    let mut policy = TopOfBookTickMovePolicy::new(1);
    let ctx = ScheduleContext {
        now_ms: 0,
        instrument: &inst,
        market_state: &mkt,
        order_manager: &manager,
    };
    assert_eq!(policy.should_evaluate(&ctx), None); // first sight counts as moved
    let ctx = ScheduleContext {
        now_ms: 100,
        instrument: &inst,
        market_state: &mkt,
        order_manager: &manager,
    };
    assert_eq!(
        policy.should_evaluate(&ctx),
        Some(SkipReason::NoMeaningfulChange { best_bid: 100 * SCALE, best_ask: 101 * SCALE })
    );
    // Past the staleness bound the tick is evaluated anyway.
    let ctx = ScheduleContext {
        now_ms: 1_200,
        instrument: &inst,
        market_state: &mkt,
        order_manager: &manager,
    };
    assert_eq!(policy.should_evaluate(&ctx), None);
}

/// The placement rate limit reacts to observed placements, not ticks.
#[test]
fn min_interval_policy_follows_placed_reports() {
    let inst = instrument();
    let mkt = market(100 * SCALE, 101 * SCALE, 0);
    let manager = OrderManager::default();
    let mut policy = MinIntervalPolicy::new(200);
    let ctx = ScheduleContext {
        now_ms: 100,
        instrument: &inst,
        market_state: &mkt,
        order_manager: &manager,
    };
    // No placement observed yet: the first tick is unthrottled.
    assert_eq!(policy.should_evaluate(&ctx), None);
    policy.on_report(
        &OrderReport::Placed {
            order_id: "A".to_string(),
            instrument: instrument(),
            side: Side::Buy,
            price: Price::new(100 * SCALE),
            quantity: SCALE,
        },
        100,
    );
    let ctx = ScheduleContext {
        now_ms: 250,
        instrument: &inst,
        market_state: &mkt,
        order_manager: &manager,
    };
    assert_eq!(
        policy.should_evaluate(&ctx),
        Some(SkipReason::TooSoon { duration_since_last_ms: 150 })
    );
    let ctx = ScheduleContext {
        now_ms: 300,
        instrument: &inst,
        market_state: &mkt,
        order_manager: &manager,
    };
    assert_eq!(policy.should_evaluate(&ctx), None);
}

/// A window wrapping past midnight (22 to 4) is active for hours
/// 22, 23, 0, 1, 2, 3 and inactive for the rest.
#[test]
fn trading_hours_wrap_past_midnight() {
    let policy = TradingHoursPolicy::new(TradingHours {
        start_hour: 22,
        end_hour: 4,
        weekend_pause: false,
    });
    for hour in [22u32, 23, 0, 1, 2, 3] {
        assert!(policy.is_within_hours(hour), "hour {hour} should be active");
    }
    for hour in [4u32, 5, 12, 21] {
        assert!(!policy.is_within_hours(hour), "hour {hour} should be inactive");
    }
}

/// The weekend pause wins over the hour window.
#[test]
fn weekend_pause_skips_saturday_and_sunday() {
    let policy = TradingHoursPolicy::new(TradingHours {
        start_hour: 0,
        end_hour: 24,
        weekend_pause: true,
    });
    assert_eq!(policy.skip_for_clock(12, 5), Some(SkipReason::WeekendPause));
    assert_eq!(policy.skip_for_clock(12, 6), Some(SkipReason::WeekendPause));
    assert_eq!(policy.skip_for_clock(12, 4), None);
    let open = TradingHoursPolicy::new(TradingHours {
        start_hour: 8,
        end_hour: 20,
        weekend_pause: false,
    });
    assert_eq!(
        open.skip_for_clock(21, 2),
        Some(SkipReason::OutOfTradingHours { start_hour: 8, end_hour: 20 })
    );
}

/// A full-window policy never skips, whatever the wall clock says.
#[test]
fn full_window_policy_never_skips() {
    let inst = instrument();
    let mkt = market(100 * SCALE, 101 * SCALE, 0);
    let manager = OrderManager::default();
    let policy = TradingHoursPolicy::new(TradingHours {
        start_hour: 0,
        end_hour: 24,
        weekend_pause: false,
    });
    let ctx = ScheduleContext {
        now_ms: 0,
        instrument: &inst,
        market_state: &mkt,
        order_manager: &manager,
    };
    assert_eq!(policy.should_evaluate(&ctx), None);
}

/// The whole pipeline: a stretched mid fires a post-only place whose
/// client id comes from the id generator.
#[test]
fn engine_places_on_stretched_mid() {
    let inst = instrument();
    let mut engine = Engine::new(
        instrument(),
        Scenario::signals(StrategyKind::MeanReversion),
        scheduler(),
        risk_engine(false),
        Scenario::strategy(StrategyKind::MeanReversion, &inst),
    );
    let inv = Inventory::new(0, 0);
    // First event anchors the EMA at 99.96.
    let r = engine.on_market_event(&top_of_book(99_950_000_000_000, 99_970_000_000_000, 1), inv, 1_000);
    assert!(matches!(r, TickOutcome::NoQuote(_)), "got {r:?}");
    // Second event within the signal throttle: mid 100.01 vs EMA 99.96.
    let r = engine.on_market_event(
        &top_of_book(100_000_000_000_000, 100_020_000_000_000, 2),
        inv,
        1_200,
    );
    match r {
        TickOutcome::Actions(actions) => {
            assert_eq!(actions.len(), 1);
            match &actions[0] {
                OrderAction::Place(order) => {
                    assert_eq!(order.side, Side::Sell);
                    assert_eq!(order.price.units(), 100_010_000_000_000);
                    assert_eq!(order.order_id.len(), 36);
                }
                other => panic!("expected a place, got {other:?}"),
            }
        }
        other => panic!("expected actions, got {other:?}"),
    }
    assert!(engine.order_manager.has_inflight_actions());
    // The next tick is skipped while the place is in flight.
    let r = engine.on_market_event(
        &top_of_book(100_050_000_000_000, 100_070_000_000_000, 3),
        inv,
        1_500,
    );
    assert_eq!(r, TickOutcome::Skipped(SkipReason::InFlight));
}

/// The whole pipeline under the kill switch: rejected with one
/// cancel-all.
#[test]
fn engine_rejects_under_kill_switch() {
    let inst = instrument();
    let mut engine = Engine::new(
        instrument(),
        Scenario::signals(StrategyKind::MeanReversion),
        scheduler(),
        risk_engine(true),
        Scenario::strategy(StrategyKind::MeanReversion, &inst),
    );
    let inv = Inventory::new(0, 0);
    let _ = engine.on_market_event(&top_of_book(99_950_000_000_000, 99_970_000_000_000, 1), inv, 1_000);
    let r = engine.on_market_event(
        &top_of_book(100_000_000_000_000, 100_020_000_000_000, 2),
        inv,
        1_200,
    );
    match r {
        TickOutcome::Rejected(rejection) => {
            assert_eq!(rejection.required_actions, vec![OrderAction::CancelAll]);
        }
        other => panic!("expected a rejection, got {other:?}"),
    }
    assert!(!engine.order_manager.has_inflight_actions());
}

/// Execution reports flow back into the engine's order state.
#[test]
fn engine_reports_reconcile_state() {
    let inst = instrument();
    let mut engine = Engine::new(
        instrument(),
        Scenario::signals(StrategyKind::MeanReversion),
        scheduler(),
        risk_engine(false),
        Scenario::strategy(StrategyKind::MeanReversion, &inst),
    );
    engine.on_report(
        &OrderReport::Accepted {
            order_id: "A".to_string(),
            instrument: instrument(),
            side: Side::Sell,
            price: Price::new(100 * SCALE),
            quantity: SCALE,
        },
        1_000,
    );
    assert!(engine.order_manager.has_live_orders());
    engine.on_report(
        &OrderReport::Filled {
            order_id: "A".to_string(),
            instrument: instrument(),
            side: Side::Sell,
            price: Price::new(100 * SCALE),
            quantity: SCALE,
            cum_quantity: SCALE,
        },
        2_000,
    );
    assert!(!engine.order_manager.has_live_orders());
}

/// The dry run acknowledges and completes a cancel, and accepts or
/// rejects a place as told.
#[test]
fn dry_run_reports_mirror_actions() {
    let inst = instrument();
    let cancel = OrderAction::Cancel {
        order_id: "A".to_string(),
        instrument: inst.duplicate(),
        side: Side::Buy,
    };
    let reports = dry_run_reports(&cancel, false);
    assert_eq!(reports.len(), 2);
    assert!(matches!(reports[0], OrderReport::Cancel { .. }));
    assert!(matches!(reports[1], OrderReport::Cancelled { .. }));
    let place = OrderAction::Place(maker_engine::execution::order_action::Order {
        order_id: "B".to_string(),
        instrument: inst.duplicate(),
        side: Side::Sell,
        price: Price::new(100 * SCALE),
        quantity: SCALE,
        order_type: maker_engine::execution::order_action::OrderType::PostOnlyLimit,
    });
    let accepted = dry_run_reports(&place, false);
    assert!(matches!(accepted[1], OrderReport::Accepted { .. }));
    let rejected = dry_run_reports(&place, true);
    assert!(matches!(rejected[1], OrderReport::Rejected { .. }));
    assert_eq!(dry_run_reports(&OrderAction::CancelAll, false).len(), 0);
}

/// Balance codes and balance selection against the venue's records.
#[test]
fn kraken_balances_resolve() {
    assert_eq!(kraken_balance_codes("BTC"), vec!["XBT", "XXBT", "BTC"]);
    assert_eq!(kraken_balance_codes("GBP"), vec!["GBP", "ZGBP"]);
    assert_eq!(kraken_balance_codes("SOL"), vec!["SOL"]);
    let entries = vec![
        BalanceRecord {
            asset: "ZGBP".to_string(),
            balance: 5 * SCALE as i64,
            wallets: vec![WalletRecord {
                wallet_type: "spot".to_string(),
                wallet_id: "main".to_string(),
                balance: 7 * SCALE as i64,
            }],
        },
        BalanceRecord { asset: "SOL".to_string(), balance: 3 * SCALE as i64, wallets: vec![] },
    ];
    // The spot main wallet wins over the top-level balance.
    let gbp = pick_balance(&entries, &kraken_balance_codes("GBP"));
    assert_eq!(gbp, Some(7 * SCALE as i64));
    let sol = pick_balance(&entries, &kraken_balance_codes("SOL"));
    assert_eq!(sol, Some(3 * SCALE as i64));
    assert_eq!(pick_balance(&entries, &kraken_balance_codes("EUR")), None);
}

/// The venue pair name writes BTC as XBT.
#[test]
fn kraken_pair_renames_btc() {
    let btc = Instrument::new("BTC".to_string(), "GBP".to_string(), rules());
    assert_eq!(instrument_to_kraken_pair(&btc), "XBTGBP");
    let sol = instrument();
    assert_eq!(instrument_to_kraken_pair(&sol), "SOLGBP");
}

/// A change to a just-accepted quote is held by the churn throttle: no
/// venue actions, only soft reasons.
#[test]
fn engine_holds_churned_requote() {
    let inst = instrument();
    let mut engine = Engine::new(
        instrument(),
        Scenario::signals(StrategyKind::MeanReversion),
        scheduler(),
        risk_engine(false),
        Scenario::strategy(StrategyKind::MeanReversion, &inst),
    );
    let inv = Inventory::new(0, 0);
    let _ = engine.on_market_event(&top_of_book(99_950_000_000_000, 99_970_000_000_000, 1), inv, 1_000);
    let r = engine.on_market_event(
        &top_of_book(100_000_000_000_000, 100_020_000_000_000, 2),
        inv,
        1_200,
    );
    let order_id = match r {
        TickOutcome::Actions(actions) => match &actions[0] {
            OrderAction::Place(order) => order.order_id.clone(),
            other => panic!("expected a place, got {other:?}"),
        },
        other => panic!("expected actions, got {other:?}"),
    };
    // The venue accepts: the ask side goes live.
    engine.on_report(
        &OrderReport::Accepted {
            order_id,
            instrument: instrument(),
            side: Side::Sell,
            price: Price::new(100_010_000_000_000),
            quantity: SCALE,
        },
        1_300,
    );
    assert!(engine.order_manager.has_live_orders());
    // The book jumps within the churn interval: the new ask price is
    // throttled and nothing reaches the venue.
    let r = engine.on_market_event(
        &top_of_book(100_050_000_000_000, 100_070_000_000_000, 3),
        inv,
        1_450,
    );
    match r {
        TickOutcome::Held(hold) => {
            assert!(!hold.reasons.is_empty());
        }
        other => panic!("expected a hold, got {other:?}"),
    }
}

/// The venue's execution types map onto engine reports; unknown types
/// carry no news.
#[test]
fn execution_report_classification() {
    let inst = instrument();
    let r = execution_report("new", "A".to_string(), inst.duplicate(), Side::Buy, Price::new(100 * SCALE), SCALE, 0);
    assert!(matches!(r, Some(OrderReport::Accepted { .. })));
    let r = execution_report(
        "trade",
        "A".to_string(),
        inst.duplicate(),
        Side::Buy,
        Price::new(100 * SCALE),
        SCALE,
        0,
    );
    match r {
        Some(OrderReport::PartiallyFilled { cum_quantity, .. }) => {
            // The cumulative fill is never under the last fill.
            assert_eq!(cum_quantity, SCALE);
        }
        other => panic!("expected a partial fill, got {other:?}"),
    }
    let r = execution_report("canceled", "A".to_string(), inst.duplicate(), Side::Sell, Price::new(0), 0, 0);
    assert!(matches!(r, Some(OrderReport::Cancelled { .. })));
    let r = execution_report("expired", "A".to_string(), inst.duplicate(), Side::Sell, Price::new(0), 0, 0);
    assert!(matches!(r, Some(OrderReport::Rejected { .. })));
    let r = execution_report("status", "A".to_string(), inst.duplicate(), Side::Sell, Price::new(0), 0, 0);
    assert!(r.is_none());
}
