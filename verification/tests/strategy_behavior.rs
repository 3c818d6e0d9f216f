use maker_engine::market::market_state::MarketState;
use maker_engine::signals::signal_state::SignalState;
use maker_engine::strategy::strategies::mean_reversion::MakerOnlyMeanReversionStrategy;
use maker_engine::strategy::strategies::regime_switch::RegimeSwitchStrategy;
use maker_engine::strategy::strategies::simple_mm::SimpleMarketMakerStrategy;
use maker_engine::strategy::strategies::trend_following::MakerOnlyTrendFollowingStrategy;
use maker_engine::types::instrument::Instrument;
use maker_engine::types::inventory::Inventory;
use maker_engine::types::price::Price;
use maker_engine::types::quote_target::NoQuoteReason;
use maker_engine::types::trading_rules::TradingRules;
use maker_engine::units::SCALE;

const TICK: u64 = 10_000_000_000; // 0.01

fn rules() -> TradingRules {
    TradingRules {
        price_tick: TICK,
        quantity_step: 1_000_000_000, // 0.001
        min_half_spread: 0,
        max_order_notional: 100 * SCALE,
        max_exposure_in_quote: 200 * SCALE,
        trading_hours: None,
    }
}

fn instrument() -> Instrument {
    Instrument::new("SOL".to_string(), "GBP".to_string(), rules())
}

fn market(bid: u64, ask: u64) -> MarketState {
    MarketState {
        best_bid: Some(Price::new(bid)),
        best_ask: Some(Price::new(ask)),
        last_trade_price: None,
        last_event_ms: Some(1_000),
    }
}

fn signals_with_ema(ema: u64) -> SignalState {
    let mut s = SignalState::new(60_000, 300_000, 60_000);
    s.last_ema_value = Some(ema);
    s.last_ema_slow_value = Some(ema);
    s
}

/// A deviation of one tick is under the three-tick entry threshold.
#[test]
fn mean_reversion_below_entry_threshold() {
    let inst = instrument();
    let strategy = MakerOnlyMeanReversionStrategy::for_instrument(&inst);
    let market = market(100_000_000_000_000, 100_020_000_000_000); // 100.00 / 100.02
    let signals = signals_with_ema(100_000_000_000_000); // 100.00; mid = 100.01
    let r = strategy.compute_target(&market, &signals, Inventory::new(0, 0));
    match r {
        Err(NoQuoteReason::BelowEntryThreshold { deviation, threshold }) => {
            assert_eq!(deviation, 10_000_000_000); // 0.01
            assert_eq!(threshold, 30_000_000_000); // 0.03
        }
        other => panic!("expected below entry threshold, got {other:?}"),
    }
}

/// A five-tick deviation fires the ask side, improving the touch by
/// one tick.
#[test]
fn mean_reversion_fires_improved_ask() {
    let inst = instrument();
    let strategy = MakerOnlyMeanReversionStrategy::for_instrument(&inst);
    let market = market(100_000_000_000_000, 100_020_000_000_000); // 100.00 / 100.02
    let ema: u64 = 99_960_000_000_000; // 99.96; mid 100.01, dev +0.05
    let signals = signals_with_ema(ema);
    let r = strategy.compute_target(&market, &signals, Inventory::new(0, 0));
    let target = r.expect("expected a quote");
    assert!(target.bid.is_none());
    let ask = target.ask.expect("expected an ask");
    assert_eq!(ask.price.units(), 100_010_000_000_000); // 100.02 - 0.01
    assert_eq!(ask.quantity, rules().quantity_from_notional(100 * SCALE, ema));
    // Post-only safety: the ask rests at or above bid + tick.
    assert!(ask.price.units() >= 100_000_000_000_000 + TICK);
}

/// A downward stretch fires the bid side symmetrically.
#[test]
fn mean_reversion_fires_improved_bid() {
    let inst = instrument();
    let strategy = MakerOnlyMeanReversionStrategy::for_instrument(&inst);
    let market = market(100_000_000_000_000, 100_020_000_000_000);
    let signals = signals_with_ema(100_060_000_000_000); // mid 100.01, dev -0.05
    let r = strategy.compute_target(&market, &signals, Inventory::new(0, 0));
    let target = r.expect("expected a quote");
    assert!(target.ask.is_none());
    let bid = target.bid.expect("expected a bid");
    assert_eq!(bid.price.units(), 100_010_000_000_000); // 100.00 + 0.01
    assert!(bid.price.units() <= 100_020_000_000_000 - TICK);
}

/// An empty top of book yields the missing-top-of-book reason for
/// every strategy.
#[test]
fn strategies_report_missing_top_of_book() {
    let inst = instrument();
    let empty = MarketState::new();
    let signals = signals_with_ema(100 * SCALE);
    let inv = Inventory::new(0, 0);
    let mr = MakerOnlyMeanReversionStrategy::for_instrument(&inst);
    assert_eq!(mr.compute_target(&empty, &signals, inv), Err(NoQuoteReason::MissingTopOfBook));
    let mm = SimpleMarketMakerStrategy::for_instrument(&inst);
    assert_eq!(mm.compute_target(&empty, &signals, inv), Err(NoQuoteReason::MissingTopOfBook));
    let tf = MakerOnlyTrendFollowingStrategy::for_instrument(&inst);
    assert_eq!(tf.compute_target(&empty, &signals, inv), Err(NoQuoteReason::MissingTopOfBook));
    let mut rs = RegimeSwitchStrategy::for_instrument(&inst);
    assert_eq!(rs.compute_target(&empty, &signals, inv), Err(NoQuoteReason::MissingMid));
}

/// A missing EMA is its own reason once the book is present.
#[test]
fn mean_reversion_reports_missing_ema() {
    let inst = instrument();
    let strategy = MakerOnlyMeanReversionStrategy::for_instrument(&inst);
    let market = market(100_000_000_000_000, 100_020_000_000_000);
    let signals = SignalState::new(60_000, 300_000, 60_000);
    let r = strategy.compute_target(&market, &signals, Inventory::new(0, 0));
    assert_eq!(r, Err(NoQuoteReason::MissingEma));
}

/// Exposure gates: a short position blocks further asks, a long one
/// further bids.
#[test]
fn mean_reversion_exposure_gates() {
    let inst = instrument();
    let strategy = MakerOnlyMeanReversionStrategy::for_instrument(&inst);
    let market = market(100_000_000_000_000, 100_020_000_000_000);
    let signals = signals_with_ema(99_960_000_000_000); // dev > 0: ask side
    // Short 3 base at about 100 quote each: exposure about -300 < -200.
    let short = Inventory::new(-(3 * SCALE as i64), 0);
    match strategy.compute_target(&market, &signals, short) {
        Err(NoQuoteReason::TooShortExposure { exposure_quote, max_exposure_quote }) => {
            assert!(exposure_quote < -(200 * SCALE as i64));
            assert_eq!(max_exposure_quote, 200 * SCALE);
        }
        other => panic!("expected too-short exposure, got {other:?}"),
    }
    let signals = signals_with_ema(100_060_000_000_000); // dev < 0: bid side
    let long = Inventory::new(3 * SCALE as i64, 0);
    match strategy.compute_target(&market, &signals, long) {
        Err(NoQuoteReason::TooLongExposure { exposure_quote, max_exposure_quote }) => {
            assert!(exposure_quote > 200 * SCALE as i64);
            assert_eq!(max_exposure_quote, 200 * SCALE);
        }
        other => panic!("expected too-long exposure, got {other:?}"),
    }
}

/// A notional cap under one quantity step buys nothing.
#[test]
fn mean_reversion_invalid_quantity() {
    let mut r = rules();
    r.quantity_step = 2 * SCALE; // step of 2 base
    r.max_order_notional = SCALE; // 1 quote buys well under 2 base at 100
    let inst = Instrument::new("SOL".to_string(), "GBP".to_string(), r);
    let strategy = MakerOnlyMeanReversionStrategy::for_instrument(&inst);
    let market = market(100_000_000_000_000, 100_020_000_000_000);
    let signals = signals_with_ema(99_960_000_000_000);
    let r = strategy.compute_target(&market, &signals, Inventory::new(0, 0));
    assert_eq!(r, Err(NoQuoteReason::InvalidQuantity));
}

/// A one-tick spread cannot host a post-only ask one tick above the bid
/// when the threshold is met from a stretched book.
#[test]
fn mean_reversion_would_cross_post_only() {
    let mut r = rules();
    r.price_tick = 20_000_000_000; // 0.02 tick; the bid sits off the grid
    let inst = Instrument::new("SOL".to_string(), "GBP".to_string(), r);
    let strategy = MakerOnlyMeanReversionStrategy::for_instrument(&inst);
    let market = market(100_010_000_000_000, 100_020_000_000_000);
    let signals = signals_with_ema(99_000_000_000_000);
    // The clamped ask of 100.03 rounds down to 100.02, under bid + tick.
    let r = strategy.compute_target(&market, &signals, Inventory::new(0, 0));
    assert_eq!(r, Err(NoQuoteReason::WouldCrossPostOnly));
}

/// The simple market maker quotes both sides at the touch with a flat
/// position.
#[test]
fn simple_mm_quotes_both_sides() {
    let mut r = rules();
    r.min_half_spread = TICK; // keep the fair-price floors at the touch
    let inst = Instrument::new("SOL".to_string(), "GBP".to_string(), r);
    let strategy = SimpleMarketMakerStrategy::for_instrument(&inst);
    let market = market(100_000_000_000_000, 100_020_000_000_000);
    let signals = signals_with_ema(100_010_000_000_000); // fair == mid
    let r = strategy.compute_target(&market, &signals, Inventory::new(0, 0));
    let target = r.expect("expected a two-sided quote");
    let bid = target.bid.expect("expected a bid");
    let ask = target.ask.expect("expected an ask");
    assert_eq!(bid.price.units(), 100_000_000_000_000);
    assert_eq!(ask.price.units(), 100_020_000_000_000);
    assert!(bid.price.units() <= 100_020_000_000_000 - TICK);
    assert!(ask.price.units() >= 100_000_000_000_000 + TICK);
    assert_eq!(bid.quantity, ask.quantity);
    assert!(bid.quantity > 0);
}

/// A position past the cap suppresses the matching side.
#[test]
fn simple_mm_suppresses_long_side() {
    let inst = instrument();
    let strategy = SimpleMarketMakerStrategy::for_instrument(&inst);
    let market = market(100_000_000_000_000, 100_020_000_000_000);
    let signals = signals_with_ema(100_010_000_000_000);
    // Long 3 base at about 100 each: exposure about 300 > 200.
    let r = strategy.compute_target(&market, &signals, Inventory::new(3 * SCALE as i64, 0));
    let target = r.expect("expected a one-sided quote");
    assert!(target.bid.is_none());
    assert!(target.ask.is_some());
}

/// Trend following waits for a pullback in an uptrend.
#[test]
fn trend_following_requires_pullback() {
    let inst = instrument();
    let strategy = MakerOnlyTrendFollowingStrategy::for_instrument(&inst);
    let market = market(100_000_000_000_000, 100_020_000_000_000); // mid 100.01
    let mut signals = SignalState::new(60_000, 300_000, 60_000);
    // Strong uptrend: mid well above the slow EMA, fast EMA well below
    // the mid so the pullback test fails.
    signals.last_ema_value = Some(99_940_000_000_000);
    signals.last_ema_slow_value = Some(99_900_000_000_000);
    let r = strategy.compute_target(&market, &signals, Inventory::new(0, 0));
    assert_eq!(r, Err(NoQuoteReason::PullbackNotMet));
}

/// Trend following buys the pullback in an uptrend.
#[test]
fn trend_following_buys_pullback() {
    let inst = instrument();
    let strategy = MakerOnlyTrendFollowingStrategy::for_instrument(&inst);
    let market = market(100_000_000_000_000, 100_020_000_000_000); // mid 100.01
    let mut signals = SignalState::new(60_000, 300_000, 60_000);
    // Uptrend with the mid back at the fast EMA.
    signals.last_ema_value = Some(100_010_000_000_000);
    signals.last_ema_slow_value = Some(99_900_000_000_000);
    let r = strategy.compute_target(&market, &signals, Inventory::new(0, 0));
    let target = r.expect("expected a bid");
    assert!(target.ask.is_none());
    let bid = target.bid.expect("expected a bid");
    assert_eq!(bid.price.units(), 100_010_000_000_000);
}

/// Trend following refuses a flat fast/slow separation.
#[test]
fn trend_following_slope_threshold() {
    let inst = instrument();
    let strategy = MakerOnlyTrendFollowingStrategy::for_instrument(&inst);
    let market = market(100_000_000_000_000, 100_020_000_000_000);
    let mut signals = SignalState::new(60_000, 300_000, 60_000);
    // Trend is strong but the EMAs sit on top of each other.
    signals.last_ema_value = Some(99_900_000_000_000);
    signals.last_ema_slow_value = Some(99_900_000_000_000);
    let r = strategy.compute_target(&market, &signals, Inventory::new(0, 0));
    match r {
        Err(NoQuoteReason::BelowTrendSlopeThreshold { slope, threshold }) => {
            assert_eq!(slope, 0);
            assert_eq!(threshold, 2 * TICK);
        }
        other => panic!("expected slope threshold, got {other:?}"),
    }
}

/// The regime switcher starts in mean reversion and needs its dwell time
/// before entering trend following.
#[test]
fn regime_switch_dwell_time() {
    let inst = instrument();
    let mut strategy = RegimeSwitchStrategy::for_instrument(&inst);
    strategy.min_regime_ticks = 2;
    let market = market(100_000_000_000_000, 100_020_000_000_000);
    let mut signals = SignalState::new(60_000, 300_000, 60_000);
    // A strong trend with clear slope: wants trend following.
    signals.last_ema_value = Some(100_010_000_000_000);
    signals.last_ema_slow_value = Some(99_900_000_000_000);
    let _ = strategy.compute_target(&market, &signals, Inventory::new(0, 0));
    assert_eq!(strategy.ticks_in_regime, 1);
    let _ = strategy.compute_target(&market, &signals, Inventory::new(0, 0));
    // Second tick reaches the dwell time and switches.
    assert_eq!(strategy.ticks_in_regime, 0);
    let r = strategy.compute_target(&market, &signals, Inventory::new(0, 0));
    // Now in trend following: the pullback buy fires.
    let target = r.expect("expected a quote from trend following");
    assert!(target.bid.is_some());
}

/// On a best bid off the tick grid, the rounded ask would cross the
/// post-only floor; the strategy refuses instead of quoting through it.
#[test]
fn simple_mm_refuses_off_grid_cross() {
    let inst = instrument();
    let strategy = SimpleMarketMakerStrategy::for_instrument(&inst);
    // Bid 100.005 sits between ticks; the ask floor bid + tick = 100.015
    // is off the grid too, and rounding 100.015 down gives 100.01.
    let market = market(100_005_000_000_000, 100_020_000_000_000);
    let signals = signals_with_ema(100_012_500_000_000); // fair == mid
    let r = strategy.compute_target(&market, &signals, Inventory::new(0, 0));
    assert_eq!(r, Err(NoQuoteReason::WouldCrossPostOnly));
}

/// Post-only safety holds for the market maker on every emitted side.
#[test]
fn simple_mm_post_only_bounds() {
    let mut ru = rules();
    ru.min_half_spread = TICK;
    let inst = Instrument::new("SOL".to_string(), "GBP".to_string(), ru);
    let strategy = SimpleMarketMakerStrategy::for_instrument(&inst);
    let market = market(100_000_000_000_000, 100_020_000_000_000);
    let signals = signals_with_ema(100_010_000_000_000);
    let target = strategy.compute_target(&market, &signals, Inventory::new(0, 0)).unwrap();
    if let Some(bid) = target.bid {
        assert!(bid.price.units() <= 100_020_000_000_000 - TICK);
        assert_eq!(bid.price.units() % TICK, 0);
    }
    if let Some(ask) = target.ask {
        assert!(ask.price.units() >= 100_000_000_000_000 + TICK);
        assert_eq!(ask.price.units() % TICK, 0);
    }
}
