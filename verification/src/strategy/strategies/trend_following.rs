//! Maker-only trend following: quote one side in the direction of the
//! macro trend, preferring pullbacks.
//!
//! The slow EMA of the mid detects the trend; the fast EMA locates
//! pullbacks. A single post-only order is placed near the touch, on the
//! side that joins the trend.

use vstd::prelude::*;

use crate::market::market_state::MarketState;
use crate::signals::signal_state::SignalState;
use crate::strategy::instrument_context::{
    spec_one_sided_ask,
    spec_one_sided_bid,
    InstrumentContext,
};
use crate::strategy::strategies::mean_reversion::spec_sat_u64;
use crate::types::instrument::Instrument;
use crate::types::inventory::Inventory;
use crate::types::quote_target::{NoQuoteReason, QuoteTarget};
use crate::units::{MAX_UNITS, PPM};

verus! {

/// Maker-only trend following, quoting a single side.
#[derive(Debug, Clone, PartialEq)]
pub struct MakerOnlyTrendFollowingStrategy {
    pub ctx: InstrumentContext,
    /// Maximum absolute exposure in quote units.
    pub max_exposure_in_quote: u64,
    /// Improve the touch by one tick when the spread allows.
    pub improve_if_possible: bool,
    /// Minimum deviation from the slow EMA required to trade, in ticks.
    pub entry_threshold_ticks: u64,
    /// Extra entry threshold per unit of recent volatility, in parts per
    /// million.
    pub volatility_entry_multiplier_ppm: u64,
    /// Minimum fast/slow EMA separation required to trade, in ticks.
    pub slope_threshold_ticks: u64,
    /// Require the mid to sit on the pullback side of the fast EMA.
    pub require_pullback: bool,
    /// Band around the fast EMA still counted as a pullback, in ticks.
    pub pullback_tolerance_ticks: u64,
}

impl MakerOnlyTrendFollowingStrategy {
    pub open spec fn wf(self) -> bool {
        &&& self.ctx.wf()
        &&& self.entry_threshold_ticks <= 1_000_000
        &&& self.volatility_entry_multiplier_ppm <= 1_000_000_000
        &&& self.slope_threshold_ticks <= 1_000_000
        &&& self.pullback_tolerance_ticks <= 1_000_000
        &&& self.max_exposure_in_quote <= MAX_UNITS
    }

    pub fn for_instrument(instrument: &Instrument) -> (r: Self)
        requires
            instrument.wf(),
        ensures
            r.ctx.instrument == *instrument,
            r.max_exposure_in_quote == instrument.spec_trading_rules().max_exposure_in_quote,
            r.improve_if_possible,
            r.entry_threshold_ticks == 3,
            r.volatility_entry_multiplier_ppm == PPM,
            r.slope_threshold_ticks == 2,
            r.require_pullback,
            r.pullback_tolerance_ticks == 2,
            r.wf(),
    {
        let max_exposure_in_quote = instrument.trading_rules().max_exposure_in_quote;
        MakerOnlyTrendFollowingStrategy {
            ctx: InstrumentContext::new(instrument),
            max_exposure_in_quote,
            improve_if_possible: true,
            entry_threshold_ticks: 3,
            volatility_entry_multiplier_ppm: PPM,
            slope_threshold_ticks: 2,
            require_pullback: true,
            pullback_tolerance_ticks: 2,
        }
    }

    /// The whole decision, as a function of the market and the signals.
    /// The inventory plays no role here.
    pub open spec fn spec_compute_target(
        self,
        market: MarketState,
        signals: SignalState,
    ) -> Result<QuoteTarget, NoQuoteReason> {
        let tick = self.ctx.spec_rules().price_tick as int;
        if !market.has_book() {
            Err(NoQuoteReason::MissingTopOfBook)
        } else {
            let bid = market.spec_best_bid()->Some_0.spec_units() as int;
            let ask = market.spec_best_ask()->Some_0.spec_units() as int;
            let mid = market.spec_mid_units();
            match signals.last_ema_value {
                None => Err(NoQuoteReason::MissingEma),
                Some(ema_fast) => {
                    let ema_slow = match signals.last_ema_slow_value {
                        Some(s) => s as int,
                        None => ema_fast as int,
                    };
                    let trend = mid - ema_slow;
                    let trend_abs = if trend >= 0 {
                        trend
                    } else {
                        -trend
                    };
                    let vol = match signals.last_volatility {
                        Some(v) => v as int,
                        None => 0,
                    };
                    let vol_threshold = (vol * self.volatility_entry_multiplier_ppm) / (
                    PPM as int);
                    let threshold_abs = self.entry_threshold_ticks * tick + vol_threshold;
                    if trend_abs < threshold_abs {
                        Err(
                            NoQuoteReason::BelowEntryThreshold {
                                deviation: spec_sat_u64(trend_abs),
                                threshold: spec_sat_u64(threshold_abs),
                            },
                        )
                    } else {
                        let slope = ema_fast - ema_slow;
                        let slope_abs = if slope >= 0 {
                            slope
                        } else {
                            -slope
                        };
                        let slope_threshold_abs = self.slope_threshold_ticks * tick;
                        if slope_threshold_abs > 0 && slope_abs < slope_threshold_abs {
                            Err(
                                NoQuoteReason::BelowTrendSlopeThreshold {
                                    slope: spec_sat_u64(slope_abs),
                                    threshold: spec_sat_u64(slope_threshold_abs),
                                },
                            )
                        } else {
                            match self.ctx.spec_size_from_notional(ema_fast as int) {
                                None => Err(NoQuoteReason::InvalidQuantity),
                                Some(quantity) => {
                                    let can_improve = self.improve_if_possible && ask - bid >= 2
                                        * tick;
                                    let tolerance = self.pullback_tolerance_ticks * tick;
                                    if trend > 0 {
                                        if self.require_pullback && mid > ema_fast + tolerance {
                                            Err(NoQuoteReason::PullbackNotMet)
                                        } else {
                                            spec_one_sided_bid(
                                                bid,
                                                ask,
                                                tick,
                                                can_improve,
                                                quantity,
                                            )
                                        }
                                    } else {
                                        if self.require_pullback && mid < ema_fast - tolerance {
                                            Err(NoQuoteReason::PullbackNotMet)
                                        } else {
                                            spec_one_sided_ask(
                                                bid,
                                                ask,
                                                tick,
                                                can_improve,
                                                quantity,
                                            )
                                        }
                                    }
                                },
                            }
                        }
                    }
                },
            }
        }
    }

    /// Derives the desired quote target. An uptrend buys on a pullback,
    /// a downtrend sells on one, always post-only near the touch.
    pub fn compute_target(
        &self,
        market_state: &MarketState,
        signal_state: &SignalState,
        _inventory: Inventory,
    ) -> (r: Result<QuoteTarget, NoQuoteReason>)
        requires
            self.wf(),
            market_state.wf(),
            signal_state.wf(),
        ensures
            r == self.spec_compute_target(*market_state, *signal_state),
            !market_state.has_book() <==> r == Err::<QuoteTarget, NoQuoteReason>(
                NoQuoteReason::MissingTopOfBook,
            ),
            r matches Ok(t) ==> {
                let bid = market_state.spec_best_bid()->Some_0.spec_units() as int;
                let ask = market_state.spec_best_ask()->Some_0.spec_units() as int;
                let tick = self.ctx.spec_rules().price_tick as int;
                &&& (t.bid is Some <==> t.ask is None)
                &&& (t.ask matches Some(q) ==> q.price.spec_units() >= bid + tick && (
                q.price.spec_units() as int) % tick == 0 && q.wf())
                &&& (t.bid matches Some(q) ==> q.price.spec_units() <= ask - tick && (
                q.price.spec_units() as int) % tick == 0 && q.wf())
            },
    {
        let (best_bid, best_ask) = match (market_state.best_bid(), market_state.best_ask()) {
            (Some(b), Some(a)) => (b.units(), a.units()),
            _ => { return Err(NoQuoteReason::MissingTopOfBook) },
        };
        let tick = self.ctx.tick();
        let mid: u64 = (best_bid + best_ask) / 2;
        let ema_fast: u64 = match signal_state.ema_mid() {
            Some(e) => e,
            None => { return Err(NoQuoteReason::MissingEma) },
        };
        let ema_slow: u64 = match signal_state.ema_mid_slow() {
            Some(s) => s,
            None => ema_fast,
        };
        let trend: i128 = (mid as i128) - (ema_slow as i128);
        let trend_abs: i128 = if trend >= 0 {
            trend
        } else {
            -trend
        };
        let vol: u64 = match signal_state.volatility_mid() {
            Some(v) => v,
            None => 0,
        };
        let ghost vol_g = vol as int;
        let ghost entry_g = self.entry_threshold_ticks as int;
        let ghost slope_ticks_g = self.slope_threshold_ticks as int;
        let ghost tol_ticks_g = self.pullback_tolerance_ticks as int;
        proof {
            assert(0 <= vol_g * (self.volatility_entry_multiplier_ppm as int) <= (
            MAX_UNITS as int) * 1_000_000_000 && 0 <= entry_g * (tick as int) <= 1_000_000 * (
            MAX_UNITS as int) && 0 <= slope_ticks_g * (tick as int) <= 1_000_000 * (
            MAX_UNITS as int) && 0 <= tol_ticks_g * (tick as int) <= 1_000_000 * (MAX_UNITS as int))
                by (nonlinear_arith)
                requires
                    0 <= vol_g <= MAX_UNITS as int,
                    0 <= self.volatility_entry_multiplier_ppm as int <= 1_000_000_000,
                    0 <= entry_g <= 1_000_000,
                    0 <= slope_ticks_g <= 1_000_000,
                    0 <= tol_ticks_g <= 1_000_000,
                    0 <= tick as int <= MAX_UNITS as int,
            ;
        }
        let vol_threshold: i128 = ((vol as i128) * (self.volatility_entry_multiplier_ppm as i128))
            / (PPM as i128);
        let threshold_abs: i128 = (self.entry_threshold_ticks as i128) * (tick as i128)
            + vol_threshold;
        if trend_abs < threshold_abs {
            let trend_sat: u64 = if trend_abs > (u64::MAX as i128) {
                u64::MAX
            } else {
                trend_abs as u64
            };
            let threshold_sat: u64 = if threshold_abs > (u64::MAX as i128) {
                u64::MAX
            } else {
                threshold_abs as u64
            };
            return Err(
                NoQuoteReason::BelowEntryThreshold {
                    deviation: trend_sat,
                    threshold: threshold_sat,
                },
            );
        }
        let slope: i128 = (ema_fast as i128) - (ema_slow as i128);
        let slope_abs: i128 = if slope >= 0 {
            slope
        } else {
            -slope
        };
        let slope_threshold_abs: i128 = (self.slope_threshold_ticks as i128) * (tick as i128);
        if slope_threshold_abs > 0 && slope_abs < slope_threshold_abs {
            let slope_sat: u64 = if slope_abs > (u64::MAX as i128) {
                u64::MAX
            } else {
                slope_abs as u64
            };
            let threshold_sat: u64 = if slope_threshold_abs > (u64::MAX as i128) {
                u64::MAX
            } else {
                slope_threshold_abs as u64
            };
            return Err(
                NoQuoteReason::BelowTrendSlopeThreshold {
                    slope: slope_sat,
                    threshold: threshold_sat,
                },
            );
        }
        let quantity = match self.ctx.size_from_notional(ema_fast) {
            Some(q) => q,
            None => { return Err(NoQuoteReason::InvalidQuantity) },
        };
        let can_improve = self.improve_if_possible && (best_ask as i128) - (best_bid as i128) >= 2
            * (tick as i128);
        let tolerance: i128 = (self.pullback_tolerance_ticks as i128) * (tick as i128);
        if trend > 0 {
            if self.require_pullback && (mid as i128) > (ema_fast as i128) + tolerance {
                return Err(NoQuoteReason::PullbackNotMet);
            }
            self.ctx.one_sided_bid(best_bid, best_ask, can_improve, quantity)
        } else {
            if self.require_pullback && (mid as i128) < (ema_fast as i128) - tolerance {
                return Err(NoQuoteReason::PullbackNotMet);
            }
            self.ctx.one_sided_ask(best_bid, best_ask, can_improve, quantity)
        }
    }
}

} // verus!
