//! Regime switcher: mean reversion in calm markets, trend following in
//! strongly trending ones, with hysteresis against rapid flips.

use vstd::prelude::*;

use crate::market::market_state::MarketState;
use crate::signals::signal_state::SignalState;
use crate::strategy::instrument_context::InstrumentContext;
use crate::strategy::strategies::mean_reversion::MakerOnlyMeanReversionStrategy;
use crate::strategy::strategies::trend_following::MakerOnlyTrendFollowingStrategy;
use crate::types::instrument::Instrument;
use crate::types::inventory::Inventory;
use crate::types::quote_target::{NoQuoteReason, QuoteTarget};
use crate::units::{MAX_UNITS, PPM};

verus! {

/// Which sub-strategy currently quotes.
#[derive(Debug, Clone, Copy, PartialEq, Eq, Structural)]
pub enum Regime {
    MeanReversion,
    TrendFollowing,
}

/// Chooses between mean reversion and trend following from the slow-EMA
/// trend strength, staying in a regime for a minimum number of ticks.
#[derive(Debug, Clone, PartialEq)]
pub struct RegimeSwitchStrategy {
    pub ctx: InstrumentContext,
    pub mean_reversion: MakerOnlyMeanReversionStrategy,
    pub trend_following: MakerOnlyTrendFollowingStrategy,
    pub current_regime: Regime,
    pub ticks_in_regime: u64,
    /// Minimum ticks to stay in a regime before switching again.
    pub min_regime_ticks: u64,
    /// Trend strength that enters trend following, in ticks.
    pub trend_enter_threshold_ticks: u64,
    /// Trend strength that falls back to mean reversion, in ticks.
    pub trend_exit_threshold_ticks: u64,
    /// Minimum fast/slow EMA separation for trend following, in ticks.
    pub trend_slope_threshold_ticks: u64,
    /// Extra trend strength demanded per unit of recent volatility, in
    /// parts per million.
    pub trend_strength_multiplier_ppm: u64,
}

impl RegimeSwitchStrategy {
    pub open spec fn wf(self) -> bool {
        &&& self.ctx.wf()
        &&& self.mean_reversion.wf()
        &&& self.trend_following.wf()
        &&& self.mean_reversion.ctx.spec_rules() == self.ctx.spec_rules()
        &&& self.trend_following.ctx.spec_rules() == self.ctx.spec_rules()
        &&& self.trend_enter_threshold_ticks <= 1_000_000
        &&& self.trend_exit_threshold_ticks <= 1_000_000
        &&& self.trend_slope_threshold_ticks <= 1_000_000
        &&& self.trend_strength_multiplier_ppm <= 1_000_000_000
    }

    pub fn for_instrument(instrument: &Instrument) -> (r: Self)
        requires
            instrument.wf(),
        ensures
            r.ctx.instrument == *instrument,
            r.current_regime == Regime::MeanReversion,
            r.ticks_in_regime == 0,
            r.min_regime_ticks == 20,
            r.trend_enter_threshold_ticks == 6,
            r.trend_exit_threshold_ticks == 4,
            r.trend_slope_threshold_ticks == 2,
            r.trend_strength_multiplier_ppm == 2_500_000,
            r.wf(),
    {
        RegimeSwitchStrategy {
            ctx: InstrumentContext::new(instrument),
            mean_reversion: MakerOnlyMeanReversionStrategy::for_instrument(instrument),
            trend_following: MakerOnlyTrendFollowingStrategy::for_instrument(instrument),
            current_regime: Regime::MeanReversion,
            ticks_in_regime: 0,
            min_regime_ticks: 20,
            trend_enter_threshold_ticks: 6,
            trend_exit_threshold_ticks: 4,
            trend_slope_threshold_ticks: 2,
            trend_strength_multiplier_ppm: 2_500_000,
        }
    }

    /// The regime and tick counter after one evaluated tick: the counter
    /// advances, and once the minimum dwell time has passed a strong
    /// enough trend enters trend following while a weak one leaves it.
    pub open spec fn spec_regime_after(self, mid: int, ema_fast: int, ema_slow: int, vol: int) -> (
        Regime,
        u64,
    ) {
        let tick = self.ctx.spec_rules().price_tick as int;
        let trend = mid - ema_slow;
        let trend_abs = if trend >= 0 {
            trend
        } else {
            -trend
        };
        let slope = ema_fast - ema_slow;
        let slope_abs = if slope >= 0 {
            slope
        } else {
            -slope
        };
        let slope_threshold_abs = self.trend_slope_threshold_ticks * tick;
        let vol_threshold = (vol * self.trend_strength_multiplier_ppm) / (PPM as int);
        let enter_threshold = self.trend_enter_threshold_ticks * tick + vol_threshold;
        let exit_threshold = self.trend_exit_threshold_ticks * tick + vol_threshold;
        let ticks = if self.ticks_in_regime == u64::MAX {
            u64::MAX
        } else {
            (self.ticks_in_regime + 1) as u64
        };
        let wants_trend = trend_abs >= enter_threshold && slope_abs >= slope_threshold_abs;
        let wants_mr = trend_abs <= exit_threshold || slope_abs < slope_threshold_abs;
        if self.current_regime == Regime::MeanReversion && wants_trend && ticks
            >= self.min_regime_ticks {
            (Regime::TrendFollowing, 0u64)
        } else if self.current_regime == Regime::TrendFollowing && wants_mr && ticks
            >= self.min_regime_ticks {
            (Regime::MeanReversion, 0u64)
        } else {
            (self.current_regime, ticks)
        }
    }

    /// The volatility estimate the regime decision reads: zero until one
    /// exists.
    pub open spec fn spec_vol(signals: SignalState) -> int {
        match signals.last_volatility {
            Some(v) => v as int,
            None => 0,
        }
    }

    /// The result of one evaluation: without a mid or either EMA, its
    /// own missing-input reason; otherwise the regime is decided and the
    /// chosen sub-strategy's result is returned.
    pub open spec fn spec_result(
        self,
        market: MarketState,
        signals: SignalState,
        inventory: Inventory,
    ) -> Result<QuoteTarget, NoQuoteReason> {
        if !market.has_book() {
            Err(NoQuoteReason::MissingMid)
        } else {
            match (signals.last_ema_value, signals.last_ema_slow_value) {
                (None, _) => Err(NoQuoteReason::MissingEma),
                (Some(_), None) => Err(NoQuoteReason::MissingSlowEma),
                (Some(ema_fast), Some(ema_slow)) => {
                    let (regime, _) = self.spec_regime_after(
                        market.spec_mid_units(),
                        ema_fast as int,
                        ema_slow as int,
                        Self::spec_vol(signals),
                    );
                    match regime {
                        Regime::TrendFollowing => self.trend_following.spec_compute_target(
                            market,
                            signals,
                        ),
                        Regime::MeanReversion => self.mean_reversion.spec_compute_target(
                            market,
                            signals,
                            inventory,
                        ),
                    }
                },
            }
        }
    }

    /// The whole strategy after one evaluation: only the regime and its
    /// tick counter move, and only when every input is present.
    pub open spec fn spec_updated(self, market: MarketState, signals: SignalState,
    ) -> RegimeSwitchStrategy {
        if !market.has_book() || signals.last_ema_value is None
            || signals.last_ema_slow_value is None {
            self
        } else {
            let (regime, ticks) = self.spec_regime_after(
                market.spec_mid_units(),
                signals.last_ema_value->Some_0 as int,
                signals.last_ema_slow_value->Some_0 as int,
                Self::spec_vol(signals),
            );
            RegimeSwitchStrategy { current_regime: regime, ticks_in_regime: ticks, ..self }
        }
    }

    /// Evaluates the regime and delegates to the chosen sub-strategy.
    /// The mid and both EMAs must be present before anything advances.
    pub fn compute_target(
        &mut self,
        market_state: &MarketState,
        signal_state: &SignalState,
        inventory: Inventory,
    ) -> (r: Result<QuoteTarget, NoQuoteReason>)
        requires
            old(self).wf(),
            market_state.wf(),
            signal_state.wf(),
        ensures
            final(self).wf(),
            *final(self) == old(self).spec_updated(*market_state, *signal_state),
            r == old(self).spec_result(*market_state, *signal_state, inventory),
            r matches Ok(t) ==> {
                let bid = market_state.spec_best_bid()->Some_0.spec_units() as int;
                let ask = market_state.spec_best_ask()->Some_0.spec_units() as int;
                let tick = old(self).ctx.spec_rules().price_tick as int;
                &&& (t.bid is Some <==> t.ask is None)
                &&& (t.ask matches Some(q) ==> q.price.spec_units() >= bid + tick && (
                q.price.spec_units() as int) % tick == 0 && q.wf())
                &&& (t.bid matches Some(q) ==> q.price.spec_units() <= ask - tick && (
                q.price.spec_units() as int) % tick == 0 && q.wf())
            },
    {
        let mid: u64 = match market_state.mid_price() {
            Some(m) => m.units(),
            None => { return Err(NoQuoteReason::MissingMid) },
        };
        let ema_fast: u64 = match signal_state.ema_mid() {
            Some(e) => e,
            None => { return Err(NoQuoteReason::MissingEma) },
        };
        let ema_slow: u64 = match signal_state.ema_mid_slow() {
            Some(s) => s,
            None => { return Err(NoQuoteReason::MissingSlowEma) },
        };
        let vol: u64 = match signal_state.volatility_mid() {
            Some(v) => v,
            None => 0,
        };
        let tick = self.ctx.tick();
        let trend: i128 = (mid as i128) - (ema_slow as i128);
        let trend_abs: i128 = if trend >= 0 {
            trend
        } else {
            -trend
        };
        let slope: i128 = (ema_fast as i128) - (ema_slow as i128);
        let slope_abs: i128 = if slope >= 0 {
            slope
        } else {
            -slope
        };
        let ghost vol_g = vol as int;
        let ghost enter_g = self.trend_enter_threshold_ticks as int;
        let ghost exit_g = self.trend_exit_threshold_ticks as int;
        let ghost slope_g = self.trend_slope_threshold_ticks as int;
        proof {
            assert(0 <= vol_g * (self.trend_strength_multiplier_ppm as int) <= (MAX_UNITS as int)
                * 1_000_000_000 && 0 <= enter_g * (tick as int) <= 1_000_000 * (MAX_UNITS as int)
                && 0 <= exit_g * (tick as int) <= 1_000_000 * (MAX_UNITS as int) && 0 <= slope_g * (
            tick as int) <= 1_000_000 * (MAX_UNITS as int)) by (nonlinear_arith)
                requires
                    0 <= vol_g <= MAX_UNITS as int,
                    0 <= self.trend_strength_multiplier_ppm as int <= 1_000_000_000,
                    0 <= enter_g <= 1_000_000,
                    0 <= exit_g <= 1_000_000,
                    0 <= slope_g <= 1_000_000,
                    0 <= tick as int <= MAX_UNITS as int,
            ;
        }
        let slope_threshold_abs: i128 = (self.trend_slope_threshold_ticks as i128) * (
        tick as i128);
        let vol_threshold: i128 = ((vol as i128) * (self.trend_strength_multiplier_ppm as i128))
            / (PPM as i128);
        let enter_threshold: i128 = (self.trend_enter_threshold_ticks as i128) * (tick as i128)
            + vol_threshold;
        let exit_threshold: i128 = (self.trend_exit_threshold_ticks as i128) * (tick as i128)
            + vol_threshold;
        let ticks_in_regime: u64 = if self.ticks_in_regime == u64::MAX {
            u64::MAX
        } else {
            self.ticks_in_regime + 1
        };
        self.ticks_in_regime = ticks_in_regime;
        let wants_trend = trend_abs >= enter_threshold && slope_abs >= slope_threshold_abs;
        let wants_mr = trend_abs <= exit_threshold || slope_abs < slope_threshold_abs;
        let current_regime = self.current_regime;
        if current_regime == Regime::MeanReversion && wants_trend && ticks_in_regime
            >= self.min_regime_ticks {
            self.current_regime = Regime::TrendFollowing;
            self.ticks_in_regime = 0;
        } else if current_regime == Regime::TrendFollowing && wants_mr && ticks_in_regime
            >= self.min_regime_ticks {
            self.current_regime = Regime::MeanReversion;
            self.ticks_in_regime = 0;
        }
        match self.current_regime {
            Regime::TrendFollowing => self.trend_following.compute_target(
                market_state,
                signal_state,
                inventory,
            ),
            Regime::MeanReversion => self.mean_reversion.compute_target(
                market_state,
                signal_state,
                inventory,
            ),
        }
    }
}

} // verus!
