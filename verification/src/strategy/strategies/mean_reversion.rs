//! Maker-only mean reversion: quote one side against a stretched mid.
//!
//! The fast EMA of the mid anchors a fair price. Only when the mid
//! deviates from it by at least the entry threshold does the strategy
//! quote, and then a single post-only order near the touch, on the side
//! that fades the stretch.

use vstd::prelude::*;

use crate::market::market_state::MarketState;
use crate::signals::signal_state::SignalState;
use crate::strategy::instrument_context::{
    spec_one_sided_ask,
    spec_one_sided_bid,
    InstrumentContext,
};
use crate::types::instrument::Instrument;
use crate::types::inventory::Inventory;
use crate::types::quote_target::{NoQuoteReason, QuoteTarget};
use crate::units::{sat_i64, tdiv, MAX_UNITS, SCALE};

verus! {

/// A saturated `u64` rendering of a non-negative amount, for reason
/// payloads.
pub open spec fn spec_sat_u64(x: int) -> u64 {
    if x > u64::MAX as int {
        u64::MAX
    } else if x < 0 {
        0u64
    } else {
        x as u64
    }
}

/// Maker-only mean reversion, quoting a single side.
#[derive(Debug, Clone, PartialEq)]
pub struct MakerOnlyMeanReversionStrategy {
    pub ctx: InstrumentContext,
    /// Maximum absolute exposure in quote units.
    pub max_exposure_in_quote: u64,
    /// Improve the touch by one tick when the spread allows.
    pub improve_if_possible: bool,
    /// Minimum deviation from the EMA required to trade, in ticks.
    pub entry_threshold_ticks: u64,
}

impl MakerOnlyMeanReversionStrategy {
    pub open spec fn wf(self) -> bool {
        &&& self.ctx.wf()
        &&& self.entry_threshold_ticks <= 1_000_000
        &&& self.max_exposure_in_quote <= MAX_UNITS
    }

    pub fn for_instrument(instrument: &Instrument) -> (r: Self)
        requires
            instrument.wf(),
        ensures
            r.ctx.instrument == *instrument,
            r.max_exposure_in_quote == instrument.spec_trading_rules().max_exposure_in_quote,
            r.improve_if_possible,
            r.entry_threshold_ticks == 3,
            r.wf(),
    {
        let max_exposure_in_quote = instrument.trading_rules().max_exposure_in_quote;
        MakerOnlyMeanReversionStrategy {
            ctx: InstrumentContext::new(instrument),
            max_exposure_in_quote,
            improve_if_possible: true,
            entry_threshold_ticks: 3,
        }
    }

    /// The whole decision, as a function of the market, the signals and
    /// the inventory.
    pub open spec fn spec_compute_target(
        self,
        market: MarketState,
        signals: SignalState,
        inventory: Inventory,
    ) -> Result<QuoteTarget, NoQuoteReason> {
        let tick = self.ctx.spec_rules().price_tick as int;
        if !market.has_book() {
            Err(NoQuoteReason::MissingTopOfBook)
        } else {
            let bid = market.spec_best_bid()->Some_0.spec_units() as int;
            let ask = market.spec_best_ask()->Some_0.spec_units() as int;
            let mid = market.spec_mid_units();
            match signals.last_ema_value {
                None => Err(NoQuoteReason::MissingEma),
                Some(ema) => {
                    let deviation = mid - ema;
                    let dev_abs = if deviation >= 0 {
                        deviation
                    } else {
                        -deviation
                    };
                    let threshold = self.entry_threshold_ticks * tick;
                    if dev_abs < threshold {
                        Err(
                            NoQuoteReason::BelowEntryThreshold {
                                deviation: spec_sat_u64(dev_abs),
                                threshold: spec_sat_u64(threshold),
                            },
                        )
                    } else {
                        let exposure = sat_i64(tdiv(inventory.base * ema, SCALE as int));
                        if deviation > 0 && exposure < -(self.max_exposure_in_quote as int) {
                            Err(
                                NoQuoteReason::TooShortExposure {
                                    exposure_quote: exposure as i64,
                                    max_exposure_quote: self.max_exposure_in_quote,
                                },
                            )
                        } else if deviation <= 0 && exposure > self.max_exposure_in_quote {
                            Err(
                                NoQuoteReason::TooLongExposure {
                                    exposure_quote: exposure as i64,
                                    max_exposure_quote: self.max_exposure_in_quote,
                                },
                            )
                        } else {
                            match self.ctx.spec_size_from_notional(ema as int) {
                                None => Err(NoQuoteReason::InvalidQuantity),
                                Some(quantity) => {
                                    let can_improve = self.improve_if_possible && ask - bid >= 2
                                        * tick;
                                    if deviation > 0 {
                                        spec_one_sided_ask(bid, ask, tick, can_improve, quantity)
                                    } else {
                                        spec_one_sided_bid(bid, ask, tick, can_improve, quantity)
                                    }
                                },
                            }
                        }
                    }
                },
            }
        }
    }

    /// Derives the desired quote target. Post-only safety: an emitted ask
    /// rests at or above `bid + tick`, an emitted bid at or below
    /// `ask - tick`, both on the tick grid, and only one side is ever
    /// quoted.
    pub fn compute_target(
        &self,
        market_state: &MarketState,
        signal_state: &SignalState,
        inventory: Inventory,
    ) -> (r: Result<QuoteTarget, NoQuoteReason>)
        requires
            self.wf(),
            market_state.wf(),
            signal_state.wf(),
        ensures
            r == self.spec_compute_target(*market_state, *signal_state, inventory),
            !market_state.has_book() <==> r == Err::<QuoteTarget, NoQuoteReason>(
                NoQuoteReason::MissingTopOfBook,
            ),
            r matches Ok(t) ==> {
                let bid = market_state.spec_best_bid()->Some_0.spec_units() as int;
                let ask = market_state.spec_best_ask()->Some_0.spec_units() as int;
                let tick = self.ctx.spec_rules().price_tick as int;
                &&& (t.bid is Some <==> t.ask is None)
                &&& (t.ask matches Some(q) ==> q.price.spec_units() >= bid + tick && (
                q.price.spec_units() as int) % tick == 0 && q.wf())
                &&& (t.bid matches Some(q) ==> q.price.spec_units() <= ask - tick && (
                q.price.spec_units() as int) % tick == 0 && q.wf())
            },
    {
        let (best_bid, best_ask) = match (market_state.best_bid(), market_state.best_ask()) {
            (Some(b), Some(a)) => (b.units(), a.units()),
            _ => { return Err(NoQuoteReason::MissingTopOfBook) },
        };
        let tick = self.ctx.tick();
        let mid: u64 = (best_bid + best_ask) / 2;
        let ema: u64 = match signal_state.ema_mid() {
            Some(e) => e,
            None => { return Err(NoQuoteReason::MissingEma) },
        };
        let deviation: i128 = (mid as i128) - (ema as i128);
        let dev_abs: i128 = if deviation >= 0 {
            deviation
        } else {
            -deviation
        };
        let ghost entry_ticks = self.entry_threshold_ticks as int;
        proof {
            assert(0 <= entry_ticks * (tick as int) <= 1_000_000 * (MAX_UNITS as int))
                by (nonlinear_arith)
                requires
                    0 <= entry_ticks <= 1_000_000,
                    0 <= tick as int <= MAX_UNITS as int,
            ;
        }
        let threshold: i128 = (self.entry_threshold_ticks as i128) * (tick as i128);
        if dev_abs < threshold {
            let deviation_sat: u64 = if dev_abs > (u64::MAX as i128) {
                u64::MAX
            } else {
                dev_abs as u64
            };
            let threshold_sat: u64 = if threshold > (u64::MAX as i128) {
                u64::MAX
            } else {
                threshold as u64
            };
            return Err(
                NoQuoteReason::BelowEntryThreshold {
                    deviation: deviation_sat,
                    threshold: threshold_sat,
                },
            );
        }
        let exposure = crate::units::scale_signed(inventory.base, ema);
        if deviation > 0 && (exposure as i128) < -(self.max_exposure_in_quote as i128) {
            return Err(
                NoQuoteReason::TooShortExposure {
                    exposure_quote: exposure,
                    max_exposure_quote: self.max_exposure_in_quote,
                },
            );
        }
        if deviation <= 0 && exposure > 0 && (exposure as u64) > self.max_exposure_in_quote {
            return Err(
                NoQuoteReason::TooLongExposure {
                    exposure_quote: exposure,
                    max_exposure_quote: self.max_exposure_in_quote,
                },
            );
        }
        let quantity = match self.ctx.size_from_notional(ema) {
            Some(q) => q,
            None => { return Err(NoQuoteReason::InvalidQuantity) },
        };
        let can_improve = self.improve_if_possible && (best_ask as i128) - (best_bid as i128) >= 2
            * (tick as i128);
        if deviation > 0 {
            self.ctx.one_sided_ask(best_bid, best_ask, can_improve, quantity)
        } else {
            self.ctx.one_sided_bid(best_bid, best_ask, can_improve, quantity)
        }
    }
}

} // verus!
