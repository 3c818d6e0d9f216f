//! Simple market maker: two-sided quotes around an inventory-skewed
//! fair price.
//!
//! Positive exposure skews the fair price downward to encourage sells,
//! negative exposure upward. A side whose exposure is past the cap is
//! suppressed entirely.

use vstd::prelude::*;

use crate::market::market_state::MarketState;
use crate::signals::signal_state::SignalState;
use crate::strategy::instrument_context::{spec_fair_price, InstrumentContext};
use crate::types::instrument::Instrument;
use crate::types::inventory::Inventory;
use crate::types::price::Price;
use crate::types::quote::Quote;
use crate::types::quote_target::{NoQuoteReason, QuoteTarget};
use crate::units::{
    div_trunc,
    sat_i64,
    scale_signed,
    spec_round_down_to_step,
    tdiv,
    MAX_UNITS,
    PPM,
    SCALE,
};

verus! {

/// Denominator of basis points.
pub const BPS_ONE: u64 = 10_000;

/// Two-sided maker with inventory-aware skew.
#[derive(Debug, Clone, PartialEq)]
pub struct SimpleMarketMakerStrategy {
    pub ctx: InstrumentContext,
    /// Cap on the absolute exposure, in quote units. Positive.
    pub max_exposure_quote: u64,
    /// Largest skew of the fair price, in basis points. At most one
    /// hundred percent.
    pub max_skew_bps: u64,
}

impl SimpleMarketMakerStrategy {
    pub open spec fn wf(self) -> bool {
        &&& self.ctx.wf()
        &&& 0 < self.max_exposure_quote <= MAX_UNITS
        &&& self.max_skew_bps <= BPS_ONE
    }

    pub fn new(instrument: &Instrument, max_exposure_quote: u64, max_skew_bps: u64) -> (r: Self)
        requires
            instrument.wf(),
            0 < max_exposure_quote <= MAX_UNITS,
            max_skew_bps <= BPS_ONE,
        ensures
            r.ctx.instrument == *instrument,
            r.max_exposure_quote == max_exposure_quote,
            r.max_skew_bps == max_skew_bps,
            r.wf(),
    {
        SimpleMarketMakerStrategy {
            ctx: InstrumentContext::new(instrument),
            max_exposure_quote,
            max_skew_bps,
        }
    }

    /// Defaults: 200 quote units of exposure headroom, 10 basis points
    /// of skew.
    pub fn for_instrument(instrument: &Instrument) -> (r: Self)
        requires
            instrument.wf(),
        ensures
            r.ctx.instrument == *instrument,
            r.max_exposure_quote == 200 * SCALE,
            r.max_skew_bps == 10,
            r.wf(),
    {
        SimpleMarketMakerStrategy::new(instrument, 200 * SCALE, 10)
    }

    /// The base exposure valued at `fair`, in quote units.
    pub open spec fn spec_exposure(self, fair: int, base: int) -> int {
        sat_i64(tdiv(base * fair, SCALE as int))
    }

    /// Exposure normalized into `[-PPM, PPM]` relative to the cap.
    pub open spec fn spec_norm_ppm(self, exposure: int) -> int {
        let raw = tdiv(exposure * PPM, self.max_exposure_quote as int);
        if raw > PPM as int {
            PPM as int
        } else if raw < -(PPM as int) {
            -(PPM as int)
        } else {
            raw
        }
    }

    /// The inventory-skewed fair price: positive exposure skews it down.
    pub open spec fn spec_skewed_fair(self, fair: int, base: int) -> int {
        let norm = self.spec_norm_ppm(self.spec_exposure(fair, base));
        let skew = tdiv(fair * norm * self.max_skew_bps, (BPS_ONE as int) * (PPM as int));
        fair - skew
    }

    /// The whole decision, as a function of the market, the signals and
    /// the inventory.
    pub open spec fn spec_compute_target(
        self,
        market: MarketState,
        signals: SignalState,
        inventory: Inventory,
    ) -> Result<QuoteTarget, NoQuoteReason> {
        let tick = self.ctx.spec_rules().price_tick as int;
        if !market.has_book() {
            Err(NoQuoteReason::MissingTopOfBook)
        } else {
            let bid = market.spec_best_bid()->Some_0.spec_units() as int;
            let ask = market.spec_best_ask()->Some_0.spec_units() as int;
            match spec_fair_price(market, signals) {
                None => Err(NoQuoteReason::MissingFairPrice),
                Some(fair) => {
                    let exposure = self.spec_exposure(fair as int, inventory.base as int);
                    let skewed = self.spec_skewed_fair(fair as int, inventory.base as int);
                    match self.ctx.spec_size_from_notional(skewed) {
                        None => Err(NoQuoteReason::InvalidQuantity),
                        Some(quantity) => {
                            let too_long = exposure > self.max_exposure_quote;
                            let too_short = exposure < -(self.max_exposure_quote as int);
                            let can_improve = ask - bid >= 2 * tick;
                            let mid = (bid + ask) / 2;
                            let half = self.ctx.spec_rules().min_half_spread as int;
                            let desired_bid = {
                                let d0 = if !too_long && skewed > mid && can_improve {
                                    bid + tick
                                } else {
                                    bid
                                };
                                let d1 = if d0 > ask - tick {
                                    ask - tick
                                } else {
                                    d0
                                };
                                let d2 = if d1 < skewed - half {
                                    skewed - half
                                } else {
                                    d1
                                };
                                if d2 > ask - tick {
                                    ask - tick
                                } else {
                                    d2
                                }
                            };
                            let desired_ask = {
                                let d0 = if !too_short && skewed < mid && can_improve {
                                    ask - tick
                                } else {
                                    ask
                                };
                                let d1 = if d0 < bid + tick {
                                    bid + tick
                                } else {
                                    d0
                                };
                                let d2 = if d1 > skewed + half {
                                    skewed + half
                                } else {
                                    d1
                                };
                                let d3 = if d2 < bid + tick {
                                    bid + tick
                                } else {
                                    d2
                                };
                                if d3 > MAX_UNITS as int {
                                    MAX_UNITS as int
                                } else {
                                    d3
                                }
                            };
                            if desired_bid > ask - tick || desired_ask < bid + tick || desired_bid
                                < 0 {
                                Err(NoQuoteReason::WouldCrossPostOnly)
                            } else {
                                let bid_price = spec_round_down_to_step(desired_bid, tick);
                                let ask_price = spec_round_down_to_step(desired_ask, tick);
                                if !too_short && ask_price < bid + tick {
                                    // Rounding down can land an emitted ask under the
                                    // post-only floor when the floor is off the grid.
                                    Err(NoQuoteReason::WouldCrossPostOnly)
                                } else {
                                    let bid_quote = if too_long {
                                        None
                                    } else {
                                        Some(
                                            Quote {
                                                price: Price { units: bid_price as u64 },
                                                quantity,
                                            },
                                        )
                                    };
                                    let ask_quote = if too_short {
                                        None
                                    } else {
                                        Some(
                                            Quote {
                                                price: Price { units: ask_price as u64 },
                                                quantity,
                                            },
                                        )
                                    };
                                    if bid_quote is None && ask_quote is None {
                                        Err(NoQuoteReason::BothSidesSuppressedByExposure)
                                    } else {
                                        Ok(QuoteTarget { bid: bid_quote, ask: ask_quote })
                                    }
                                }
                            }
                        },
                    }
                },
            }
        }
    }

    /// Derives the desired two-sided quote target. Post-only safety: an
    /// emitted bid rests at or below `ask - tick`, an emitted ask at or
    /// above `bid + tick`, both on the tick grid.
    pub fn compute_target(
        &self,
        market_state: &MarketState,
        signal_state: &SignalState,
        inventory: Inventory,
    ) -> (r: Result<QuoteTarget, NoQuoteReason>)
        requires
            self.wf(),
            market_state.wf(),
            signal_state.wf(),
        ensures
            r == self.spec_compute_target(*market_state, *signal_state, inventory),
            !market_state.has_book() <==> r == Err::<QuoteTarget, NoQuoteReason>(
                NoQuoteReason::MissingTopOfBook,
            ),
            r matches Ok(t) ==> {
                let bid = market_state.spec_best_bid()->Some_0.spec_units() as int;
                let ask = market_state.spec_best_ask()->Some_0.spec_units() as int;
                let tick = self.ctx.spec_rules().price_tick as int;
                &&& (t.bid is Some || t.ask is Some)
                &&& (t.bid matches Some(q) ==> q.price.spec_units() <= ask - tick
                    && (q.price.spec_units() as int) % tick == 0 && q.wf())
                &&& (t.ask matches Some(q) ==> q.price.spec_units() >= bid + tick
                    && (q.price.spec_units() as int) % tick == 0 && q.wf())
            },
    {
        let (best_bid, best_ask) = match (market_state.best_bid(), market_state.best_ask()) {
            (Some(b), Some(a)) => (b.units(), a.units()),
            _ => { return Err(NoQuoteReason::MissingTopOfBook) },
        };
        let tick = self.ctx.tick();
        let fair: u64 = match crate::strategy::instrument_context::fair_price(
            market_state,
            signal_state,
        ) {
            Some(f) => f,
            None => { return Err(NoQuoteReason::MissingFairPrice) },
        };
        let exposure: i64 = scale_signed(inventory.base, fair);
        let norm: i128 = {
            let raw = div_trunc((exposure as i128) * (PPM as i128), self.max_exposure_quote as i128);
            if raw > (PPM as i128) {
                PPM as i128
            } else if raw < -(PPM as i128) {
                -(PPM as i128)
            } else {
                raw
            }
        };
        let ghost fair_g = fair as int;
        proof {
            assert(-(PPM as int) * (MAX_UNITS as int) <= fair_g * norm <= (PPM as int) * (
            MAX_UNITS as int) && -(PPM as int) * (MAX_UNITS as int) * (BPS_ONE as int) <= (fair_g
                * norm) * (self.max_skew_bps as int) <= (PPM as int) * (MAX_UNITS as int) * (
            BPS_ONE as int)) by (nonlinear_arith)
                requires
                    0 <= fair_g <= MAX_UNITS as int,
                    -(PPM as int) <= norm as int <= PPM as int,
                    0 <= self.max_skew_bps as int <= BPS_ONE as int,
            ;
        }
        let skew: i128 = div_trunc(
            (fair as i128) * norm * (self.max_skew_bps as i128),
            (BPS_ONE as i128) * (PPM as i128),
        );
        let skewed: i128 = (fair as i128) - skew;
        proof {
            lemma_skew_bounded(fair as int, norm as int, self.max_skew_bps as int);
        }
        let quantity = match self.ctx.size_from_notional(skewed as u64) {
            Some(q) => q,
            None => { return Err(NoQuoteReason::InvalidQuantity) },
        };
        let too_long = exposure > 0 && (exposure as u64) > self.max_exposure_quote;
        let too_short = (exposure as i128) < -(self.max_exposure_quote as i128);
        let can_improve = (best_ask as i128) - (best_bid as i128) >= 2 * (tick as i128);
        let mid: i128 = ((best_bid as i128) + (best_ask as i128)) / 2;
        let half: i128 = self.ctx.min_half_spread() as i128;
        let cap: i128 = (best_ask as i128) - (tick as i128);
        let floor: i128 = (best_bid as i128) + (tick as i128);
        let desired_bid: i128 = {
            let d0: i128 = if !too_long && skewed > mid && can_improve {
                (best_bid as i128) + (tick as i128)
            } else {
                best_bid as i128
            };
            let d1: i128 = if d0 > cap {
                cap
            } else {
                d0
            };
            let d2: i128 = if d1 < skewed - half {
                skewed - half
            } else {
                d1
            };
            if d2 > cap {
                cap
            } else {
                d2
            }
        };
        let desired_ask: i128 = {
            let d0: i128 = if !too_short && skewed < mid && can_improve {
                (best_ask as i128) - (tick as i128)
            } else {
                best_ask as i128
            };
            let d1: i128 = if d0 < floor {
                floor
            } else {
                d0
            };
            let d2: i128 = if d1 > skewed + half {
                skewed + half
            } else {
                d1
            };
            let d3: i128 = if d2 < floor {
                floor
            } else {
                d2
            };
            if d3 > (MAX_UNITS as i128) {
                MAX_UNITS as i128
            } else {
                d3
            }
        };
        if desired_bid > cap || desired_ask < floor || desired_bid < 0 {
            return Err(NoQuoteReason::WouldCrossPostOnly);
        }
        let bid_price = self.ctx.rules().round_price_to_tick(desired_bid as u64);
        let ask_price = self.ctx.rules().round_price_to_tick(desired_ask as u64);
        if !too_short && (ask_price.units() as i128) < floor {
            // Rounding down can land an emitted ask under the post-only
            // floor when the floor is off the grid.
            return Err(NoQuoteReason::WouldCrossPostOnly);
        }
        let bid_quote = if too_long {
            None
        } else {
            Some(Quote { price: bid_price, quantity })
        };
        let ask_quote = if too_short {
            None
        } else {
            Some(Quote { price: ask_price, quantity })
        };
        if bid_quote.is_none() && ask_quote.is_none() {
            return Err(NoQuoteReason::BothSidesSuppressedByExposure);
        }
        Ok(QuoteTarget { bid: bid_quote, ask: ask_quote })
    }
}

/// With at most one hundred percent of skew, the skewed fair price stays
/// between zero and twice the anchor.
proof fn lemma_skew_bounded(fair: int, norm: int, bps: int)
    requires
        0 <= fair,
        -(PPM as int) <= norm <= PPM as int,
        0 <= bps <= BPS_ONE as int,
    ensures
        -fair <= tdiv(fair * norm * bps, (BPS_ONE as int) * (PPM as int)) <= fair,
{
    let d = (BPS_ONE as int) * (PPM as int);
    let p = fair * norm * bps;
    assert(-(fair * d) <= p <= fair * d) by (nonlinear_arith)
        requires
            0 <= fair,
            -(PPM as int) <= norm <= PPM as int,
            0 <= bps <= BPS_ONE as int,
            d == (BPS_ONE as int) * (PPM as int),
            p == fair * norm * bps,
    ;
    if p >= 0 {
        vstd::arithmetic::div_mod::lemma_div_is_ordered(p, fair * d, d);
        vstd::arithmetic::div_mod::lemma_div_by_multiple(fair, d);
        vstd::arithmetic::div_mod::lemma_div_pos_is_pos(p, d);
    } else {
        vstd::arithmetic::div_mod::lemma_div_is_ordered(-p, fair * d, d);
        vstd::arithmetic::div_mod::lemma_div_by_multiple(fair, d);
        vstd::arithmetic::div_mod::lemma_div_pos_is_pos(-p, d);
    }
}

} // verus!
