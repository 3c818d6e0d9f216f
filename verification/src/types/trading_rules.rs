//! Per-instrument venue rules: tick, step, caps, optional hours.

use vstd::prelude::*;

use crate::types::price::Price;
use crate::types::trading_hours::TradingHours;
use crate::units::{round_down_to_step, spec_round_down_to_step, MAX_UNITS, SCALE};

verus! {

/// The instrument's venue rules. All amounts are fixed-point units.
#[derive(Debug, Clone, Copy, PartialEq)]
pub struct TradingRules {
    /// Minimum price increment, in quote units. Positive.
    pub price_tick: u64,
    /// Minimum quantity increment, in base units. Positive.
    pub quantity_step: u64,
    /// Floor on the half-spread required to quote, in quote units.
    pub min_half_spread: u64,
    /// Cap on the notional of a single order, in quote units. Positive.
    pub max_order_notional: u64,
    /// Cap on the absolute exposure, in quote units. Positive.
    pub max_exposure_in_quote: u64,
    /// Optional daily trading window.
    pub trading_hours: Option<TradingHours>,
}

impl TradingRules {
    /// Validated rules: positive increments and caps, everything within
    /// the engine's arithmetic range, hours within a day.
    pub open spec fn wf(self) -> bool {
        &&& 0 < self.price_tick <= MAX_UNITS
        &&& 0 < self.quantity_step <= MAX_UNITS
        &&& self.min_half_spread <= MAX_UNITS
        &&& 0 < self.max_order_notional <= MAX_UNITS
        &&& 0 < self.max_exposure_in_quote <= MAX_UNITS
        &&& (self.trading_hours matches Some(h) ==> h.start_hour < 24 && 0 < h.end_hour <= 24)
    }

    /// Checks the rules as loaded from configuration.
    pub fn validate(&self) -> (r: bool)
        ensures
            r == self.wf(),
    {
        let hours_ok = match self.trading_hours {
            None => true,
            Some(h) => h.start_hour < 24 && 0 < h.end_hour && h.end_hour <= 24,
        };
        0 < self.price_tick && self.price_tick <= MAX_UNITS
            && 0 < self.quantity_step && self.quantity_step <= MAX_UNITS
            && self.min_half_spread <= MAX_UNITS
            && 0 < self.max_order_notional && self.max_order_notional <= MAX_UNITS
            && 0 < self.max_exposure_in_quote && self.max_exposure_in_quote <= MAX_UNITS
            && hours_ok
    }

    /// Rounds a raw price down to the nearest tick.
    pub fn round_price_to_tick(&self, price: u64) -> (r: Price)
        requires
            self.wf(),
            price <= MAX_UNITS,
        ensures
            r.spec_units() == spec_round_down_to_step(price as int, self.price_tick as int),
            r.spec_units() <= price,
            r.spec_units() % self.price_tick == 0,
            r.wf(),
    {
        Price::new(round_down_to_step(price, self.price_tick))
    }

    /// Rounds a raw base quantity down to the nearest step.
    pub fn round_quantity_to_step(&self, quantity_base: u64) -> (r: u64)
        requires
            self.wf(),
        ensures
            r == spec_round_down_to_step(quantity_base as int, self.quantity_step as int),
            r <= quantity_base,
            r % self.quantity_step == 0,
    {
        round_down_to_step(quantity_base, self.quantity_step)
    }

    /// What `quantity_from_notional` returns: `floor((notional / price) /
    /// step) * step` when the price is positive and the result is
    /// representable, else zero.
    pub open spec fn spec_quantity_from_notional(self, notional: int, price: int) -> int {
        if price <= 0 {
            0
        } else {
            let raw = (notional * SCALE) / price;
            let q = spec_round_down_to_step(raw, self.quantity_step as int);
            if q > MAX_UNITS as int {
                0
            } else {
                q
            }
        }
    }

    /// The largest step-multiple base quantity whose notional at
    /// `price_per_base` does not exceed `notional`.
    pub fn quantity_from_notional(&self, notional: u64, price_per_base: u64) -> (r: u64)
        requires
            self.wf(),
            notional <= MAX_UNITS,
        ensures
            r == self.spec_quantity_from_notional(notional as int, price_per_base as int),
            r <= MAX_UNITS,
            r % self.quantity_step == 0,
    {
        if price_per_base == 0 {
            proof {
                vstd::arithmetic::div_mod::lemma_mod_multiples_basic(
                    0int,
                    self.quantity_step as int,
                );
            }
            return 0;
        }
        let raw: u128 = (notional as u128) * (SCALE as u128) / (price_per_base as u128);
        let step: u128 = self.quantity_step as u128;
        proof {
            let raw_i = ((notional as int) * (SCALE as int)) / (price_per_base as int);
            vstd::arithmetic::div_mod::lemma_fundamental_div_mod(raw_i, self.quantity_step as int);
            vstd::arithmetic::div_mod::lemma_mod_division_less_than_divisor(
                raw_i,
                self.quantity_step as int,
            );
            vstd::arithmetic::mul::lemma_mul_is_commutative(
                self.quantity_step as int,
                raw_i / (self.quantity_step as int),
            );
            vstd::arithmetic::div_mod::lemma_mod_multiples_basic(
                raw_i / (self.quantity_step as int),
                self.quantity_step as int,
            );
        }
        let q: u128 = (raw / step) * step;
        if q > (MAX_UNITS as u128) {
            proof {
                vstd::arithmetic::div_mod::lemma_mod_multiples_basic(
                    0int,
                    self.quantity_step as int,
                );
            }
            0
        } else {
            q as u64
        }
    }
}

/// The sizing round trip: a quantity sized from a notional never spends
/// more than that notional, and is always a whole number of steps.
pub proof fn lemma_quantity_from_notional_round_trip(
    rules: TradingRules,
    notional: int,
    price: int,
)
    requires
        rules.wf(),
        0 <= notional,
        0 < price,
    ensures
        rules.spec_quantity_from_notional(notional, price) * price <= notional * SCALE,
        rules.spec_quantity_from_notional(notional, price) % (rules.quantity_step as int) == 0,
        rules.spec_quantity_from_notional(notional, price) >= 0,
{
    let step = rules.quantity_step as int;
    let raw = (notional * SCALE) / price;
    let q = (raw / step) * step;
    vstd::arithmetic::div_mod::lemma_fundamental_div_mod(notional * SCALE, price);
    vstd::arithmetic::div_mod::lemma_mod_division_less_than_divisor(notional * SCALE, price);
    vstd::arithmetic::mul::lemma_mul_is_commutative(price, raw);
    // raw * price <= notional * SCALE
    vstd::arithmetic::div_mod::lemma_fundamental_div_mod(raw, step);
    vstd::arithmetic::div_mod::lemma_mod_division_less_than_divisor(raw, step);
    vstd::arithmetic::mul::lemma_mul_is_commutative(step, raw / step);
    // q <= raw, and raw >= 0
    vstd::arithmetic::div_mod::lemma_div_pos_is_pos(notional * SCALE, price);
    vstd::arithmetic::mul::lemma_mul_nonnegative(notional, SCALE as int);
    vstd::arithmetic::div_mod::lemma_div_pos_is_pos(raw, step);
    vstd::arithmetic::mul::lemma_mul_nonnegative(raw / step, step);
    vstd::arithmetic::mul::lemma_mul_inequality(q, raw, price);
    vstd::arithmetic::div_mod::lemma_mod_multiples_basic(raw / step, step);
    vstd::arithmetic::div_mod::lemma_mod_multiples_basic(0int, step);
    if q > MAX_UNITS as int {
        vstd::arithmetic::mul::lemma_mul_nonnegative(notional, SCALE as int);
    }
}

} // verus!
