//! The instrument rules bundle shared by all strategies, with the
//! sizing and post-only clamping helpers.

use vstd::prelude::*;

use crate::market::market_state::MarketState;
use crate::signals::signal_state::SignalState;
use crate::types::instrument::Instrument;
use crate::types::price::Price;
use crate::types::quote::Quote;
use crate::types::quote_target::{NoQuoteReason, QuoteTarget};
use crate::types::trading_rules::TradingRules;
use crate::units::{spec_round_down_to_step, MAX_UNITS};

verus! {

/// The instrument a strategy quotes, with shortcut accessors for the
/// rules the strategies read on every tick.
#[derive(Debug, Clone, PartialEq)]
pub struct InstrumentContext {
    pub instrument: Instrument,
}

impl InstrumentContext {
    pub open spec fn wf(self) -> bool {
        self.instrument.wf()
    }

    pub open spec fn spec_rules(self) -> TradingRules {
        self.instrument.trading_rules
    }

    pub fn new(instrument: &Instrument) -> (r: Self)
        ensures
            r.instrument == *instrument,
    {
        InstrumentContext { instrument: instrument.duplicate() }
    }

    pub fn tick(&self) -> (r: u64)
        ensures
            r == self.spec_rules().price_tick,
    {
        self.instrument.trading_rules.price_tick
    }

    pub fn max_order_notional(&self) -> (r: u64)
        ensures
            r == self.spec_rules().max_order_notional,
    {
        self.instrument.trading_rules.max_order_notional
    }

    pub fn min_half_spread(&self) -> (r: u64)
        ensures
            r == self.spec_rules().min_half_spread,
    {
        self.instrument.trading_rules.min_half_spread
    }

    pub fn rules(&self) -> (r: &TradingRules)
        ensures
            *r == self.spec_rules(),
    {
        &self.instrument.trading_rules
    }

    /// The order size the notional cap buys at `price`, when positive.
    pub open spec fn spec_size_from_notional(self, price: int) -> Option<u64> {
        let q = self.spec_rules().spec_quantity_from_notional(
            self.spec_rules().max_order_notional as int,
            price,
        );
        if q > 0 {
            Some(q as u64)
        } else {
            None
        }
    }

    pub fn size_from_notional(&self, price: u64) -> (r: Option<u64>)
        requires
            self.wf(),
        ensures
            r == self.spec_size_from_notional(price as int),
            r matches Some(q) ==> 0 < q <= MAX_UNITS,
    {
        let q = self.rules().quantity_from_notional(self.max_order_notional(), price);
        if q > 0 {
            Some(q)
        } else {
            None
        }
    }
}

/// The ask-side one-sided target: at or one tick inside the touch, never
/// below `bid + tick`, clamped into the representable range, rounded
/// down to the tick and re-checked against crossing.
pub open spec fn spec_one_sided_ask(
    bid: int,
    ask: int,
    tick: int,
    can_improve: bool,
    quantity: u64,
) -> Result<QuoteTarget, NoQuoteReason> {
    let desired0 = if can_improve {
        ask - tick
    } else {
        ask
    };
    let desired1 = if desired0 < bid + tick {
        bid + tick
    } else {
        desired0
    };
    let desired = if desired1 > MAX_UNITS as int {
        MAX_UNITS as int
    } else {
        desired1
    };
    let price = spec_round_down_to_step(desired, tick);
    if price < bid + tick {
        Err(NoQuoteReason::WouldCrossPostOnly)
    } else {
        Ok(QuoteTarget { bid: None, ask: Some(Quote { price: Price { units: price as u64 }, quantity }) })
    }
}

/// The bid-side one-sided target: at or one tick inside the touch, never
/// above `ask - tick`, rounded down to the tick.
pub open spec fn spec_one_sided_bid(
    bid: int,
    ask: int,
    tick: int,
    can_improve: bool,
    quantity: u64,
) -> Result<QuoteTarget, NoQuoteReason> {
    let desired0 = if can_improve {
        bid + tick
    } else {
        bid
    };
    let desired = if desired0 > ask - tick {
        ask - tick
    } else {
        desired0
    };
    if desired < 0 {
        Err(NoQuoteReason::WouldCrossPostOnly)
    } else {
        let price = spec_round_down_to_step(desired, tick);
        if price > ask - tick {
            Err(NoQuoteReason::WouldCrossPostOnly)
        } else {
            Ok(QuoteTarget { bid: Some(Quote { price: Price { units: price as u64 }, quantity }), ask: None })
        }
    }
}

impl InstrumentContext {
    /// Builds the single post-only ask near the touch. A returned ask
    /// rests at or above `bid + tick`, on the tick grid.
    pub fn one_sided_ask(&self, best_bid: u64, best_ask: u64, can_improve: bool, quantity: u64,
    ) -> (r: Result<QuoteTarget, NoQuoteReason>)
        requires
            self.wf(),
            best_bid <= MAX_UNITS,
            best_ask <= MAX_UNITS,
            0 < quantity <= MAX_UNITS,
        ensures
            r == spec_one_sided_ask(
                best_bid as int,
                best_ask as int,
                self.spec_rules().price_tick as int,
                can_improve,
                quantity,
            ),
            r matches Ok(t) ==> {
                let tick = self.spec_rules().price_tick as int;
                &&& t.bid is None
                &&& t.ask matches Some(q) && q.price.spec_units() >= best_bid + tick && (
                q.price.spec_units() as int) % tick == 0 && q.wf() && q.quantity == quantity
            },
    {
        let tick = self.tick();
        let desired0: i128 = if can_improve {
            (best_ask as i128) - (tick as i128)
        } else {
            best_ask as i128
        };
        let floor: i128 = (best_bid as i128) + (tick as i128);
        let desired1: i128 = if desired0 < floor {
            floor
        } else {
            desired0
        };
        let desired: u64 = if desired1 > (MAX_UNITS as i128) {
            MAX_UNITS
        } else {
            desired1 as u64
        };
        let price = self.rules().round_price_to_tick(desired);
        if (price.units() as i128) < floor {
            return Err(NoQuoteReason::WouldCrossPostOnly);
        }
        Ok(QuoteTarget { bid: None, ask: Some(Quote { price, quantity }) })
    }

    /// Builds the single post-only bid near the touch. A returned bid
    /// rests at or below `ask - tick`, on the tick grid.
    pub fn one_sided_bid(&self, best_bid: u64, best_ask: u64, can_improve: bool, quantity: u64,
    ) -> (r: Result<QuoteTarget, NoQuoteReason>)
        requires
            self.wf(),
            best_bid <= MAX_UNITS,
            best_ask <= MAX_UNITS,
            0 < quantity <= MAX_UNITS,
        ensures
            r == spec_one_sided_bid(
                best_bid as int,
                best_ask as int,
                self.spec_rules().price_tick as int,
                can_improve,
                quantity,
            ),
            r matches Ok(t) ==> {
                let tick = self.spec_rules().price_tick as int;
                &&& t.ask is None
                &&& t.bid matches Some(q) && q.price.spec_units() <= best_ask - tick && (
                q.price.spec_units() as int) % tick == 0 && q.wf() && q.quantity == quantity
            },
    {
        let tick = self.tick();
        let desired0: i128 = if can_improve {
            (best_bid as i128) + (tick as i128)
        } else {
            best_bid as i128
        };
        let cap: i128 = (best_ask as i128) - (tick as i128);
        let desired1: i128 = if desired0 > cap {
            cap
        } else {
            desired0
        };
        if desired1 < 0 {
            return Err(NoQuoteReason::WouldCrossPostOnly);
        }
        let price = self.rules().round_price_to_tick(desired1 as u64);
        if (price.units() as i128) > cap {
            return Err(NoQuoteReason::WouldCrossPostOnly);
        }
        Ok(QuoteTarget { bid: Some(Quote { price, quantity }), ask: None })
    }
}

/// Both sides of the book as raw units, or `None` while either is
/// missing.
pub open spec fn spec_best_bid_ask(market: MarketState) -> Option<(u64, u64)> {
    if market.has_book() {
        Some(
            (
                market.spec_best_bid()->Some_0.spec_units(),
                market.spec_best_ask()->Some_0.spec_units(),
            ),
        )
    } else {
        None
    }
}

pub fn best_bid_ask(market_state: &MarketState) -> (r: Option<(u64, u64)>)
    ensures
        r == spec_best_bid_ask(*market_state),
{
    match (market_state.best_bid(), market_state.best_ask()) {
        (Some(bid), Some(ask)) => Some((bid.units(), ask.units())),
        _ => None,
    }
}

/// The fair-price anchor: the fast EMA when present, else the mid.
pub open spec fn spec_fair_price(market: MarketState, signals: SignalState) -> Option<u64> {
    match signals.last_ema_value {
        Some(ema) => Some(ema),
        None => if market.has_book() {
            Some(market.spec_mid_units() as u64)
        } else {
            None
        },
    }
}

pub fn fair_price(market_state: &MarketState, signal_state: &SignalState) -> (r: Option<u64>)
    requires
        market_state.wf(),
    ensures
        r == spec_fair_price(*market_state, *signal_state),
{
    match signal_state.ema_mid() {
        Some(ema) => Some(ema),
        None => match market_state.mid_price() {
            Some(mid) => Some(mid.units()),
            None => None,
        },
    }
}

} // verus!
