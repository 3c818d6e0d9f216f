//! Latest top-of-book and trade snapshot.

use vstd::prelude::*;

use crate::events::MarketEvent;
use crate::types::price::Price;

verus! {

/// The engine's view of the market: latest best bid and ask, last trade
/// price, and the engine-clock instant of the last event. No validity
/// filtering happens here; sanity is enforced by the risk layer.
#[derive(Debug, Clone, Copy, PartialEq)]
pub struct MarketState {
    pub best_bid: Option<Price>,
    pub best_ask: Option<Price>,
    pub last_trade_price: Option<Price>,
    pub last_event_ms: Option<u64>,
}

impl MarketState {
    pub open spec fn spec_best_bid(self) -> Option<Price> {
        self.best_bid
    }

    pub open spec fn spec_best_ask(self) -> Option<Price> {
        self.best_ask
    }

    pub open spec fn spec_last_trade_price(self) -> Option<Price> {
        self.last_trade_price
    }

    pub open spec fn spec_last_event_ms(self) -> Option<u64> {
        self.last_event_ms
    }

    /// Both sides of the book are present and within arithmetic range.
    pub open spec fn wf(self) -> bool {
        &&& (self.best_bid matches Some(p) ==> p.wf())
        &&& (self.best_ask matches Some(p) ==> p.wf())
        &&& (self.last_trade_price matches Some(p) ==> p.wf())
    }

    pub open spec fn has_book(self) -> bool {
        self.best_bid is Some && self.best_ask is Some
    }

    /// The mid price, when both sides are present.
    pub open spec fn spec_mid_units(self) -> int
        recommends
            self.has_book(),
    {
        (self.best_bid->Some_0.spec_units() + self.best_ask->Some_0.spec_units()) / 2
    }

    /// Staleness: no event seen, or the last one older than `max_age_ms`.
    pub open spec fn spec_is_stale(self, max_age_ms: u64, now_ms: u64) -> bool {
        match self.last_event_ms {
            None => true,
            Some(t) => now_ms > t && now_ms - t > max_age_ms,
        }
    }

    /// The snapshot after one market event arrives at engine-clock
    /// instant `now_ms`: a top-of-book event replaces both sides, a
    /// trade replaces the last trade price, and either stamps the event
    /// instant.
    pub open spec fn spec_after_event(self, event: MarketEvent, now_ms: u64) -> MarketState {
        match event {
            MarketEvent::TopOfBook { best_bid, best_ask, .. } => MarketState {
                best_bid: Some(best_bid),
                best_ask: Some(best_ask),
                last_event_ms: Some(now_ms),
                ..self
            },
            MarketEvent::Trade { price, .. } => MarketState {
                last_trade_price: Some(price),
                last_event_ms: Some(now_ms),
                ..self
            },
        }
    }

    pub fn new() -> (r: Self)
        ensures
            r.spec_best_bid() is None,
            r.spec_best_ask() is None,
            r.spec_last_trade_price() is None,
            r.spec_last_event_ms() is None,
            r.wf(),
    {
        MarketState { best_bid: None, best_ask: None, last_trade_price: None, last_event_ms: None }
    }

    /// Folds one market event into the snapshot. `now_ms` is the engine
    /// clock at receipt, not the venue timestamp.
    pub fn on_market_event(&mut self, event: &MarketEvent, now_ms: u64)
        requires
            old(self).wf(),
            event matches MarketEvent::Trade { price, .. } ==> price.wf(),
            event matches MarketEvent::TopOfBook { best_bid, best_ask, .. } ==> best_bid.wf()
                && best_ask.wf(),
        ensures
            final(self).wf(),
            *final(self) == old(self).spec_after_event(*event, now_ms),
    {
        self.last_event_ms = Some(now_ms);
        match event {
            MarketEvent::TopOfBook { best_bid, best_ask, .. } => {
                self.best_bid = Some(*best_bid);
                self.best_ask = Some(*best_ask);
            },
            MarketEvent::Trade { price, .. } => {
                self.last_trade_price = Some(*price);
            },
        }
    }

    pub fn best_bid(&self) -> (r: Option<Price>)
        ensures
            r == self.spec_best_bid(),
    {
        self.best_bid
    }

    pub fn best_ask(&self) -> (r: Option<Price>)
        ensures
            r == self.spec_best_ask(),
    {
        self.best_ask
    }

    /// The midpoint of the book, if both sides are present.
    pub fn mid_price(&self) -> (r: Option<Price>)
        requires
            self.wf(),
        ensures
            match r {
                Some(p) => self.has_book() && p.spec_units() == self.spec_mid_units() && p.wf(),
                None => !self.has_book(),
            },
    {
        match (self.best_bid, self.best_ask) {
            (Some(bid), Some(ask)) => Some(Price::new((bid.units() + ask.units()) / 2)),
            _ => None,
        }
    }

    /// Ask minus bid, if both sides are present. Negative when the book
    /// is crossed.
    pub fn spread(&self) -> (r: Option<i64>)
        requires
            self.wf(),
        ensures
            match r {
                Some(s) => self.has_book() && s == self.spec_best_ask()->Some_0.spec_units()
                    - self.spec_best_bid()->Some_0.spec_units(),
                None => !self.has_book(),
            },
    {
        match (self.best_bid, self.best_ask) {
            (Some(bid), Some(ask)) => Some((ask.units() as i64) - (bid.units() as i64)),
            _ => None,
        }
    }

    pub fn last_trade_price(&self) -> (r: Option<Price>)
        ensures
            r == self.spec_last_trade_price(),
    {
        self.last_trade_price
    }

    /// True when no event was ever seen, or the last one is older than
    /// `max_age_ms` on the engine clock.
    pub fn is_stale(&self, max_age_ms: u64, now_ms: u64) -> (r: bool)
        ensures
            r == self.spec_is_stale(max_age_ms, now_ms),
    {
        match self.last_event_ms {
            None => true,
            Some(t) => now_ms > t && now_ms - t > max_age_ms,
        }
    }
}

} // verus!
