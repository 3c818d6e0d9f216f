//! Hold a side whose price changed again too soon after its last
//! recorded update.

use vstd::prelude::*;

use crate::risk::context::RiskContext;
use crate::risk::decision::RiskReason;
use crate::types::quote::Quote;
use crate::units::spec_elapsed_ms;

verus! {

/// Tracks, per side, the instant and price of the last recorded update.
/// A side whose price moved by at least `max(tick / 2, 1)` units within
/// the minimum interval is throttled; a throttled change does not update
/// the record.
#[derive(Debug, Clone, Copy, PartialEq, Eq, Structural)]
pub struct ChurnThrottleCheck {
    pub min_update_interval_ms: u64,
    pub last_bid_update_ms: Option<u64>,
    pub last_ask_update_ms: Option<u64>,
    pub last_bid_price: Option<u64>,
    pub last_ask_price: Option<u64>,
}

impl ChurnThrottleCheck {
    /// A price counts as changed when it differs from the recorded one
    /// by at least half a tick, but never less than one unit.
    pub open spec fn spec_moved_enough(previous: Option<u64>, next: u64, tick: u64) -> bool {
        match previous {
            None => true,
            Some(value) => {
                let eps = if tick / 2 > 1 {
                    tick / 2
                } else {
                    1
                };
                let diff = if next >= value {
                    next - value
                } else {
                    value - next
                };
                diff >= eps
            },
        }
    }

    pub open spec fn spec_too_soon(now_ms: u64, last_update: Option<u64>, min_interval: u64,
    ) -> bool {
        match last_update {
            None => false,
            Some(previous) => spec_elapsed_ms(previous, now_ms) < min_interval,
        }
    }

    /// The bid side is throttled on this evaluation.
    pub open spec fn spec_bid_fires(self, bid: Option<Quote>, now_ms: u64, tick: u64) -> bool {
        bid matches Some(q) && Self::spec_moved_enough(
            self.last_bid_price,
            q.price.spec_units(),
            tick,
        ) && Self::spec_too_soon(now_ms, self.last_bid_update_ms, self.min_update_interval_ms)
    }

    /// The ask side is throttled on this evaluation.
    pub open spec fn spec_ask_fires(self, ask: Option<Quote>, now_ms: u64, tick: u64) -> bool {
        ask matches Some(q) && Self::spec_moved_enough(
            self.last_ask_price,
            q.price.spec_units(),
            tick,
        ) && Self::spec_too_soon(now_ms, self.last_ask_update_ms, self.min_update_interval_ms)
    }

    /// The reasons this check contributes: bid first, then ask.
    pub open spec fn spec_reasons(self, bid: Option<Quote>, ask: Option<Quote>, now_ms: u64,
        tick: u64) -> Seq<RiskReason> {
        let b: Seq<RiskReason> = if self.spec_bid_fires(bid, now_ms, tick) {
            seq![RiskReason::ChurnThrottleBid]
        } else {
            Seq::empty()
        };
        let a: Seq<RiskReason> = if self.spec_ask_fires(ask, now_ms, tick) {
            seq![RiskReason::ChurnThrottleAsk]
        } else {
            Seq::empty()
        };
        b + a
    }

    /// The check's state after one evaluation: a side's record advances
    /// only when its price changed and the throttle did not fire.
    pub open spec fn spec_updated(self, bid: Option<Quote>, ask: Option<Quote>, now_ms: u64,
        tick: u64) -> ChurnThrottleCheck {
        let s1 = if bid matches Some(q) && Self::spec_moved_enough(
            self.last_bid_price,
            q.price.spec_units(),
            tick,
        ) && !Self::spec_too_soon(now_ms, self.last_bid_update_ms, self.min_update_interval_ms) {
            ChurnThrottleCheck {
                last_bid_update_ms: Some(now_ms),
                last_bid_price: Some(bid->Some_0.price.spec_units()),
                ..self
            }
        } else {
            self
        };
        if ask matches Some(q) && Self::spec_moved_enough(
            s1.last_ask_price,
            q.price.spec_units(),
            tick,
        ) && !Self::spec_too_soon(now_ms, s1.last_ask_update_ms, s1.min_update_interval_ms) {
            ChurnThrottleCheck {
                last_ask_update_ms: Some(now_ms),
                last_ask_price: Some(ask->Some_0.price.spec_units()),
                ..s1
            }
        } else {
            s1
        }
    }

    pub fn new(min_update_interval_ms: u64) -> (r: Self)
        ensures
            r.min_update_interval_ms == min_update_interval_ms,
            r.last_bid_update_ms is None,
            r.last_ask_update_ms is None,
            r.last_bid_price is None,
            r.last_ask_price is None,
    {
        ChurnThrottleCheck {
            min_update_interval_ms,
            last_bid_update_ms: None,
            last_ask_update_ms: None,
            last_bid_price: None,
            last_ask_price: None,
        }
    }

    fn is_too_soon(now_ms: u64, last_update: Option<u64>, min_interval_ms: u64) -> (r: bool)
        ensures
            r == Self::spec_too_soon(now_ms, last_update, min_interval_ms),
    {
        match last_update {
            None => false,
            Some(previous) => {
                let dt: u64 = if now_ms >= previous {
                    now_ms - previous
                } else {
                    0
                };
                dt < min_interval_ms
            },
        }
    }

    fn moved_enough(previous: Option<u64>, next: u64, tick: u64) -> (r: bool)
        ensures
            r == Self::spec_moved_enough(previous, next, tick),
    {
        match previous {
            None => true,
            Some(value) => {
                let eps: u64 = if tick / 2 > 1 {
                    tick / 2
                } else {
                    1
                };
                let diff: u64 = if next >= value {
                    next - value
                } else {
                    value - next
                };
                diff >= eps
            },
        }
    }

    pub fn evaluate(&mut self, context: &RiskContext<'_>) -> (r: Result<(), Vec<RiskReason>>)
        ensures
            *final(self) == old(self).spec_updated(
                context.target.bid,
                context.target.ask,
                context.now_ms,
                context.instrument.spec_trading_rules().price_tick,
            ),
            match r {
                Ok(()) => old(self).spec_reasons(
                    context.target.bid,
                    context.target.ask,
                    context.now_ms,
                    context.instrument.spec_trading_rules().price_tick,
                ) =~= Seq::<RiskReason>::empty(),
                Err(v) => v@ =~= old(self).spec_reasons(
                    context.target.bid,
                    context.target.ask,
                    context.now_ms,
                    context.instrument.spec_trading_rules().price_tick,
                ) && v@.len() > 0,
            },
    {
        let now_ms = context.now_ms;
        let tick = context.instrument.trading_rules().price_tick;
        let mut reasons: Vec<RiskReason> = Vec::new();
        if let Some(bid) = &context.target.bid {
            let bid_price = bid.price.units();
            let bid_changed = Self::moved_enough(self.last_bid_price, bid_price, tick);
            if bid_changed && Self::is_too_soon(
                now_ms,
                self.last_bid_update_ms,
                self.min_update_interval_ms,
            ) {
                reasons.push(RiskReason::ChurnThrottleBid);
            } else if bid_changed {
                self.last_bid_update_ms = Some(now_ms);
                self.last_bid_price = Some(bid_price);
            }
        }
        if let Some(ask) = &context.target.ask {
            let ask_price = ask.price.units();
            let ask_changed = Self::moved_enough(self.last_ask_price, ask_price, tick);
            if ask_changed && Self::is_too_soon(
                now_ms,
                self.last_ask_update_ms,
                self.min_update_interval_ms,
            ) {
                reasons.push(RiskReason::ChurnThrottleAsk);
            } else if ask_changed {
                self.last_ask_update_ms = Some(now_ms);
                self.last_ask_price = Some(ask_price);
            }
        }
        if reasons.is_empty() {
            Ok(())
        } else {
            Err(reasons)
        }
    }
}

} // verus!
