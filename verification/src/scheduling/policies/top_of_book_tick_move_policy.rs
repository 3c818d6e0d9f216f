//! Skip ticks on which the top of book has not moved meaningfully,
//! unless the last evaluation is older than a staleness bound.

use vstd::prelude::*;

use crate::market::market_state::MarketState;
use crate::scheduling::schedule_context::ScheduleContext;
use crate::scheduling::types::SkipReason;
use crate::units::{spec_elapsed_ms, MAX_UNITS};

verus! {

/// Default bound after which a tick is evaluated even without movement,
/// in milliseconds.
pub const DEFAULT_MAX_STALE_MS: u64 = 1_000;

/// The top of book recorded at the last evaluation.
#[derive(Debug, Clone, Copy, PartialEq, Eq, Structural)]
pub struct LastBest {
    pub bid: u64,
    pub ask: u64,
}

/// Remembers the book seen at the last evaluation and requires at least
/// `min_ticks` ticks of movement on either side before evaluating again.
#[derive(Debug, Clone, Copy, PartialEq, Eq, Structural)]
pub struct TopOfBookTickMovePolicy {
    pub min_ticks: u64,
    pub last_best: Option<LastBest>,
    pub last_eval_ms: Option<u64>,
    pub max_stale_ms: u64,
}

impl TopOfBookTickMovePolicy {
    /// Whether the book moved at least `min_ticks * tick` on either side
    /// since the last evaluation. A first evaluation always counts as
    /// moved.
    pub open spec fn spec_moved(self, bid: u64, ask: u64, tick: u64) -> bool {
        match self.last_best {
            None => true,
            Some(prev) => {
                let min_move = self.min_ticks * tick;
                let bid_move = if bid >= prev.bid {
                    bid - prev.bid
                } else {
                    prev.bid - bid
                };
                let ask_move = if ask >= prev.ask {
                    ask - prev.ask
                } else {
                    prev.ask - ask
                };
                bid_move >= min_move || ask_move >= min_move
            },
        }
    }

    /// The verdict and the new policy state for one tick: skip with
    /// `NoBook` when the book is incomplete; evaluate on movement, on
    /// staleness of the last evaluation, or on the very first tick; skip
    /// with `NoMeaningfulChange` otherwise.
    pub open spec fn spec_step(self, market: MarketState, tick: u64, now_ms: u64) -> (
        Option<SkipReason>,
        TopOfBookTickMovePolicy,
    ) {
        if !market.has_book() {
            (Some(SkipReason::NoBook), self)
        } else {
            let bid = market.spec_best_bid()->Some_0.spec_units();
            let ask = market.spec_best_ask()->Some_0.spec_units();
            if self.spec_moved(bid, ask, tick) {
                (
                    None,
                    TopOfBookTickMovePolicy {
                        last_best: Some(LastBest { bid, ask }),
                        last_eval_ms: Some(now_ms),
                        ..self
                    },
                )
            } else {
                match self.last_eval_ms {
                    Some(last_eval) => if spec_elapsed_ms(last_eval, now_ms)
                        >= self.max_stale_ms {
                        (None, TopOfBookTickMovePolicy { last_eval_ms: Some(now_ms), ..self })
                    } else {
                        (Some(SkipReason::NoMeaningfulChange { best_bid: bid, best_ask: ask }), self)
                    },
                    None => (None, TopOfBookTickMovePolicy { last_eval_ms: Some(now_ms), ..self }),
                }
            }
        }
    }

    pub fn new(min_ticks: u64) -> (r: Self)
        ensures
            r.min_ticks == min_ticks,
            r.last_best is None,
            r.last_eval_ms is None,
            r.max_stale_ms == DEFAULT_MAX_STALE_MS,
    {
        TopOfBookTickMovePolicy {
            min_ticks,
            last_best: None,
            last_eval_ms: None,
            max_stale_ms: DEFAULT_MAX_STALE_MS,
        }
    }

    pub fn should_evaluate(&mut self, ctx: &ScheduleContext<'_>) -> (r: Option<SkipReason>)
        requires
            ctx.wf(),
            old(self).min_ticks <= MAX_UNITS,
        ensures
            (r, *final(self)) == old(self).spec_step(
                *ctx.market_state,
                ctx.instrument.spec_trading_rules().price_tick,
                ctx.now_ms,
            ),
    {
        let (bid, ask) = match (ctx.market_state.best_bid(), ctx.market_state.best_ask()) {
            (Some(b), Some(a)) => (b.units(), a.units()),
            _ => { return Some(SkipReason::NoBook) },
        };
        let tick = ctx.instrument.trading_rules().price_tick;
        let moved = match self.last_best {
            Some(prev) => {
                let ghost ticks_bound = self.min_ticks as int;
                proof {
                    assert(ticks_bound * (tick as int) <= (MAX_UNITS as int) * (
                    MAX_UNITS as int)) by (nonlinear_arith)
                        requires
                            0 <= ticks_bound <= MAX_UNITS as int,
                            0 <= tick as int <= MAX_UNITS as int,
                    ;
                }
                let min_move: u128 = (self.min_ticks as u128) * (tick as u128);
                let bid_move: u64 = if bid >= prev.bid {
                    bid - prev.bid
                } else {
                    prev.bid - bid
                };
                let ask_move: u64 = if ask >= prev.ask {
                    ask - prev.ask
                } else {
                    prev.ask - ask
                };
                (bid_move as u128) >= min_move || (ask_move as u128) >= min_move
            },
            None => true,
        };
        if moved {
            self.last_best = Some(LastBest { bid, ask });
            self.last_eval_ms = Some(ctx.now_ms);
            return None;
        }
        if let Some(last_eval) = self.last_eval_ms {
            let dt: u64 = if ctx.now_ms >= last_eval {
                ctx.now_ms - last_eval
            } else {
                0
            };
            if dt >= self.max_stale_ms {
                self.last_eval_ms = Some(ctx.now_ms);
                None
            } else {
                Some(SkipReason::NoMeaningfulChange { best_bid: bid, best_ask: ask })
            }
        } else {
            self.last_eval_ms = Some(ctx.now_ms);
            None
        }
    }
}

} // verus!
