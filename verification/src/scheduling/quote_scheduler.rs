//! The ordered policy pipeline deciding whether to evaluate a tick.

use vstd::prelude::*;

use crate::scheduling::policies::in_flight_policy::InFlightPolicy;
use crate::scheduling::policies::min_interval_policy::MinIntervalPolicy;
use crate::scheduling::policies::top_of_book_tick_move_policy::TopOfBookTickMovePolicy;
use crate::scheduling::policies::trading_hours_policy::TradingHoursPolicy;
use crate::scheduling::schedule_context::ScheduleContext;
use crate::scheduling::types::{ScheduleDecision, SkipReason};
use crate::units::MAX_UNITS;

verus! {

/// The scheduler's policies, evaluated in a fixed order: in-flight
/// first (so no new work is planned while an action is pending), then
/// top-of-book movement, trading hours, and the placement rate limit.
/// The first policy that votes to skip short-circuits the rest.
pub struct QuoteScheduler {
    pub in_flight: InFlightPolicy,
    pub tick_move: TopOfBookTickMovePolicy,
    pub trading_hours: TradingHoursPolicy,
    pub min_interval: MinIntervalPolicy,
}

impl QuoteScheduler {
    pub open spec fn wf(self) -> bool {
        self.tick_move.min_ticks <= MAX_UNITS
    }

    pub fn new(
        in_flight: InFlightPolicy,
        tick_move: TopOfBookTickMovePolicy,
        trading_hours: TradingHoursPolicy,
        min_interval: MinIntervalPolicy,
    ) -> (r: Self)
        ensures
            r.in_flight == in_flight,
            r.tick_move == tick_move,
            r.trading_hours == trading_hours,
            r.min_interval == min_interval,
    {
        QuoteScheduler { in_flight, tick_move, trading_hours, min_interval }
    }

    /// Runs the pipeline. While any side has an action in flight the
    /// decision is `Skip(InFlight)` and nothing else is consulted; the
    /// trading-hours verdict depends on the UTC clock, so it is pinned
    /// only up to some valid clock reading.
    pub fn decide(&mut self, ctx: &ScheduleContext<'_>) -> (r: ScheduleDecision)
        requires
            old(self).wf(),
            ctx.wf(),
        ensures
            final(self).wf(),
            final(self).in_flight == old(self).in_flight,
            final(self).trading_hours == old(self).trading_hours,
            final(self).min_interval == old(self).min_interval,
            ctx.order_manager.spec_has_inflight_actions() ==> r == ScheduleDecision::Skip(
                SkipReason::InFlight,
            ) && *final(self) == *old(self),
            !ctx.order_manager.spec_has_inflight_actions() ==> {
                let (tick_decision, tick_move_after) = old(self).tick_move.spec_step(
                    *ctx.market_state,
                    ctx.instrument.spec_trading_rules().price_tick,
                    ctx.now_ms,
                );
                &&& final(self).tick_move == tick_move_after
                &&& match tick_decision {
                    Some(reason) => r == ScheduleDecision::Skip(reason),
                    None => exists|hour: u8, weekday: u8|
                        hour < 24 && weekday < 7 && r == match #[trigger] old(
                            self,
                        ).trading_hours.spec_skip_for_clock(hour, weekday) {
                            Some(reason) => ScheduleDecision::Skip(reason),
                            None => match old(self).min_interval.spec_decision(ctx.now_ms) {
                                Some(reason) => ScheduleDecision::Skip(reason),
                                None => ScheduleDecision::Evaluate,
                            },
                        },
                }
            },
    {
        if let Some(reason) = self.in_flight.should_evaluate(ctx) {
            return ScheduleDecision::Skip(reason);
        }
        if let Some(reason) = self.tick_move.should_evaluate(ctx) {
            return ScheduleDecision::Skip(reason);
        }
        if let Some(reason) = self.trading_hours.should_evaluate(ctx) {
            return ScheduleDecision::Skip(reason);
        }
        if let Some(reason) = self.min_interval.should_evaluate(ctx) {
            return ScheduleDecision::Skip(reason);
        }
        ScheduleDecision::Evaluate
    }
}

} // verus!
