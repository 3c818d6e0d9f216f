//! The per-tick decision pipeline of the event loop.
//!
//! The surrounding process selects between market events and execution
//! reports and performs the venue I/O; everything it decides on a tick
//! is here: market state, signals, scheduler, strategy, risk, and the
//! order manager, run in that order to completion.

use vstd::prelude::*;

use crate::events::MarketEvent;
use crate::execution::order_action::OrderAction;
use crate::execution::order_manager::OrderManager;
use crate::execution::order_report::OrderReport;
use crate::execution::order_side_manager::side_actions_ok;
use crate::market::market_state::MarketState;
use crate::risk::context::RiskContext;
use crate::risk::decision::{RiskDecision, RiskHold, RiskRejection};
use crate::risk::engine::RiskEngine;
use crate::scenario::EngineStrategy;
use crate::scheduling::quote_scheduler::QuoteScheduler;
use crate::scheduling::schedule_context::ScheduleContext;
use crate::scheduling::types::{ScheduleDecision, SkipReason};
use crate::signals::signal_state::SignalState;
use crate::types::instrument::Instrument;
use crate::types::inventory::Inventory;
use crate::types::quote_target::{NoQuoteReason, QuoteTarget};

verus! {

/// What one market tick decided.
#[derive(Debug, Clone, PartialEq)]
pub enum TickOutcome {
    /// The scheduler skipped the tick; no strategy ran.
    Skipped(SkipReason),
    /// The strategy declined to quote; no venue action.
    NoQuote(NoQuoteReason),
    /// The risk engine held the target; no venue action.
    Held(RiskHold),
    /// A hard risk reason fired; the corrective actions must be executed.
    Rejected(RiskRejection),
    /// The approved target's diff against the resting orders; execute
    /// when non-empty.
    Actions(Vec<OrderAction>),
}

/// The verified core of the event loop: all engine state and the
/// decision for each market tick and each execution report.
pub struct Engine {
    pub instrument: Instrument,
    pub market_state: MarketState,
    pub signal_state: SignalState,
    pub scheduler: QuoteScheduler,
    pub risk_engine: RiskEngine,
    pub order_manager: OrderManager,
    pub strategy: EngineStrategy,
    /// The last approved quote target, kept for specification only.
    pub last_target: Ghost<QuoteTarget>,
    /// Where the last action list splits between bid-side and ask-side
    /// actions, kept for specification only.
    pub last_split: Ghost<int>,
    /// The UTC hour and weekday the trading-hours policy read on the
    /// last scheduled tick, kept for specification only.
    pub last_clock: Ghost<(u8, u8)>,
}

/// The stages behind the scheduler did not move: the strategy, the risk
/// engine and the order manager are as they were.
pub open spec fn spec_downstream_unchanged(pre: Engine, post: Engine) -> bool {
    &&& post.strategy == pre.strategy
    &&& post.risk_engine == pre.risk_engine
    &&& post.order_manager == pre.order_manager
}

impl Engine {
    pub open spec fn wf(self) -> bool {
        &&& self.instrument.wf()
        &&& self.market_state.wf()
        &&& self.signal_state.wf()
        &&& self.scheduler.wf()
        &&& self.order_manager.wf()
        &&& self.strategy.wf()
    }

    pub fn new(
        instrument: Instrument,
        signal_state: SignalState,
        scheduler: QuoteScheduler,
        risk_engine: RiskEngine,
        strategy: EngineStrategy,
    ) -> (r: Self)
        requires
            instrument.wf(),
            signal_state.wf(),
            scheduler.wf(),
            strategy.wf(),
        ensures
            r.wf(),
            r.market_state.spec_best_bid() is None,
            r.market_state.spec_best_ask() is None,
            r.market_state.spec_last_event_ms() is None,
            r.order_manager.bid_side.state is NoOrder,
            r.order_manager.ask_side.state is NoOrder,
    {
        Engine {
            instrument,
            market_state: MarketState::new(),
            signal_state,
            scheduler,
            risk_engine,
            order_manager: Default::default(),
            strategy,
            last_target: Ghost(QuoteTarget { bid: None, ask: None }),
            last_split: Ghost(0int),
            last_clock: Ghost((0u8, 0u8)),
        }
    }

    /// Absorbs one execution report: both order sides and the placement
    /// rate limit observe it.
    pub fn on_report(&mut self, report: &OrderReport, now_ms: u64)
        requires
            old(self).wf(),
            report.wf(),
        ensures
            final(self).wf(),
            final(self).order_manager.bid_side == old(self).order_manager.bid_side.spec_after_report(
                *report,
                now_ms,
            ),
            final(self).order_manager.ask_side == old(self).order_manager.ask_side.spec_after_report(
                *report,
                now_ms,
            ),
            final(self).scheduler.min_interval.last_order_ms == if *report is Placed {
                Some(now_ms)
            } else {
                old(self).scheduler.min_interval.last_order_ms
            },
            final(self).market_state == old(self).market_state,
            final(self).signal_state == old(self).signal_state,
    {
        self.order_manager.on_report(report, now_ms);
        self.scheduler.min_interval.on_report(report, now_ms);
    }

    /// Runs one market tick to completion: the event is folded into the
    /// market state, the signals advance, and then scheduler, strategy,
    /// risk engine and order manager run in order, each pinned to its
    /// own specification. Venue actions come out only through an
    /// approval or a hard rejection, a rejection's corrective actions
    /// are exactly one `CancelAll`, and an approved target is post-only
    /// safe against the updated book.
    pub fn on_market_event(&mut self, event: &MarketEvent, inventory: Inventory, now_ms: u64) -> (r:
        TickOutcome)
        requires
            old(self).wf(),
            event matches MarketEvent::Trade { price, .. } ==> price.wf(),
            event matches MarketEvent::TopOfBook { best_bid, best_ask, .. } ==> best_bid.wf()
                && best_ask.wf(),
        ensures
            final(self).wf(),
            final(self).instrument == old(self).instrument,
            final(self).market_state == old(self).market_state.spec_after_event(*event, now_ms),
            final(self).signal_state == old(self).signal_state.spec_updated(
                old(self).market_state.spec_after_event(*event, now_ms),
                now_ms,
            ),
            final(self).scheduler.in_flight == old(self).scheduler.in_flight,
            final(self).scheduler.trading_hours == old(self).scheduler.trading_hours,
            final(self).scheduler.min_interval == old(self).scheduler.min_interval,
            old(self).order_manager.spec_has_inflight_actions() ==> r == TickOutcome::Skipped(
                SkipReason::InFlight,
            ) && final(self).scheduler.tick_move == old(self).scheduler.tick_move
                && spec_downstream_unchanged(*old(self), *final(self)),
            !old(self).order_manager.spec_has_inflight_actions() ==> ({
                let market = old(self).market_state.spec_after_event(*event, now_ms);
                let signals = old(self).signal_state.spec_updated(market, now_ms);
                let tick = old(self).instrument.spec_trading_rules().price_tick;
                let (tick_decision, tick_move_after) = old(self).scheduler.tick_move.spec_step(
                    market,
                    tick,
                    now_ms,
                );
                &&& final(self).scheduler.tick_move == tick_move_after
                &&& match tick_decision {
                    Some(reason) => r == TickOutcome::Skipped(reason)
                        && spec_downstream_unchanged(*old(self), *final(self)),
                    None => {
                        let (hour, weekday) = final(self).last_clock@;
                        &&& hour < 24
                        &&& weekday < 7
                        &&& match old(self).scheduler.trading_hours.spec_skip_for_clock(
                            hour,
                            weekday,
                        ) {
                            Some(reason) => r == TickOutcome::Skipped(reason)
                                && spec_downstream_unchanged(*old(self), *final(self)),
                            None => match old(self).scheduler.min_interval.spec_decision(now_ms) {
                                Some(reason) => r == TickOutcome::Skipped(reason)
                                    && spec_downstream_unchanged(*old(self), *final(self)),
                                None => {
                                    &&& final(self).strategy == old(self).strategy.spec_updated(
                                        market,
                                        signals,
                                    )
                                    &&& match old(self).strategy.spec_result(
                                        market,
                                        signals,
                                        inventory,
                                    ) {
                                        Err(reason) => r == TickOutcome::NoQuote(reason)
                                            && final(self).risk_engine == old(self).risk_engine
                                            && final(self).order_manager == old(
                                            self,
                                        ).order_manager,
                                        Ok(target) => {
                                            let reasons = old(self).risk_engine.spec_reasons(
                                                market,
                                                target,
                                                now_ms,
                                                tick,
                                            );
                                            &&& final(self).risk_engine.kill_switch == old(
                                                self,
                                            ).risk_engine.kill_switch
                                            &&& final(self).risk_engine.market_freshness == old(
                                                self,
                                            ).risk_engine.market_freshness
                                            &&& final(self).risk_engine.market_sanity == old(
                                                self,
                                            ).risk_engine.market_sanity
                                            &&& final(self).risk_engine.min_edge == old(
                                                self,
                                            ).risk_engine.min_edge
                                            &&& final(self).risk_engine.churn_throttle == old(
                                                self,
                                            ).risk_engine.churn_throttle.spec_updated(
                                                target.bid,
                                                target.ask,
                                                now_ms,
                                                tick,
                                            )
                                            &&& if reasons.len() == 0 {
                                                r is Actions && final(self).last_target@ == target
                                            } else if crate::risk::engine::spec_any_hard(
                                                reasons,
                                            ) {
                                                (r matches TickOutcome::Rejected(rej)
                                                    && rej.reasons@ == reasons) && final(self).order_manager
                                                    == old(self).order_manager
                                            } else {
                                                (r matches TickOutcome::Held(hold)
                                                    && hold.reasons@ == reasons) && final(self).order_manager
                                                    == old(self).order_manager
                                            }
                                        },
                                    }
                                },
                            },
                        }
                    },
                }
            }),
            r matches TickOutcome::Rejected(rej) ==> rej.required_actions@ =~= seq![
                OrderAction::CancelAll,
            ] && rej.reasons@.len() > 0,
            r matches TickOutcome::Held(hold) ==> hold.reasons@.len() > 0
                && !crate::risk::engine::spec_any_hard(hold.reasons@),
            !(r is Actions) ==> final(self).order_manager == old(self).order_manager,
            r is Actions ==> ({
                let market = old(self).market_state.spec_after_event(*event, now_ms);
                let tick = old(self).strategy.spec_tick() as int;
                &&& market.has_book()
                &&& (final(self).last_target@.bid matches Some(q) ==> q.price.spec_units()
                    <= market.spec_best_ask()->Some_0.spec_units() - tick)
                &&& (final(self).last_target@.ask matches Some(q) ==> q.price.spec_units()
                    >= market.spec_best_bid()->Some_0.spec_units() + tick)
            }),
            r matches TickOutcome::Actions(actions) ==> {
                let split = final(self).last_split@;
                &&& 0 <= split <= actions@.len()
                &&& side_actions_ok(
                    old(self).order_manager.bid_side,
                    final(self).order_manager.bid_side,
                    old(self).instrument,
                    final(self).last_target@.bid,
                    now_ms,
                    old(self).instrument.spec_trading_rules().price_tick,
                    actions@.subrange(0, split),
                )
                &&& side_actions_ok(
                    old(self).order_manager.ask_side,
                    final(self).order_manager.ask_side,
                    old(self).instrument,
                    final(self).last_target@.ask,
                    now_ms,
                    old(self).instrument.spec_trading_rules().price_tick,
                    actions@.subrange(split, actions@.len() as int),
                )
            },
    {
        self.market_state.on_market_event(event, now_ms);
        self.signal_state.update(&self.market_state, now_ms);
        let ghost market_g = self.market_state;
        let ghost sched_pre = self.scheduler;
        let ghost inflight_pre = self.order_manager.spec_has_inflight_actions();
        let scheduler_context = ScheduleContext {
            now_ms,
            instrument: &self.instrument,
            market_state: &self.market_state,
            order_manager: &self.order_manager,
        };
        let decision = self.scheduler.decide(&scheduler_context);
        proof {
            let tick = self.instrument.spec_trading_rules().price_tick;
            if !inflight_pre && sched_pre.tick_move.spec_step(market_g, tick, now_ms).0 is None {
                let (hour, weekday) = choose|hour: u8, weekday: u8|
                    hour < 24 && weekday < 7 && decision == (
                    match #[trigger] sched_pre.trading_hours.spec_skip_for_clock(hour, weekday) {
                        Some(reason) => ScheduleDecision::Skip(reason),
                        None => match sched_pre.min_interval.spec_decision(now_ms) {
                            Some(reason) => ScheduleDecision::Skip(reason),
                            None => ScheduleDecision::Evaluate,
                        },
                    });
                self.last_clock@ = (hour, weekday);
            }
        }
        match decision {
            ScheduleDecision::Evaluate => {},
            ScheduleDecision::Skip(reason) => { return TickOutcome::Skipped(reason) },
        }
        let target = match self.strategy.compute_target(
            &self.market_state,
            &self.signal_state,
            inventory,
        ) {
            Ok(target) => target,
            Err(reason) => { return TickOutcome::NoQuote(reason) },
        };
        let risk_context = RiskContext {
            instrument: &self.instrument,
            market_state: &self.market_state,
            target: &target,
            inventory,
            now_ms,
        };
        match self.risk_engine.evaluate(&risk_context, target) {
            RiskDecision::Approved(approved_target) => {
                proof {
                    self.last_target@ = approved_target;
                }
                let ghost om_pre = self.order_manager;
                let actions = self.order_manager.actions_for_target(
                    &self.instrument,
                    &approved_target,
                    now_ms,
                );
                proof {
                    let tick = self.instrument.spec_trading_rules().price_tick;
                    let split = choose|split: int|
                        {
                            &&& 0 <= split <= actions@.len()
                            &&& side_actions_ok(
                                om_pre.bid_side,
                                self.order_manager.bid_side,
                                self.instrument,
                                approved_target.bid,
                                now_ms,
                                tick,
                                #[trigger] actions@.subrange(0, split),
                            )
                            &&& side_actions_ok(
                                om_pre.ask_side,
                                self.order_manager.ask_side,
                                self.instrument,
                                approved_target.ask,
                                now_ms,
                                tick,
                                actions@.subrange(split, actions@.len() as int),
                            )
                        };
                    self.last_split@ = split;
                }
                TickOutcome::Actions(actions)
            },
            RiskDecision::Hold(hold) => TickOutcome::Held(hold),
            RiskDecision::Rejected(rejection) => TickOutcome::Rejected(rejection),
        }
    }
}

} // verus!
