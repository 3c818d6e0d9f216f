//! Composes the two per-side managers into one order manager.

use vstd::prelude::*;

use crate::execution::order_action::{OrderAction, Side};
use crate::execution::order_report::OrderReport;
use crate::execution::order_side_manager::{side_actions_ok, OrderSideManager, SideInputs};
use crate::execution::types::OrderSideState;
use crate::types::instrument::Instrument;
use crate::types::quote_target::QuoteTarget;

verus! {

/// The buy-side and sell-side managers.
#[derive(Debug, Clone, PartialEq)]
pub struct OrderManager {
    pub bid_side: OrderSideManager,
    pub ask_side: OrderSideManager,
}

impl Default for OrderManager {
    fn default() -> (r: Self)
        ensures
            r.wf(),
            r.bid_side.state == OrderSideState::NoOrder,
            r.ask_side.state == OrderSideState::NoOrder,
            r.bid_side.last_update_ms is None,
            r.ask_side.last_update_ms is None,
    {
        OrderManager {
            bid_side: OrderSideManager::for_side(Side::Buy),
            ask_side: OrderSideManager::for_side(Side::Sell),
        }
    }
}

impl OrderManager {
    pub open spec fn wf(self) -> bool {
        &&& self.bid_side.wf()
        &&& self.ask_side.wf()
        &&& self.bid_side.side == Side::Buy
        &&& self.ask_side.side == Side::Sell
    }

    /// Any side has an order resting on the venue.
    pub open spec fn spec_has_live_orders(self) -> bool {
        self.bid_side.state is Live || self.ask_side.state is Live
    }

    /// Any side is waiting on the venue (placing or cancelling).
    pub open spec fn spec_has_inflight_actions(self) -> bool {
        ||| self.bid_side.state is Placing
        ||| self.bid_side.state is Cancelling
        ||| self.ask_side.state is Placing
        ||| self.ask_side.state is Cancelling
    }

    /// Routes one report to both sides; each applies it only when the
    /// side matches.
    pub fn on_report(&mut self, report: &OrderReport, now_ms: u64)
        requires
            old(self).wf(),
            report.wf(),
        ensures
            final(self).wf(),
            final(self).bid_side == old(self).bid_side.spec_after_report(*report, now_ms),
            final(self).ask_side == old(self).ask_side.spec_after_report(*report, now_ms),
    {
        self.bid_side.on_report(report, now_ms);
        self.ask_side.on_report(report, now_ms);
    }

    pub fn has_live_orders(&self) -> (r: bool)
        ensures
            r == self.spec_has_live_orders(),
    {
        matches!(self.bid_side.state, OrderSideState::Live { .. }) || matches!(
            self.ask_side.state,
            OrderSideState::Live { .. },
        )
    }

    pub fn has_inflight_actions(&self) -> (r: bool)
        ensures
            r == self.spec_has_inflight_actions(),
    {
        self.bid_side.has_inflight_actions() || self.ask_side.has_inflight_actions()
    }

    /// Diffs the target against both sides and returns the venue actions,
    /// bid-side actions before ask-side actions.
    pub fn actions_for_target(
        &mut self,
        instrument: &Instrument,
        target: &QuoteTarget,
        now_ms: u64,
    ) -> (r: Vec<OrderAction>)
        requires
            old(self).wf(),
            instrument.wf(),
            target.wf(),
        ensures
            final(self).wf(),
            exists|split: int|
                {
                    &&& 0 <= split <= r@.len()
                    &&& side_actions_ok(
                        old(self).bid_side,
                        final(self).bid_side,
                        *instrument,
                        target.bid,
                        now_ms,
                        instrument.spec_trading_rules().price_tick,
                        #[trigger] r@.subrange(0, split),
                    )
                    &&& side_actions_ok(
                        old(self).ask_side,
                        final(self).ask_side,
                        *instrument,
                        target.ask,
                        now_ms,
                        instrument.spec_trading_rules().price_tick,
                        r@.subrange(split, r@.len() as int),
                    )
                },
    {
        let price_tick = instrument.trading_rules().price_tick;
        let mut actions = self.bid_side.actions_for_target(
            SideInputs::new(instrument, now_ms, price_tick, target.bid),
        );
        let ghost bid_seq = actions@;
        let ghost split = actions@.len() as int;
        let mut ask_actions = self.ask_side.actions_for_target(
            SideInputs::new(instrument, now_ms, price_tick, target.ask),
        );
        let ghost ask_seq = ask_actions@;
        actions.append(&mut ask_actions);
        proof {
            assert(actions@.subrange(0, split) =~= bid_seq);
            assert(actions@.subrange(split, actions@.len() as int) =~= ask_seq);
        }
        actions
    }
}

} // verus!
