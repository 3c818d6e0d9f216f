//! The risk engine: runs every check, collects all reasons, and
//! classifies the outcome.

use vstd::prelude::*;

use crate::execution::order_action::OrderAction;
use crate::risk::checks::churn_throttle::ChurnThrottleCheck;
use crate::risk::checks::kill_switch::KillSwitchCheck;
use crate::risk::checks::market_freshness::MarketFreshnessCheck;
use crate::risk::checks::market_sanity::{spec_book_ok, MarketSanityCheck};
use crate::market::market_state::MarketState;
use crate::risk::checks::min_edge::MinEdgeCheck;
use crate::risk::context::RiskContext;
use crate::risk::decision::{RiskDecision, RiskHold, RiskReason, RiskRejection};
use crate::types::quote_target::QuoteTarget;

verus! {

/// Some reason in the collection is hard.
pub open spec fn spec_any_hard(reasons: Seq<RiskReason>) -> bool {
    exists|i: int| 0 <= i < reasons.len() && (#[trigger] reasons[i]).is_hard()
}

/// The mandatory checks, run in a fixed order: kill switch, market
/// freshness, market sanity, churn throttle, minimum edge. Every check
/// runs on every evaluation and all reasons are collected.
pub struct RiskEngine {
    pub kill_switch: KillSwitchCheck,
    pub market_freshness: MarketFreshnessCheck,
    pub market_sanity: MarketSanityCheck,
    pub churn_throttle: ChurnThrottleCheck,
    pub min_edge: MinEdgeCheck,
}

impl RiskEngine {
    /// Every reason the checks raise against a market, target and
    /// instant, in check order. `tick` is the instrument's price tick.
    pub open spec fn spec_reasons(
        self,
        market: MarketState,
        target: QuoteTarget,
        now_ms: u64,
        tick: u64,
    ) -> Seq<RiskReason> {
        self.kill_switch.spec_reasons() + self.market_freshness.spec_reasons(market, now_ms)
            + self.market_sanity.spec_reasons(market) + self.churn_throttle.spec_reasons(
            target.bid,
            target.ask,
            now_ms,
            tick,
        ) + self.min_edge.spec_reasons(market)
    }

    pub fn new(
        kill_switch: KillSwitchCheck,
        market_freshness: MarketFreshnessCheck,
        market_sanity: MarketSanityCheck,
        churn_throttle: ChurnThrottleCheck,
        min_edge: MinEdgeCheck,
    ) -> (r: Self)
        ensures
            r.kill_switch == kill_switch,
            r.market_freshness == market_freshness,
            r.market_sanity == market_sanity,
            r.churn_throttle == churn_throttle,
            r.min_edge == min_edge,
    {
        RiskEngine { kill_switch, market_freshness, market_sanity, churn_throttle, min_edge }
    }

    /// Runs every check. No reasons: the target is approved unchanged.
    /// Any hard reason: rejected, with `CancelAll` as the corrective
    /// action. Only soft reasons: held, with no venue actions.
    pub fn evaluate(&mut self, ctx: &RiskContext<'_>, proposed_target: QuoteTarget) -> (r:
        RiskDecision)
        requires
            ctx.wf(),
        ensures
            final(self).kill_switch == old(self).kill_switch,
            final(self).market_freshness == old(self).market_freshness,
            final(self).market_sanity == old(self).market_sanity,
            final(self).min_edge == old(self).min_edge,
            final(self).churn_throttle == old(self).churn_throttle.spec_updated(
                ctx.target.bid,
                ctx.target.ask,
                ctx.now_ms,
                ctx.instrument.spec_trading_rules().price_tick,
            ),
            ({
                let reasons = old(self).spec_reasons(
                    *ctx.market_state,
                    *ctx.target,
                    ctx.now_ms,
                    ctx.instrument.spec_trading_rules().price_tick,
                );
                if reasons.len() == 0 {
                    r == RiskDecision::Approved(proposed_target)
                } else if spec_any_hard(reasons) {
                    r matches RiskDecision::Rejected(rej) && rej.reasons@ == reasons
                        && rej.required_actions@ =~= seq![OrderAction::CancelAll]
                } else {
                    r matches RiskDecision::Hold(hold) && hold.reasons@ == reasons
                }
            }),
    {
        let ghost all = old(self).spec_reasons(
            *ctx.market_state,
            *ctx.target,
            ctx.now_ms,
            ctx.instrument.spec_trading_rules().price_tick,
        );
        let mut reasons: Vec<RiskReason> = Vec::new();
        if let Err(mut v) = self.kill_switch.evaluate(ctx) {
            reasons.append(&mut v);
        }
        if let Err(mut v) = self.market_freshness.evaluate(ctx) {
            reasons.append(&mut v);
        }
        if let Err(mut v) = self.market_sanity.evaluate(ctx) {
            reasons.append(&mut v);
        }
        if let Err(mut v) = self.churn_throttle.evaluate(ctx) {
            reasons.append(&mut v);
        }
        if let Err(mut v) = self.min_edge.evaluate(ctx) {
            reasons.append(&mut v);
        }
        proof {
            assert(reasons@ =~= all);
        }
        if reasons.is_empty() {
            return RiskDecision::Approved(proposed_target);
        }
        let mut is_hard_rule = false;
        let n = reasons.len();
        for i in 0..n
            invariant
                n == reasons@.len(),
                is_hard_rule == exists|j: int|
                    0 <= j < i && (#[trigger] reasons@[j]).is_hard(),
        {
            if reasons[i].hard() {
                is_hard_rule = true;
            }
        }
        if is_hard_rule {
            let mut required_actions: Vec<OrderAction> = Vec::new();
            required_actions.push(OrderAction::CancelAll);
            RiskDecision::Rejected(RiskRejection { reasons, required_actions })
        } else {
            RiskDecision::Hold(RiskHold { reasons })
        }
    }
}

/// A firing freshness or sanity check forces rejection, and the
/// rejection's corrective actions are exactly one `CancelAll`.
pub proof fn lemma_hard_market_failure_forces_cancel_all(
    engine: RiskEngine,
    market: MarketState,
    target: QuoteTarget,
    now_ms: u64,
    tick: u64,
)
    requires
        market.spec_is_stale(engine.market_freshness.max_staleness_ms, now_ms) || !spec_book_ok(
            market,
        ),
    ensures
        spec_any_hard(engine.spec_reasons(market, target, now_ms, tick)),
        engine.spec_reasons(market, target, now_ms, tick).len() > 0,
{
    let reasons = engine.spec_reasons(market, target, now_ms, tick);
    let k = engine.kill_switch.spec_reasons().len() as int;
    if market.spec_is_stale(engine.market_freshness.max_staleness_ms, now_ms) {
        assert(reasons[k] == RiskReason::MarketDataStale);
        assert(reasons[k].is_hard());
    } else {
        let f = engine.market_freshness.spec_reasons(market, now_ms).len() as int;
        assert(reasons[k + f] == RiskReason::CrossedOrInvalidBook);
        assert(reasons[k + f].is_hard());
    }
}

} // verus!
