//! Reject when the market data is older than the freshness bound.

use vstd::prelude::*;

use crate::market::market_state::MarketState;
use crate::risk::context::RiskContext;
use crate::risk::decision::RiskReason;

verus! {

/// Fails when the last market event is older than `max_staleness_ms`, or
/// when no event was ever seen.
#[derive(Debug, Clone, Copy, PartialEq, Eq, Structural)]
pub struct MarketFreshnessCheck {
    pub max_staleness_ms: u64,
}

impl MarketFreshnessCheck {
    /// The reasons this check contributes.
    pub open spec fn spec_reasons(self, market: MarketState, now_ms: u64) -> Seq<RiskReason> {
        if market.spec_is_stale(self.max_staleness_ms, now_ms) {
            seq![RiskReason::MarketDataStale]
        } else {
            Seq::empty()
        }
    }

    pub fn new(max_staleness_ms: u64) -> (r: Self)
        ensures
            r.max_staleness_ms == max_staleness_ms,
    {
        MarketFreshnessCheck { max_staleness_ms }
    }

    pub fn evaluate(&self, context: &RiskContext<'_>) -> (r: Result<(), Vec<RiskReason>>)
        ensures
            match r {
                Ok(()) => self.spec_reasons(*context.market_state, context.now_ms)
                    =~= Seq::<RiskReason>::empty(),
                Err(v) => v@ =~= self.spec_reasons(*context.market_state, context.now_ms)
                    && v@.len() > 0,
            },
    {
        if context.market_state.is_stale(self.max_staleness_ms, context.now_ms) {
            let mut v: Vec<RiskReason> = Vec::new();
            v.push(RiskReason::MarketDataStale);
            Err(v)
        } else {
            Ok(())
        }
    }
}

} // verus!
