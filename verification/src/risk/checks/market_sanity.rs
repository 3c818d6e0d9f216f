//! Reject a missing, non-positive or crossed book.

use vstd::prelude::*;

use crate::market::market_state::MarketState;
use crate::risk::context::RiskContext;
use crate::risk::decision::RiskReason;

verus! {

/// Both sides of the book are present, positive, and bid < ask.
pub open spec fn spec_book_ok(market: MarketState) -> bool {
    match (market.spec_best_bid(), market.spec_best_ask()) {
        (Some(bid), Some(ask)) => 0 < bid.spec_units() && 0 < ask.spec_units() && bid.spec_units()
            < ask.spec_units(),
        _ => false,
    }
}

/// Fails unless the book is present, positive and uncrossed.
#[derive(Debug, Clone, Copy, PartialEq, Eq, Structural)]
pub struct MarketSanityCheck;

impl MarketSanityCheck {
    /// The reasons this check contributes.
    pub open spec fn spec_reasons(self, market: MarketState) -> Seq<RiskReason> {
        if spec_book_ok(market) {
            Seq::empty()
        } else {
            seq![RiskReason::CrossedOrInvalidBook]
        }
    }

    pub fn new() -> (r: Self) {
        MarketSanityCheck
    }

    pub fn evaluate(&self, context: &RiskContext<'_>) -> (r: Result<(), Vec<RiskReason>>)
        ensures
            match r {
                Ok(()) => self.spec_reasons(*context.market_state) =~= Seq::<RiskReason>::empty(),
                Err(v) => v@ =~= self.spec_reasons(*context.market_state) && v@.len() > 0,
            },
    {
        let ok = match (context.market_state.best_bid(), context.market_state.best_ask()) {
            (Some(bid), Some(ask)) => 0 < bid.units() && 0 < ask.units() && bid.units()
                < ask.units(),
            _ => false,
        };
        if ok {
            Ok(())
        } else {
            let mut v: Vec<RiskReason> = Vec::new();
            v.push(RiskReason::CrossedOrInvalidBook);
            Err(v)
        }
    }
}

} // verus!
