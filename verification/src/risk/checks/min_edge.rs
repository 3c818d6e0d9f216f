//! Hold while the half-spread is below the instrument's floor.

use vstd::prelude::*;

use crate::market::market_state::MarketState;
use crate::risk::context::RiskContext;
use crate::risk::decision::RiskReason;
use crate::types::instrument::Instrument;
use crate::units::tdiv;

verus! {

/// Fails when the book is incomplete or `(ask - bid) / 2` is below
/// `min_half_spread`.
#[derive(Debug, Clone, Copy, PartialEq, Eq, Structural)]
pub struct MinEdgeCheck {
    pub min_half_spread: u64,
}

impl MinEdgeCheck {
    /// The reasons this check contributes. `ask - bid < 2 *
    /// min_half_spread` is exactly `(ask - bid) / 2 < min_half_spread`
    /// over the reals.
    pub open spec fn spec_reasons(self, market: MarketState) -> Seq<RiskReason> {
        match (market.spec_best_bid(), market.spec_best_ask()) {
            (Some(bid), Some(ask)) => {
                let spread = ask.spec_units() - bid.spec_units();
                if spread < 2 * self.min_half_spread {
                    seq![
                        RiskReason::InsufficientEdge {
                            half_spread: tdiv(spread, 2) as i64,
                            required: self.min_half_spread,
                        },
                    ]
                } else {
                    Seq::empty()
                }
            },
            _ => seq![RiskReason::MissingMarketData],
        }
    }

    pub fn new(min_half_spread: u64) -> (r: Self)
        ensures
            r.min_half_spread == min_half_spread,
    {
        MinEdgeCheck { min_half_spread }
    }

    pub fn for_instrument(instrument: &Instrument) -> (r: Self)
        ensures
            r.min_half_spread == instrument.spec_trading_rules().min_half_spread,
    {
        MinEdgeCheck::new(instrument.trading_rules().min_half_spread)
    }

    pub fn evaluate(&self, ctx: &RiskContext<'_>) -> (r: Result<(), Vec<RiskReason>>)
        requires
            ctx.wf(),
        ensures
            match r {
                Ok(()) => self.spec_reasons(*ctx.market_state) =~= Seq::<RiskReason>::empty(),
                Err(v) => v@ =~= self.spec_reasons(*ctx.market_state) && v@.len() > 0,
            },
    {
        let (bid, ask) = match (ctx.market_state.best_bid(), ctx.market_state.best_ask()) {
            (Some(b), Some(a)) => (b.units(), a.units()),
            _ => {
                let mut v: Vec<RiskReason> = Vec::new();
                v.push(RiskReason::MissingMarketData);
                return Err(v);
            },
        };
        let spread: i64 = (ask as i64) - (bid as i64);
        if (spread as i128) < 2 * (self.min_half_spread as i128) {
            let half: i64 = if spread >= 0 {
                spread / 2
            } else {
                -((-spread) / 2)
            };
            let mut v: Vec<RiskReason> = Vec::new();
            v.push(
                RiskReason::InsufficientEdge { half_spread: half, required: self.min_half_spread },
            );
            Err(v)
        } else {
            Ok(())
        }
    }
}

} // verus!
