//! Hold a side whose fill would push the exposure past its cap.

use vstd::prelude::*;

use crate::execution::order_action::Side;
use crate::market::market_state::MarketState;
use crate::risk::context::RiskContext;
use crate::risk::decision::RiskReason;
use crate::types::inventory::Inventory;
use crate::types::quote_target::QuoteTarget;
use crate::units::{add_saturating, sat_add, sat_i64, scale_signed, tdiv, SCALE};

verus! {

/// Fails a side whose projected exposure after a full fill would exceed
/// the cap; needs a mid price to value the position.
#[derive(Debug, Clone, Copy, PartialEq, Eq, Structural)]
pub struct ExposureLimitCheck {
    pub max_exposure_in_quote: u64,
}

impl ExposureLimitCheck {
    /// The projected exposure of the position after a full fill of
    /// `quantity_delta`, valued at `mid`, clamped into the `i64` range.
    pub open spec fn spec_projected_exposure(base: int, quantity_delta: int, mid: int) -> int {
        sat_i64(tdiv(sat_add(base, quantity_delta) * mid, SCALE as int))
    }

    /// The reasons this check contributes: bid first, then ask.
    pub open spec fn spec_reasons(
        self,
        market: MarketState,
        target: QuoteTarget,
        inventory: Inventory,
    ) -> Seq<RiskReason> {
        if !market.has_book() {
            seq![RiskReason::MissingMarketData]
        } else {
            let mid = market.spec_mid_units();
            let b: Seq<RiskReason> = match target.bid {
                Some(bid) => {
                    let exposure = Self::spec_projected_exposure(
                        inventory.base as int,
                        bid.quantity as int,
                        mid,
                    );
                    if exposure > self.max_exposure_in_quote {
                        seq![
                            RiskReason::ExposureLimit {
                                side: Side::Buy,
                                exposure_quote: exposure as i64,
                                max_exposure_in_quote: self.max_exposure_in_quote,
                            },
                        ]
                    } else {
                        Seq::empty()
                    }
                },
                None => Seq::empty(),
            };
            let a: Seq<RiskReason> = match target.ask {
                Some(ask) => {
                    let exposure = Self::spec_projected_exposure(
                        inventory.base as int,
                        -(ask.quantity as int),
                        mid,
                    );
                    if exposure < -(self.max_exposure_in_quote as int) {
                        seq![
                            RiskReason::ExposureLimit {
                                side: Side::Sell,
                                exposure_quote: exposure as i64,
                                max_exposure_in_quote: self.max_exposure_in_quote,
                            },
                        ]
                    } else {
                        Seq::empty()
                    }
                },
                None => Seq::empty(),
            };
            b + a
        }
    }

    pub fn new(max_exposure_in_quote: u64) -> (r: Self)
        ensures
            r.max_exposure_in_quote == max_exposure_in_quote,
    {
        ExposureLimitCheck { max_exposure_in_quote }
    }

    pub fn evaluate(&self, ctx: &RiskContext<'_>) -> (r: Result<(), Vec<RiskReason>>)
        requires
            ctx.wf(),
        ensures
            match r {
                Ok(()) => self.spec_reasons(*ctx.market_state, *ctx.target, ctx.inventory)
                    =~= Seq::<RiskReason>::empty(),
                Err(v) => v@ =~= self.spec_reasons(*ctx.market_state, *ctx.target, ctx.inventory)
                    && v@.len() > 0,
            },
    {
        let mid = match ctx.market_state.mid_price() {
            Some(mid) => mid,
            None => {
                let mut v: Vec<RiskReason> = Vec::new();
                v.push(RiskReason::MissingMarketData);
                return Err(v);
            },
        };
        let mut reasons: Vec<RiskReason> = Vec::new();
        if let Some(bid) = &ctx.target.bid {
            let projected_base = add_saturating(ctx.inventory.base, bid.quantity as i64);
            let exposure_quote = scale_signed(projected_base, mid.units());
            if exposure_quote > 0 && (exposure_quote as u64) > self.max_exposure_in_quote {
                reasons.push(
                    RiskReason::ExposureLimit {
                        side: Side::Buy,
                        exposure_quote,
                        max_exposure_in_quote: self.max_exposure_in_quote,
                    },
                );
            }
        }
        if let Some(ask) = &ctx.target.ask {
            let projected_base = add_saturating(ctx.inventory.base, -(ask.quantity as i64));
            let exposure_quote = scale_signed(projected_base, mid.units());
            if (exposure_quote as i128) < -(self.max_exposure_in_quote as i128) {
                reasons.push(
                    RiskReason::ExposureLimit {
                        side: Side::Sell,
                        exposure_quote,
                        max_exposure_in_quote: self.max_exposure_in_quote,
                    },
                );
            }
        }
        if reasons.is_empty() {
            Ok(())
        } else {
            Err(reasons)
        }
    }
}

} // verus!
