//! Hold a side the account could not fund.

use vstd::prelude::*;

use crate::risk::context::RiskContext;
use crate::risk::decision::RiskReason;
use crate::types::inventory::Inventory;
use crate::types::quote_target::QuoteTarget;
use crate::units::SCALE;

verus! {

/// Fails the bid when its notional exceeds the quote cash, and the ask
/// when its quantity exceeds the base position.
#[derive(Debug, Clone, Copy, PartialEq, Eq, Structural)]
pub struct InventoryAvailableCheck;

impl InventoryAvailableCheck {
    /// The bid's notional in quote units: `price * quantity`, rescaled.
    pub open spec fn spec_bid_notional(price: int, quantity: int) -> int {
        (price * quantity) / (SCALE as int)
    }

    /// A saturated `u64` rendering of a non-negative amount, for the
    /// reason payload.
    pub open spec fn spec_sat_u64(x: int) -> u64 {
        if x > u64::MAX as int {
            u64::MAX
        } else {
            x as u64
        }
    }

    /// The bid is unfunded: its notional exceeds the quote cash.
    pub open spec fn spec_bid_fires(target: QuoteTarget, inventory: Inventory) -> bool {
        target.bid matches Some(bid) && Self::spec_bid_notional(
            bid.price.spec_units() as int,
            bid.quantity as int,
        ) > inventory.quote
    }

    /// The ask is unfunded: its quantity exceeds the base position.
    pub open spec fn spec_ask_fires(target: QuoteTarget, inventory: Inventory) -> bool {
        target.ask matches Some(ask) && ask.quantity > inventory.base
    }

    pub fn new() -> (r: Self) {
        InventoryAvailableCheck
    }

    /// Errs exactly when a side is unfunded, with one reason per such
    /// side, bid first: the asset short of funds, the amount needed, and
    /// the amount held.
    pub fn evaluate(&self, ctx: &RiskContext<'_>) -> (r: Result<(), Vec<RiskReason>>)
        requires
            ctx.wf(),
        ensures
            r is Err <==> (Self::spec_bid_fires(*ctx.target, ctx.inventory)
                || Self::spec_ask_fires(*ctx.target, ctx.inventory)),
            r matches Err(v) ==> {
                let bid_fires = Self::spec_bid_fires(*ctx.target, ctx.inventory);
                let ask_fires = Self::spec_ask_fires(*ctx.target, ctx.inventory);
                &&& v@.len() == (if bid_fires { 1int } else { 0int }) + (if ask_fires { 1int } else { 0int })
                &&& bid_fires ==> (v@[0] matches RiskReason::InsufficientInventory {
                    asset,
                    required,
                    available,
                } && asset@ == ctx.instrument.spec_quote() && required == Self::spec_sat_u64(
                    Self::spec_bid_notional(
                        ctx.target.bid->Some_0.price.spec_units() as int,
                        ctx.target.bid->Some_0.quantity as int,
                    ),
                ) && available == ctx.inventory.quote)
                &&& ask_fires ==> (v@[v@.len() - 1] matches RiskReason::InsufficientInventory {
                    asset,
                    required,
                    available,
                } && asset@ == ctx.instrument.spec_base() && required
                    == ctx.target.ask->Some_0.quantity && available == ctx.inventory.base)
            },
    {
        let mut reasons: Vec<RiskReason> = Vec::new();
        if let Some(bid) = &ctx.target.bid {
            proof {
                assert((bid.price.spec_units() as int) * (bid.quantity as int) <= (
                crate::units::MAX_UNITS as int) * (crate::units::MAX_UNITS as int))
                    by (nonlinear_arith)
                    requires
                        0 <= bid.price.spec_units() as int <= crate::units::MAX_UNITS as int,
                        0 <= bid.quantity as int <= crate::units::MAX_UNITS as int,
                ;
            }
            let notional: u128 = (bid.price.units() as u128) * (bid.quantity as u128) / (
            SCALE as u128);
            let unfunded = if ctx.inventory.quote < 0 {
                true
            } else {
                notional > (ctx.inventory.quote as u128)
            };
            if unfunded {
                let required: u64 = if notional > (u64::MAX as u128) {
                    u64::MAX
                } else {
                    notional as u64
                };
                reasons.push(
                    RiskReason::InsufficientInventory {
                        asset: string_of(ctx.instrument.quote()),
                        required,
                        available: ctx.inventory.quote,
                    },
                );
            }
        }
        if let Some(ask) = &ctx.target.ask {
            let unfunded = if ctx.inventory.base < 0 {
                true
            } else {
                ask.quantity > (ctx.inventory.base as u64)
            };
            if unfunded {
                reasons.push(
                    RiskReason::InsufficientInventory {
                        asset: string_of(ctx.instrument.base()),
                        required: ask.quantity,
                        available: ctx.inventory.base,
                    },
                );
            }
        }
        if reasons.is_empty() {
            Ok(())
        } else {
            Err(reasons)
        }
    }
}

fn string_of(s: &str) -> (r: String)
    ensures
        r@ == s@,
{
    String::from_str(s)
}

} // verus!
