//! The risk engine's verdict and its reasons.

use vstd::prelude::*;

use crate::execution::order_action::{OrderAction, Side};
use crate::types::quote_target::QuoteTarget;

verus! {

/// The verdict on a proposed quote target.
#[derive(Debug, Clone, PartialEq)]
pub enum RiskDecision {
    Approved(QuoteTarget),
    Hold(RiskHold),
    Rejected(RiskRejection),
}

/// Soft failure: no venue actions, the target simply stalls this tick.
#[derive(Debug, Clone, PartialEq)]
pub struct RiskHold {
    pub reasons: Vec<RiskReason>,
}

/// Hard failure: the corrective actions must be executed on the venue.
#[derive(Debug, Clone, PartialEq)]
pub struct RiskRejection {
    pub reasons: Vec<RiskReason>,
    pub required_actions: Vec<OrderAction>,
}

/// Why a check failed. Spreads and exposures are fixed-point units.
#[derive(Debug, Clone, PartialEq)]
pub enum RiskReason {
    KillSwitchEnabled,
    MarketDataStale,
    MissingMarketData,
    CrossedOrInvalidBook,
    ChurnThrottleBid,
    ChurnThrottleAsk,
    InsufficientEdge { half_spread: i64, required: u64 },
    ExposureLimit { side: Side, exposure_quote: i64, max_exposure_in_quote: u64 },
    InsufficientInventory { asset: String, required: u64, available: i64 },
}

impl RiskReason {
    /// Hard reasons force rejection with corrective actions; the rest
    /// only hold the target.
    pub open spec fn is_hard(self) -> bool {
        match self {
            RiskReason::KillSwitchEnabled => true,
            RiskReason::MarketDataStale => true,
            RiskReason::CrossedOrInvalidBook => true,
            _ => false,
        }
    }

    pub fn hard(&self) -> (r: bool)
        ensures
            r == self.is_hard(),
    {
        match self {
            RiskReason::KillSwitchEnabled => true,
            RiskReason::MarketDataStale => true,
            RiskReason::CrossedOrInvalidBook => true,
            _ => false,
        }
    }
}

} // verus!
