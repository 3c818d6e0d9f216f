//! The strategy's desired two-sided quote, or the reason there is none.

use vstd::prelude::*;

use crate::types::quote::Quote;

verus! {

/// Desired resting quotes; either or both sides may be absent.
#[derive(Debug, Clone, Copy, PartialEq)]
pub struct QuoteTarget {
    pub bid: Option<Quote>,
    pub ask: Option<Quote>,
}

impl QuoteTarget {
    pub open spec fn wf(self) -> bool {
        &&& (self.bid matches Some(q) ==> q.wf())
        &&& (self.ask matches Some(q) ==> q.wf())
    }
}

/// A strategy's first-class negative result: why no quote is desired on
/// this tick. Deviations, thresholds and exposures are in fixed-point
/// units of the quote currency.
#[derive(Debug, Clone, PartialEq)]
pub enum NoQuoteReason {
    MissingTopOfBook,
    MissingFairPrice,
    MissingMid,
    MissingEma,
    MissingSlowEma,
    InsufficientInventory { asset: String, required: u64, available: i64 },
    BelowEntryThreshold { deviation: u64, threshold: u64 },
    BelowTrendSlopeThreshold { slope: u64, threshold: u64 },
    TooLongExposure { exposure_quote: i64, max_exposure_quote: u64 },
    TooShortExposure { exposure_quote: i64, max_exposure_quote: u64 },
    InvalidQuantity,
    WouldCrossPostOnly,
    BothSidesSuppressedByExposure,
    PullbackNotMet,
}

} // verus!
