//! Execution reports the venue sends back.

use vstd::prelude::*;

use crate::execution::order_action::Side;
use crate::types::instrument::Instrument;
use crate::types::price::Price;

verus! {

/// One execution report. Quantities are in base units; `cum_quantity`
/// is the total filled so far.
#[derive(Debug, Clone, PartialEq)]
pub enum OrderReport {
    Placed { order_id: String, instrument: Instrument, side: Side, price: Price, quantity: u64 },
    Accepted { order_id: String, instrument: Instrument, side: Side, price: Price, quantity: u64 },
    Rejected { order_id: String, instrument: Instrument, side: Side, reason: String },
    PartiallyFilled {
        order_id: String,
        instrument: Instrument,
        side: Side,
        price: Price,
        quantity: u64,
        cum_quantity: u64,
    },
    Filled {
        order_id: String,
        instrument: Instrument,
        side: Side,
        price: Price,
        quantity: u64,
        cum_quantity: u64,
    },
    Cancel { order_id: String, instrument: Instrument, side: Side },
    Cancelled { order_id: String, instrument: Instrument, side: Side },
    CancelFailed { order_id: String, instrument: Instrument, side: Side, reason: String },
    CancelledAll { count: i64 },
    VenueError { message: String },
}

impl OrderReport {
    /// Report prices are within the engine's arithmetic range.
    pub open spec fn wf(self) -> bool {
        match self {
            OrderReport::Placed { price, .. } => price.wf(),
            OrderReport::Accepted { price, .. } => price.wf(),
            OrderReport::PartiallyFilled { price, .. } => price.wf(),
            OrderReport::Filled { price, .. } => price.wf(),
            _ => true,
        }
    }
}

} // verus!
