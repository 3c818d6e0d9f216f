//! Actions the engine sends to the venue.

use vstd::prelude::*;

use crate::types::instrument::Instrument;
use crate::types::price::Price;

verus! {

/// The side of the book an order rests on.
#[derive(Debug, Clone, Copy, PartialEq, Eq, Structural)]
pub enum Side {
    Buy,
    Sell,
}

impl Default for Side {
    fn default() -> (r: Self)
        ensures
            r == Side::Buy,
    {
        Side::Buy
    }
}

/// The engine only ever places post-only limit orders.
#[derive(Debug, Clone, Copy, PartialEq, Eq, Structural)]
pub enum OrderType {
    PostOnlyLimit,
}

/// A concrete order to place. The `order_id` is client-generated and is
/// the canonical correlation identifier.
#[derive(Debug, Clone, PartialEq)]
pub struct Order {
    pub order_id: String,
    pub instrument: Instrument,
    pub side: Side,
    pub price: Price,
    pub quantity: u64,
    pub order_type: OrderType,
}

/// One instruction to the venue.
#[derive(Debug, Clone, PartialEq)]
pub enum OrderAction {
    CancelAll,
    Cancel { order_id: String, instrument: Instrument, side: Side },
    Place(Order),
}

} // verus!
