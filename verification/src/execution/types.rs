//! Per-side lifecycle state and the transient per-tick plan.

use vstd::prelude::*;

use crate::types::quote::Quote;

verus! {

/// The decision a side takes on one tick, before it is turned into
/// concrete venue actions.
#[derive(Debug, Clone, PartialEq)]
pub enum SidePlan {
    NoAction,
    WaitForVenue,
    Place { order_id: String, desired: Quote },
    Cancel { order_id: String },
    Replace { old_order_id: String, new_order_id: String, desired: Quote },
}

/// The lifecycle state of the one working order a side may have. Every
/// non-`NoOrder` state names the current order id.
#[derive(Debug, Clone, PartialEq)]
pub enum OrderSideState {
    NoOrder,
    Placing { order_id: String, requested: Quote },
    Live { order_id: String, resting: Quote },
    Cancelling { order_id: String, resting: Quote },
}

impl OrderSideState {
    /// The id of the current working order, if any.
    pub open spec fn spec_order_id(self) -> Option<Seq<char>> {
        match self {
            OrderSideState::NoOrder => None,
            OrderSideState::Placing { order_id, .. } => Some(order_id@),
            OrderSideState::Live { order_id, .. } => Some(order_id@),
            OrderSideState::Cancelling { order_id, .. } => Some(order_id@),
        }
    }

    /// The set of order ids the state holds. Never more than one: the
    /// per-side manager works a single order at a time.
    pub open spec fn spec_order_ids(self) -> Set<Seq<char>> {
        match self.spec_order_id() {
            None => Set::empty(),
            Some(id) => Set::empty().insert(id),
        }
    }

    /// Prices held in the state are within arithmetic range.
    pub open spec fn wf(self) -> bool {
        match self {
            OrderSideState::NoOrder => true,
            OrderSideState::Placing { requested, .. } => requested.price.wf(),
            OrderSideState::Live { resting, .. } => resting.price.wf(),
            OrderSideState::Cancelling { resting, .. } => resting.price.wf(),
        }
    }
}

impl Default for OrderSideState {
    fn default() -> (r: Self)
        ensures
            r == OrderSideState::NoOrder,
    {
        OrderSideState::NoOrder
    }
}

/// An order resting on the venue, as listed by an open-orders query.
#[derive(Debug, Clone, PartialEq)]
pub struct OpenOrder {
    pub order_id: String,
}

/// Each side's state names at most one order id, whatever sequence of
/// reports and plans produced it.
pub proof fn lemma_at_most_one_order_id(state: OrderSideState)
    ensures
        state.spec_order_ids().finite(),
        state.spec_order_ids().len() <= 1,
{
    match state.spec_order_id() {
        None => {
            assert(state.spec_order_ids() =~= Set::empty());
        },
        Some(id) => {
            assert(state.spec_order_ids() =~= Set::empty().insert(id));
        },
    }
}

} // verus!
