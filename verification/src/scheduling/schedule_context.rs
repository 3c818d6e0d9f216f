//! What the scheduling policies may read on a tick.

use vstd::prelude::*;

use crate::execution::order_manager::OrderManager;
use crate::market::market_state::MarketState;
use crate::types::instrument::Instrument;

verus! {

/// Read-only context shared by the scheduling policies.
pub struct ScheduleContext<'a> {
    pub now_ms: u64,
    pub instrument: &'a Instrument,
    pub market_state: &'a MarketState,
    pub order_manager: &'a OrderManager,
}

impl<'a> ScheduleContext<'a> {
    pub open spec fn wf(self) -> bool {
        &&& self.instrument.wf()
        &&& self.market_state.wf()
    }
}

} // verus!
