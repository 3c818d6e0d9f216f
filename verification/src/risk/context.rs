//! What the risk checks may read on a tick.

use vstd::prelude::*;

use crate::market::market_state::MarketState;
use crate::types::instrument::Instrument;
use crate::types::inventory::Inventory;
use crate::types::quote_target::QuoteTarget;

verus! {

/// Read-only context shared by the risk checks.
pub struct RiskContext<'a> {
    pub instrument: &'a Instrument,
    pub market_state: &'a MarketState,
    pub target: &'a QuoteTarget,
    pub inventory: Inventory,
    pub now_ms: u64,
}

impl<'a> RiskContext<'a> {
    pub open spec fn wf(self) -> bool {
        &&& self.instrument.wf()
        &&& self.market_state.wf()
        &&& self.target.wf()
    }
}

} // verus!
