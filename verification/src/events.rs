//! Market events delivered by the venue's market-data adapter.

use vstd::prelude::*;

use crate::types::instrument::Instrument;
use crate::types::price::Price;

verus! {

/// A market-data event. Venue timestamps are milliseconds since the Unix
/// epoch; the engine ignores them for freshness and uses its own clock.
#[derive(Debug, Clone)]
pub enum MarketEvent {
    Trade { instrument: Instrument, price: Price, quantity: u64, timestamp_ms: u64 },
    TopOfBook { instrument: Instrument, best_bid: Price, best_ask: Price, timestamp_ms: u64 },
}

} // verus!
