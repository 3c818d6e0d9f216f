//! The scheduler's verdict for one tick.

use vstd::prelude::*;

verus! {

/// Whether the strategy should be evaluated on this tick.
#[derive(Debug, Clone, Copy, PartialEq, Eq, Structural)]
pub enum ScheduleDecision {
    Evaluate,
    Skip(SkipReason),
}

/// Why the scheduler skipped a tick. Durations are milliseconds; prices
/// are fixed-point units.
#[derive(Debug, Clone, Copy, PartialEq, Eq, Structural)]
pub enum SkipReason {
    TooSoon { duration_since_last_ms: u64 },
    NoMeaningfulChange { best_bid: u64, best_ask: u64 },
    NoBook,
    InFlight,
    OutOfTradingHours { start_hour: u8, end_hour: u8 },
    WeekendPause,
}

} // verus!
