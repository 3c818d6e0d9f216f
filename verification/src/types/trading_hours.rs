//! Optional restriction of quoting to a daily UTC window.

use vstd::prelude::*;

verus! {

/// A daily trading window in UTC hours. The window is `[start_hour,
/// end_hour)` and may wrap past midnight (`start_hour > end_hour`).
#[derive(Debug, Clone, Copy, PartialEq, Eq, Structural)]
pub struct TradingHours {
    /// Start hour in UTC (inclusive), 0-23.
    pub start_hour: u8,
    /// End hour in UTC (exclusive), 1-24.
    pub end_hour: u8,
    /// Whether to pause quoting on Saturday and Sunday.
    pub weekend_pause: bool,
}

impl Default for TradingHours {
    /// 08:00-20:00 UTC, no weekend pause.
    fn default() -> (r: Self)
        ensures
            r.start_hour == 8,
            r.end_hour == 20,
            !r.weekend_pause,
    {
        TradingHours { start_hour: 8, end_hour: 20, weekend_pause: false }
    }
}

} // verus!
