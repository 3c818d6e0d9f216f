//! Skip ticks outside the configured daily UTC window or on weekends.

use vstd::prelude::*;

use crate::scheduling::schedule_context::ScheduleContext;
use crate::scheduling::types::SkipReason;
use crate::types::instrument::Instrument;
use crate::types::trading_hours::TradingHours;

verus! {

/// Day-of-week number of Saturday, counting from Monday = 0.
pub const SATURDAY: u8 = 5;

/// Relies on `chrono::Utc::now` with the `Timelike::hour` and
/// `Datelike::weekday` accessors: the current UTC hour (documented
/// 0-23) and the day of the week counted from Monday = 0 (documented
/// 0-6). The clock decides the values, so only their ranges are assumed.
#[verifier::external_body]
fn utc_hour_and_weekday() -> (r: (u8, u8))
    ensures
        r.0 < 24,
        r.1 < 7,
{
    let now = chrono::Utc::now();
    (
        chrono::Timelike::hour(&now) as u8,
        chrono::Datelike::weekday(&now).num_days_from_monday() as u8,
    )
}

/// Restricts quoting to the instrument's trading hours.
#[derive(Debug, Clone, Copy, PartialEq, Eq, Structural)]
pub struct TradingHoursPolicy {
    pub trading_hours: TradingHours,
}

impl TradingHoursPolicy {
    /// Whether `hour` falls inside `[start_hour, end_hour)`. When the
    /// window wraps past midnight (`start_hour > end_hour`) the hours
    /// from `start_hour` to 23 and from 0 to `end_hour - 1` are active.
    pub open spec fn spec_within_hours(self, hour: u32) -> bool {
        let start = self.trading_hours.start_hour as u32;
        let end = self.trading_hours.end_hour as u32;
        if start <= end {
            hour >= start && hour < end
        } else {
            hour >= start || hour < end
        }
    }

    /// The policy's verdict for a given UTC hour and weekday: the
    /// weekend pause wins over the hour window.
    pub open spec fn spec_skip_for_clock(self, hour: u8, weekday: u8) -> Option<SkipReason> {
        if self.trading_hours.weekend_pause && weekday >= SATURDAY {
            Some(SkipReason::WeekendPause)
        } else if !self.spec_within_hours(hour as u32) {
            Some(
                SkipReason::OutOfTradingHours {
                    start_hour: self.trading_hours.start_hour,
                    end_hour: self.trading_hours.end_hour,
                },
            )
        } else {
            None
        }
    }

    pub fn new(trading_hours: TradingHours) -> (r: Self)
        ensures
            r.trading_hours == trading_hours,
    {
        TradingHoursPolicy { trading_hours }
    }

    pub fn for_instrument(instrument: &Instrument) -> (r: Self)
        ensures
            r.trading_hours == match instrument.spec_trading_rules().trading_hours {
                Some(h) => h,
                None => TradingHours { start_hour: 8, end_hour: 20, weekend_pause: false },
            },
    {
        let trading_hours = match instrument.trading_rules().trading_hours {
            Some(h) => h,
            None => Default::default(),
        };
        TradingHoursPolicy::new(trading_hours)
    }

    pub fn is_within_hours(&self, hour: u32) -> (r: bool)
        ensures
            r == self.spec_within_hours(hour),
    {
        let start = self.trading_hours.start_hour as u32;
        let end = self.trading_hours.end_hour as u32;
        if start <= end {
            hour >= start && hour < end
        } else {
            hour >= start || hour < end
        }
    }

    /// The verdict for a given clock reading; `should_evaluate` applies
    /// it to the current UTC time.
    pub fn skip_for_clock(&self, hour: u8, weekday: u8) -> (r: Option<SkipReason>)
        ensures
            r == self.spec_skip_for_clock(hour, weekday),
    {
        if self.trading_hours.weekend_pause && weekday >= SATURDAY {
            return Some(SkipReason::WeekendPause);
        }
        if !self.is_within_hours(hour as u32) {
            return Some(
                SkipReason::OutOfTradingHours {
                    start_hour: self.trading_hours.start_hour,
                    end_hour: self.trading_hours.end_hour,
                },
            );
        }
        None
    }

    /// Reads the UTC clock and applies the window. Whatever the clock
    /// returns, the verdict is `spec_skip_for_clock` of some valid hour
    /// and weekday.
    pub fn should_evaluate(&self, _ctx: &ScheduleContext<'_>) -> (r: Option<SkipReason>)
        ensures
            exists|hour: u8, weekday: u8|
                hour < 24 && weekday < 7 && r == #[trigger] self.spec_skip_for_clock(
                    hour,
                    weekday,
                ),
    {
        let (hour, weekday) = utc_hour_and_weekday();
        self.skip_for_clock(hour, weekday)
    }
}

/// A window wrapping past midnight is active exactly from its start hour
/// through the end of the day and from midnight up to its end hour.
pub proof fn lemma_trading_hours_wrap(policy: TradingHoursPolicy, hour: u32)
    requires
        policy.trading_hours.start_hour > policy.trading_hours.end_hour,
    ensures
        policy.spec_within_hours(hour) <==> (hour >= policy.trading_hours.start_hour || hour
            < policy.trading_hours.end_hour),
{
}

} // verus!
