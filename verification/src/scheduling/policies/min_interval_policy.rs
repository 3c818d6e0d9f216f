//! Rate-limits outbound placements: skip while the most recent observed
//! placement is younger than the minimum interval.

use vstd::prelude::*;

use crate::execution::order_report::OrderReport;
use crate::scheduling::schedule_context::ScheduleContext;
use crate::scheduling::types::SkipReason;
use crate::units::spec_elapsed_ms;

verus! {

/// Tracks the instant of the last observed `Placed` report. The
/// timestamp advances on reports, not on evaluations, so the policy
/// throttles placements rather than inbound ticks.
#[derive(Debug, Clone, Copy, PartialEq, Eq, Structural)]
pub struct MinIntervalPolicy {
    pub min_interval_ms: u64,
    pub last_order_ms: Option<u64>,
}

impl MinIntervalPolicy {
    /// The skip this policy votes for at instant `now_ms`.
    pub open spec fn spec_decision(self, now_ms: u64) -> Option<SkipReason> {
        match self.last_order_ms {
            Some(last) => {
                let dt = spec_elapsed_ms(last, now_ms);
                if dt < self.min_interval_ms {
                    Some(SkipReason::TooSoon { duration_since_last_ms: dt as u64 })
                } else {
                    None
                }
            },
            None => None,
        }
    }

    pub fn new(min_interval_ms: u64) -> (r: Self)
        ensures
            r.min_interval_ms == min_interval_ms,
            r.last_order_ms is None,
    {
        MinIntervalPolicy { min_interval_ms, last_order_ms: None }
    }

    /// Observes one execution report at `now_ms`: a `Placed` report
    /// records the instant, everything else is ignored.
    pub fn on_report(&mut self, report: &OrderReport, now_ms: u64)
        ensures
            final(self).min_interval_ms == old(self).min_interval_ms,
            final(self).last_order_ms == if report is Placed {
                Some(now_ms)
            } else {
                old(self).last_order_ms
            },
    {
        if let OrderReport::Placed { .. } = report {
            self.last_order_ms = Some(now_ms);
        }
    }

    pub fn should_evaluate(&self, ctx: &ScheduleContext<'_>) -> (r: Option<SkipReason>)
        ensures
            r == self.spec_decision(ctx.now_ms),
    {
        if let Some(last) = self.last_order_ms {
            let dt: u64 = if ctx.now_ms >= last {
                ctx.now_ms - last
            } else {
                0
            };
            if dt < self.min_interval_ms {
                return Some(SkipReason::TooSoon { duration_since_last_ms: dt });
            }
        }
        None
    }
}

} // verus!
