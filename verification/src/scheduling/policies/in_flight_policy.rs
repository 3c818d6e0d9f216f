//! Skip the tick while any side has an action pending on the venue.

use vstd::prelude::*;

use crate::scheduling::schedule_context::ScheduleContext;
use crate::scheduling::types::SkipReason;

verus! {

/// The first policy in the pipeline: never plan new work while a place
/// or cancel is still in flight.
#[derive(Debug, Clone, Copy, PartialEq, Eq, Structural)]
pub struct InFlightPolicy;

impl InFlightPolicy {
    pub fn should_evaluate(&self, ctx: &ScheduleContext<'_>) -> (r: Option<SkipReason>)
        ensures
            r == if ctx.order_manager.spec_has_inflight_actions() {
                Some(SkipReason::InFlight)
            } else {
                Option::<SkipReason>::None
            },
    {
        if ctx.order_manager.has_inflight_actions() {
            Some(SkipReason::InFlight)
        } else {
            None
        }
    }
}

} // verus!
