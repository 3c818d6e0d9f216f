//! The reports a dry run synthesizes for an action, with the venue's
//! accept-or-reject choice passed in by the caller.

use vstd::prelude::*;

use crate::execution::order_action::OrderAction;
use crate::execution::order_report::OrderReport;

verus! {

/// The reports a dry-run venue emits for one action: a cancel is
/// acknowledged and completed, a place is acknowledged and then either
/// rejected or accepted as `will_reject` says, and a cancel-all emits
/// nothing. The caller supplies `will_reject` (drawn at random by the
/// dry-run venue) and broadcasts the reports.
pub fn dry_run_reports(action: &OrderAction, will_reject: bool) -> (r: Vec<OrderReport>)
    ensures
        match *action {
            OrderAction::CancelAll => r@.len() == 0,
            OrderAction::Cancel { order_id, instrument, side } => {
                &&& r@.len() == 2
                &&& r@[0] matches OrderReport::Cancel { order_id: c, side: cs, .. } && c@
                    == order_id@ && cs == side
                &&& r@[1] matches OrderReport::Cancelled { order_id: c, side: cs, .. } && c@
                    == order_id@ && cs == side
            },
            OrderAction::Place(order) => {
                &&& r@.len() == 2
                &&& r@[0] matches OrderReport::Placed { order_id: c, side: cs, price, quantity, .. }
                    && c@ == order.order_id@ && cs == order.side && price == order.price
                    && quantity == order.quantity
                &&& will_reject ==> (r@[1] matches OrderReport::Rejected {
                    order_id: c,
                    side: cs,
                    ..
                } && c@ == order.order_id@ && cs == order.side)
                &&& !will_reject ==> (r@[1] matches OrderReport::Accepted {
                    order_id: c,
                    side: cs,
                    price,
                    quantity,
                    ..
                } && c@ == order.order_id@ && cs == order.side && price == order.price
                    && quantity == order.quantity)
            },
        },
{
    let mut reports: Vec<OrderReport> = Vec::new();
    match action {
        OrderAction::CancelAll => {},
        OrderAction::Cancel { order_id, instrument, side } => {
            reports.push(
                OrderReport::Cancel {
                    order_id: order_id.clone(),
                    instrument: instrument.duplicate(),
                    side: *side,
                },
            );
            reports.push(
                OrderReport::Cancelled {
                    order_id: order_id.clone(),
                    instrument: instrument.duplicate(),
                    side: *side,
                },
            );
        },
        OrderAction::Place(order) => {
            reports.push(
                OrderReport::Placed {
                    order_id: order.order_id.clone(),
                    instrument: order.instrument.duplicate(),
                    side: order.side,
                    price: order.price,
                    quantity: order.quantity,
                },
            );
            if will_reject {
                reports.push(
                    OrderReport::Rejected {
                        order_id: order.order_id.clone(),
                        instrument: order.instrument.duplicate(),
                        side: order.side,
                        reason: String::from_str("rejected"),
                    },
                );
            } else {
                reports.push(
                    OrderReport::Accepted {
                        order_id: order.order_id.clone(),
                        instrument: order.instrument.duplicate(),
                        side: order.side,
                        price: order.price,
                        quantity: order.quantity,
                    },
                );
            }
        },
    }
    reports
}

} // verus!
