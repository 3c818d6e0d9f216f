//! The per-side order state machine: it turns a desired quote into
//! place/cancel/replace actions and absorbs execution reports.

use vstd::prelude::*;

use crate::execution::order_action::{Order, OrderAction, OrderType, Side};
use crate::execution::order_report::OrderReport;
use crate::execution::types::{OrderSideState, SidePlan};
use crate::types::instrument::Instrument;
use crate::types::quote::Quote;
use crate::units::MAX_UNITS;

verus! {

/// Quantities that differ by no more than this many units are treated as
/// equal when deciding whether a resting order is stale.
pub const QUANTITY_EPSILON_UNITS: u64 = 1;

/// The price expressed in whole ticks, rounded half away from zero.
pub open spec fn spec_price_to_ticks(price: int, tick: int) -> int
    recommends
        tick > 0,
{
    (2 * price + tick) / (2 * tick)
}

fn price_to_ticks(price: u64, tick: u64) -> (r: u64)
    requires
        0 < tick <= MAX_UNITS,
        price <= MAX_UNITS,
    ensures
        r == spec_price_to_ticks(price as int, tick as int),
{
    (2 * price + tick) / (2 * tick)
}

/// Relies on `uuid::Uuid::new_v4` and its `Display` impl: a fresh random
/// version-4 UUID rendered in the 36-character hyphenated form. The id is
/// random, so nothing beyond its length is assumed.
#[verifier::external_body]
fn generate_order_id() -> (r: String)
    ensures
        r@.len() == 36,
{
    uuid::Uuid::new_v4().to_string()
}

/// What one side needs to decide its actions on a tick.
#[derive(Debug, Clone)]
pub struct SideInputs<'a> {
    pub instrument: &'a Instrument,
    pub now_ms: u64,
    pub price_tick: u64,
    pub target: Option<Quote>,
}

impl<'a> SideInputs<'a> {
    pub open spec fn wf(self) -> bool {
        &&& 0 < self.price_tick <= MAX_UNITS
        &&& (self.target matches Some(q) ==> q.wf())
    }

    pub fn new(instrument: &'a Instrument, now_ms: u64, price_tick: u64, target: Option<
        Quote,
    >) -> (r: Self)
        ensures
            r.instrument == instrument,
            r.now_ms == now_ms,
            r.price_tick == price_tick,
            r.target == target,
    {
        SideInputs { instrument, now_ms, price_tick, target }
    }
}

/// When a live order is replaced rather than left alone.
#[derive(Debug, Clone, Copy, PartialEq, Eq, Structural)]
pub struct ReplacePolicy {
    /// Replace when the desired price differs by at least this many ticks.
    pub replace_threshold_ticks: u64,
    /// Never replace an order younger than this, in milliseconds.
    pub min_lifetime_ms: u64,
}

impl Default for ReplacePolicy {
    fn default() -> (r: Self)
        ensures
            r.replace_threshold_ticks == 3,
            r.min_lifetime_ms == 500,
    {
        ReplacePolicy { replace_threshold_ticks: 3, min_lifetime_ms: 500 }
    }
}

/// One side's manager: its lifecycle state, the instant of the last state
/// change, and the replace policy.
#[derive(Debug, Clone, PartialEq)]
pub struct OrderSideManager {
    pub side: Side,
    pub state: OrderSideState,
    pub last_update_ms: Option<u64>,
    pub policy: ReplacePolicy,
}

impl OrderSideManager {
    pub open spec fn wf(self) -> bool {
        self.state.wf()
    }

    /// The id of the side's current working order.
    pub open spec fn spec_current_id(self) -> Option<Seq<char>> {
        self.state.spec_order_id()
    }

    /// A resting order is stale against the desired quote when it is old
    /// enough and either the quantity changed by more than the epsilon or
    /// the price moved by at least the replace threshold in ticks.
    pub open spec fn spec_is_stale(self, current: Quote, desired: Quote, now_ms: u64, tick: u64,
    ) -> bool {
        let lifetime_guard = match self.last_update_ms {
            Some(t) => now_ms >= t && now_ms - t < self.policy.min_lifetime_ms || now_ms < t,
            None => false,
        };
        if lifetime_guard {
            false
        } else {
            let quantity_changed = (if current.quantity >= desired.quantity {
                current.quantity - desired.quantity
            } else {
                desired.quantity - current.quantity
            }) > QUANTITY_EPSILON_UNITS;
            let ct = spec_price_to_ticks(current.price.spec_units() as int, tick as int);
            let dt = spec_price_to_ticks(desired.price.spec_units() as int, tick as int);
            let diff_ticks = if ct >= dt {
                ct - dt
            } else {
                dt - ct
            };
            quantity_changed || diff_ticks >= self.policy.replace_threshold_ticks
        }
    }

    /// The whole manager after absorbing one report at `now_ms`.
    /// Transitions keyed to an order id only apply when the report's id
    /// matches the current working order.
    pub open spec fn spec_after_report(self, report: OrderReport, now_ms: u64) -> OrderSideManager {
        match report {
            OrderReport::Placed { order_id, side, price, quantity, .. } => if side == self.side {
                OrderSideManager {
                    state: OrderSideState::Placing {
                        order_id,
                        requested: Quote { price, quantity },
                    },
                    ..self
                }
            } else {
                self
            },
            OrderReport::Accepted { order_id, side, price, quantity, .. } => if side
                == self.side {
                OrderSideManager {
                    state: OrderSideState::Live { order_id, resting: Quote { price, quantity } },
                    last_update_ms: Some(now_ms),
                    ..self
                }
            } else {
                self
            },
            OrderReport::Rejected { order_id, side, .. } => if side == self.side
                && self.spec_current_id() == Some(order_id@) {
                OrderSideManager {
                    state: OrderSideState::NoOrder,
                    last_update_ms: None,
                    ..self
                }
            } else {
                self
            },
            OrderReport::Cancel { order_id, side, .. } => if side == self.side {
                match self.state {
                    OrderSideState::Live { order_id: live_id, resting } => if live_id@
                        == order_id@ {
                        OrderSideManager {
                            state: OrderSideState::Cancelling { order_id, resting },
                            ..self
                        }
                    } else {
                        self
                    },
                    _ => self,
                }
            } else {
                self
            },
            OrderReport::Cancelled { order_id, side, .. } => if side == self.side
                && self.spec_current_id() == Some(order_id@) {
                OrderSideManager {
                    state: OrderSideState::NoOrder,
                    last_update_ms: None,
                    ..self
                }
            } else {
                self
            },
            OrderReport::PartiallyFilled { order_id, side, quantity, .. } => if side
                == self.side {
                match self.state {
                    OrderSideState::Live { order_id: live_id, resting } => if live_id@
                        == order_id@ {
                        let remaining = if resting.quantity >= quantity {
                            (resting.quantity - quantity) as u64
                        } else {
                            0u64
                        };
                        OrderSideManager {
                            state: OrderSideState::Live {
                                order_id,
                                resting: Quote { price: resting.price, quantity: remaining },
                            },
                            last_update_ms: Some(now_ms),
                            ..self
                        }
                    } else {
                        self
                    },
                    _ => self,
                }
            } else {
                self
            },
            OrderReport::Filled { order_id, side, .. } => if side == self.side
                && self.spec_current_id() == Some(order_id@) {
                OrderSideManager {
                    state: OrderSideState::NoOrder,
                    last_update_ms: None,
                    ..self
                }
            } else {
                self
            },
            _ => self,
        }
    }

    /// The whole manager after optimistically applying a plan, as if the
    /// venue had already accepted it.
    pub open spec fn spec_apply_optimistic(self, plan: SidePlan, now_ms: u64) -> OrderSideManager {
        match plan {
            SidePlan::NoAction => self,
            SidePlan::WaitForVenue => self,
            SidePlan::Place { order_id, desired } => if self.state is NoOrder {
                OrderSideManager {
                    state: OrderSideState::Placing { order_id, requested: desired },
                    last_update_ms: Some(now_ms),
                    ..self
                }
            } else {
                self
            },
            SidePlan::Cancel { order_id } => match self.state {
                OrderSideState::Live { resting, .. } => OrderSideManager {
                    state: OrderSideState::Cancelling { order_id, resting },
                    last_update_ms: Some(now_ms),
                    ..self
                },
                _ => self,
            },
            SidePlan::Replace { new_order_id, desired, .. } => OrderSideManager {
                state: OrderSideState::Placing { order_id: new_order_id, requested: desired },
                last_update_ms: Some(now_ms),
                ..self
            },
        }
    }

    pub fn for_side(side: Side) -> (r: Self)
        ensures
            r.side == side,
            r.state == OrderSideState::NoOrder,
            r.last_update_ms is None,
            r.policy.replace_threshold_ticks == 3,
            r.policy.min_lifetime_ms == 500,
            r.wf(),
    {
        OrderSideManager {
            side,
            state: OrderSideState::NoOrder,
            last_update_ms: None,
            policy: Default::default(),
        }
    }

    /// True while an action is pending on the venue (placing or
    /// cancelling).
    pub fn has_inflight_actions(&self) -> (r: bool)
        ensures
            r == (self.state is Placing || self.state is Cancelling),
    {
        match &self.state {
            OrderSideState::Placing { .. } => true,
            OrderSideState::Cancelling { .. } => true,
            OrderSideState::Live { .. } => false,
            OrderSideState::NoOrder => false,
        }
    }

    fn matches_current_order(&self, order_id: &String) -> (r: bool)
        ensures
            r == (self.spec_current_id() == Some(order_id@)),
    {
        match &self.state {
            OrderSideState::Placing { order_id: id, .. } => *id == *order_id,
            OrderSideState::Live { order_id: id, .. } => *id == *order_id,
            OrderSideState::Cancelling { order_id: id, .. } => *id == *order_id,
            OrderSideState::NoOrder => false,
        }
    }

    /// Absorbs one execution report at engine-clock instant `now_ms`.
    /// Reports for the other side or for an unknown order id leave the
    /// state unchanged; `Filled`, `Cancelled` and `Rejected` matching the
    /// current id clear the side back to `NoOrder`.
    pub fn on_report(&mut self, report: &OrderReport, now_ms: u64)
        requires
            old(self).wf(),
            report.wf(),
        ensures
            final(self).wf(),
            *final(self) == old(self).spec_after_report(*report, now_ms),
    {
        match report {
            OrderReport::Placed { order_id, side, price, quantity, .. } => {
                if *side == self.side {
                    self.state = OrderSideState::Placing {
                        order_id: order_id.clone(),
                        requested: Quote { price: *price, quantity: *quantity },
                    };
                }
            },
            OrderReport::Accepted { order_id, side, price, quantity, .. } => {
                if *side == self.side {
                    self.state = OrderSideState::Live {
                        order_id: order_id.clone(),
                        resting: Quote { price: *price, quantity: *quantity },
                    };
                    self.last_update_ms = Some(now_ms);
                }
            },
            OrderReport::Rejected { order_id, side, .. } => {
                if *side == self.side && self.matches_current_order(order_id) {
                    self.state = OrderSideState::NoOrder;
                    self.last_update_ms = None;
                }
            },
            OrderReport::Cancel { order_id, side, .. } => {
                if *side == self.side {
                    let live_resting: Option<Quote> = match &self.state {
                        OrderSideState::Live { order_id: live_id, resting } => {
                            if *live_id == *order_id {
                                Some(*resting)
                            } else {
                                None
                            }
                        },
                        _ => None,
                    };
                    if let Some(resting) = live_resting {
                        self.state = OrderSideState::Cancelling {
                            order_id: order_id.clone(),
                            resting,
                        };
                    }
                }
            },
            OrderReport::Cancelled { order_id, side, .. } => {
                if *side == self.side && self.matches_current_order(order_id) {
                    self.state = OrderSideState::NoOrder;
                    self.last_update_ms = None;
                }
            },
            OrderReport::PartiallyFilled { order_id, side, quantity, .. } => {
                if *side == self.side {
                    let live: Option<(Quote, bool)> = match &self.state {
                        OrderSideState::Live { order_id: live_id, resting } => {
                            Some((*resting, *live_id == *order_id))
                        },
                        _ => None,
                    };
                    if let Some((resting, id_matches)) = live {
                        if id_matches {
                            let remaining = if resting.quantity >= *quantity {
                                resting.quantity - *quantity
                            } else {
                                0
                            };
                            self.state = OrderSideState::Live {
                                order_id: order_id.clone(),
                                resting: Quote { price: resting.price, quantity: remaining },
                            };
                            self.last_update_ms = Some(now_ms);
                        }
                    }
                }
            },
            OrderReport::Filled { order_id, side, .. } => {
                if *side == self.side && self.matches_current_order(order_id) {
                    self.state = OrderSideState::NoOrder;
                    self.last_update_ms = None;
                }
            },
            _ => {},
        }
    }

    /// Whether the resting order should be replaced for the desired one.
    fn is_stale(&self, current: &Quote, desired: &Quote, now_ms: u64, price_tick: u64) -> (r: bool)
        requires
            current.price.wf(),
            desired.price.wf(),
            0 < price_tick <= MAX_UNITS,
        ensures
            r == self.spec_is_stale(*current, *desired, now_ms, price_tick),
    {
        if let Some(last_update) = self.last_update_ms {
            if now_ms < last_update || now_ms - last_update < self.policy.min_lifetime_ms {
                return false;
            }
        }
        let quantity_diff = if current.quantity >= desired.quantity {
            current.quantity - desired.quantity
        } else {
            desired.quantity - current.quantity
        };
        if quantity_diff > QUANTITY_EPSILON_UNITS {
            return true;
        }
        let current_ticks = price_to_ticks(current.price.units(), price_tick);
        let desired_ticks = price_to_ticks(desired.price.units(), price_tick);
        let diff_ticks = if current_ticks >= desired_ticks {
            current_ticks - desired_ticks
        } else {
            desired_ticks - current_ticks
        };
        diff_ticks >= self.policy.replace_threshold_ticks
    }

    /// Decides this side's plan from its state and the desired quote.
    fn plan(&self, inputs: &SideInputs<'_>) -> (r: SidePlan)
        requires
            self.wf(),
            inputs.wf(),
        ensures
            match (self.state, inputs.target) {
                (OrderSideState::NoOrder, None) => r == SidePlan::NoAction,
                (OrderSideState::NoOrder, Some(d)) => r matches SidePlan::Place { desired, .. }
                    && desired == d,
                (OrderSideState::Placing { .. }, _) => r == SidePlan::WaitForVenue,
                (OrderSideState::Cancelling { .. }, _) => r == SidePlan::WaitForVenue,
                (OrderSideState::Live { order_id, .. }, None) => r matches SidePlan::Cancel {
                    order_id: cid,
                } && cid@ == order_id@,
                (OrderSideState::Live { order_id, resting }, Some(d)) => if self.spec_is_stale(
                    resting,
                    d,
                    inputs.now_ms,
                    inputs.price_tick,
                ) {
                    r matches SidePlan::Replace { old_order_id, new_order_id, desired }
                        && old_order_id@ == order_id@ && desired == d
                } else {
                    r == SidePlan::NoAction
                },
            },
    {
        match (&self.state, &inputs.target) {
            (OrderSideState::NoOrder, None) => SidePlan::NoAction,
            (OrderSideState::NoOrder, Some(desired)) => SidePlan::Place {
                order_id: generate_order_id(),
                desired: *desired,
            },
            (OrderSideState::Placing { .. }, _) => SidePlan::WaitForVenue,
            (OrderSideState::Cancelling { .. }, _) => SidePlan::WaitForVenue,
            (OrderSideState::Live { order_id, .. }, None) => SidePlan::Cancel {
                order_id: order_id.clone(),
            },
            (OrderSideState::Live { order_id, resting }, Some(desired)) => {
                if self.is_stale(resting, desired, inputs.now_ms, inputs.price_tick) {
                    SidePlan::Replace {
                        old_order_id: order_id.clone(),
                        new_order_id: generate_order_id(),
                        desired: *desired,
                    }
                } else {
                    SidePlan::NoAction
                }
            },
        }
    }

    /// Turns a plan into concrete venue actions. A replace emits the
    /// cancel of the old order before the place of the new one.
    fn get_actions(&self, instrument: &Instrument, plan: &SidePlan) -> (r: Vec<OrderAction>)
        ensures
            match *plan {
                SidePlan::NoAction => r@.len() == 0,
                SidePlan::WaitForVenue => r@.len() == 0,
                SidePlan::Place { order_id, desired } => r@.len() == 1 && spec_is_place_of(
                    r@[0],
                    order_id@,
                    *instrument,
                    self.side,
                    desired,
                ),
                SidePlan::Cancel { order_id } => r@.len() == 1 && spec_is_cancel_of(
                    r@[0],
                    order_id@,
                    *instrument,
                    self.side,
                ),
                SidePlan::Replace { old_order_id, new_order_id, desired } => r@.len() == 2
                    && spec_is_cancel_of(r@[0], old_order_id@, *instrument, self.side)
                    && spec_is_place_of(r@[1], new_order_id@, *instrument, self.side, desired),
            },
    {
        let mut actions: Vec<OrderAction> = Vec::new();
        match plan {
            SidePlan::NoAction => {},
            SidePlan::WaitForVenue => {},
            SidePlan::Place { order_id, desired } => {
                actions.push(self.place_action(order_id.clone(), instrument, desired));
            },
            SidePlan::Cancel { order_id } => {
                actions.push(self.cancel_action(order_id.clone(), instrument));
            },
            SidePlan::Replace { old_order_id, new_order_id, desired } => {
                actions.push(self.cancel_action(old_order_id.clone(), instrument));
                actions.push(self.place_action(new_order_id.clone(), instrument, desired));
            },
        }
        actions
    }

    fn place_action(&self, order_id: String, instrument: &Instrument, desired: &Quote) -> (r:
        OrderAction)
        ensures
            spec_is_place_of(r, order_id@, *instrument, self.side, *desired),
    {
        OrderAction::Place(
            Order {
                order_id,
                instrument: instrument.duplicate(),
                side: self.side,
                price: desired.price,
                quantity: desired.quantity,
                order_type: OrderType::PostOnlyLimit,
            },
        )
    }

    fn cancel_action(&self, order_id: String, instrument: &Instrument) -> (r: OrderAction)
        ensures
            spec_is_cancel_of(r, order_id@, *instrument, self.side),
    {
        OrderAction::Cancel { order_id, instrument: instrument.duplicate(), side: self.side }
    }

    /// Advances the state as if the venue had accepted the plan, so later
    /// ticks observe the pending intent.
    fn apply_optimistic(&mut self, plan: SidePlan, now_ms: u64)
        ensures
            *final(self) == old(self).spec_apply_optimistic(plan, now_ms),
    {
        match plan {
            SidePlan::NoAction => {},
            SidePlan::WaitForVenue => {},
            SidePlan::Place { order_id, desired } => {
                if matches!(self.state, OrderSideState::NoOrder) {
                    self.state = OrderSideState::Placing { order_id, requested: desired };
                    self.last_update_ms = Some(now_ms);
                }
            },
            SidePlan::Cancel { order_id } => {
                let live_resting: Option<Quote> = match &self.state {
                    OrderSideState::Live { resting, .. } => Some(*resting),
                    _ => None,
                };
                if let Some(resting) = live_resting {
                    self.state = OrderSideState::Cancelling { order_id, resting };
                    self.last_update_ms = Some(now_ms);
                }
            },
            SidePlan::Replace { new_order_id, desired, .. } => {
                self.state = OrderSideState::Placing {
                    order_id: new_order_id,
                    requested: desired,
                };
                self.last_update_ms = Some(now_ms);
            },
        }
    }

    /// Plans against the desired quote, emits the actions, and applies
    /// the plan optimistically.
    pub fn actions_for_target(&mut self, inputs: SideInputs<'_>) -> (r: Vec<OrderAction>)
        requires
            old(self).wf(),
            inputs.wf(),
        ensures
            final(self).wf(),
            side_actions_ok(
                *old(self),
                *final(self),
                *inputs.instrument,
                inputs.target,
                inputs.now_ms,
                inputs.price_tick,
                r@,
            ),
    {
        let plan = self.plan(&inputs);
        let actions = self.get_actions(inputs.instrument, &plan);
        self.apply_optimistic(plan, inputs.now_ms);
        actions
    }
}

/// The action is a post-only place of `desired` for this side under the
/// given order id.
pub open spec fn spec_is_place_of(
    action: OrderAction,
    order_id: Seq<char>,
    instrument: Instrument,
    side: Side,
    desired: Quote,
) -> bool {
    action matches OrderAction::Place(o) && o.order_id@ == order_id && o.instrument == instrument
        && o.side == side && o.price == desired.price && o.quantity == desired.quantity
        && o.order_type == OrderType::PostOnlyLimit
}

/// The action is a cancel of the given order id for this side.
pub open spec fn spec_is_cancel_of(
    action: OrderAction,
    order_id: Seq<char>,
    instrument: Instrument,
    side: Side,
) -> bool {
    action matches OrderAction::Cancel { order_id: cid, instrument: ci, side: cs } && cid@
        == order_id && ci == instrument && cs == side
}

/// Everything `actions_for_target` guarantees for one side: which actions
/// come out of each state, their order (a replace cancels before it
/// places), and the optimistic state the side is left in.
pub open spec fn side_actions_ok(
    pre: OrderSideManager,
    post: OrderSideManager,
    instrument: Instrument,
    target: Option<Quote>,
    now_ms: u64,
    tick: u64,
    actions: Seq<OrderAction>,
) -> bool {
    &&& post.side == pre.side
    &&& post.policy == pre.policy
    &&& match pre.state {
        OrderSideState::Placing { .. } => actions.len() == 0 && post == pre,
        OrderSideState::Cancelling { .. } => actions.len() == 0 && post == pre,
        OrderSideState::NoOrder => match target {
            None => actions.len() == 0 && post == pre,
            Some(d) => {
                &&& actions.len() == 1
                &&& post.state matches OrderSideState::Placing { order_id, requested }
                    && requested == d && spec_is_place_of(
                    actions[0],
                    order_id@,
                    instrument,
                    pre.side,
                    d,
                )
                &&& post.last_update_ms == Some(now_ms)
            },
        },
        OrderSideState::Live { order_id: live_id, resting } => match target {
            None => {
                &&& actions.len() == 1
                &&& spec_is_cancel_of(actions[0], live_id@, instrument, pre.side)
                &&& post.state matches OrderSideState::Cancelling { order_id, resting: pr }
                    && order_id@ == live_id@ && pr == resting
                &&& post.last_update_ms == Some(now_ms)
            },
            Some(d) => if pre.spec_is_stale(resting, d, now_ms, tick) {
                &&& actions.len() == 2
                &&& spec_is_cancel_of(actions[0], live_id@, instrument, pre.side)
                &&& post.state matches OrderSideState::Placing { order_id, requested }
                    && requested == d && spec_is_place_of(
                    actions[1],
                    order_id@,
                    instrument,
                    pre.side,
                    d,
                )
                &&& post.last_update_ms == Some(now_ms)
            } else {
                actions.len() == 0 && post == pre
            },
        },
    }
}

/// A resting order strictly younger than the minimum lifetime is never
/// stale, whatever the desired quote: the lifetime guard is strict on
/// the under side.
pub proof fn lemma_min_lifetime_protects(
    m: OrderSideManager,
    current: Quote,
    desired: Quote,
    now_ms: u64,
    tick: u64,
)
    requires
        m.last_update_ms matches Some(t) && crate::units::spec_elapsed_ms(t, now_ms)
            < m.policy.min_lifetime_ms,
    ensures
        !m.spec_is_stale(current, desired, now_ms, tick),
{
}

/// A quantity difference of at most the epsilon together with a tick
/// drift under the replace threshold never makes a resting order stale.
/// In particular, at exactly the minimum lifetime — where the guard no
/// longer protects — such a quote still stands.
pub proof fn lemma_small_difference_not_stale(
    m: OrderSideManager,
    current: Quote,
    desired: Quote,
    now_ms: u64,
    tick: u64,
)
    requires
        (if current.quantity >= desired.quantity {
            current.quantity - desired.quantity
        } else {
            desired.quantity - current.quantity
        }) <= QUANTITY_EPSILON_UNITS,
        ({
            let ct = spec_price_to_ticks(current.price.spec_units() as int, tick as int);
            let dt = spec_price_to_ticks(desired.price.spec_units() as int, tick as int);
            (if ct >= dt {
                ct - dt
            } else {
                dt - ct
            }) < m.policy.replace_threshold_ticks
        }),
    ensures
        !m.spec_is_stale(current, desired, now_ms, tick),
{
}

/// A `Filled`, `Cancelled` or `Rejected` report that matches the current
/// order id returns the side to `NoOrder` and clears `last_update`.
pub proof fn lemma_terminal_report_clears_side(
    m: OrderSideManager,
    report: OrderReport,
    now_ms: u64,
)
    requires
        match report {
            OrderReport::Filled { order_id, side, .. } => side == m.side && m.spec_current_id()
                == Some(order_id@),
            OrderReport::Cancelled { order_id, side, .. } => side == m.side && m.spec_current_id()
                == Some(order_id@),
            OrderReport::Rejected { order_id, side, .. } => side == m.side && m.spec_current_id()
                == Some(order_id@),
            _ => false,
        },
    ensures
        m.spec_after_report(report, now_ms).state == OrderSideState::NoOrder,
        m.spec_after_report(report, now_ms).last_update_ms is None,
{
}

/// A report that names an order id other than the side's current one,
/// while keyed to an id, leaves the side unchanged.
pub proof fn lemma_mismatched_report_ignored(m: OrderSideManager, report: OrderReport, now_ms: u64)
    requires
        match report {
            OrderReport::Rejected { order_id, side, .. } => side == m.side && m.spec_current_id()
                != Some(order_id@),
            OrderReport::Cancel { order_id, side, .. } => side == m.side && m.spec_current_id()
                != Some(order_id@),
            OrderReport::Cancelled { order_id, side, .. } => side == m.side && m.spec_current_id()
                != Some(order_id@),
            OrderReport::PartiallyFilled { order_id, side, .. } => side == m.side
                && m.spec_current_id() != Some(order_id@),
            OrderReport::Filled { order_id, side, .. } => side == m.side && m.spec_current_id()
                != Some(order_id@),
            _ => false,
        },
    ensures
        m.spec_after_report(report, now_ms) == m,
{
}

} // verus!
