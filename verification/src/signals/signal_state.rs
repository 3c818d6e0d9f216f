//! Derived signals over the mid price: fast and slow EMAs and a
//! volatility estimate, throttled to a minimum update interval.

use vstd::prelude::*;

use crate::market::market_state::MarketState;
use crate::signals::ema::{Ema, MAX_TAU_MS};
use crate::units::MAX_UNITS;

verus! {

/// Default minimum interval between signal updates, in milliseconds.
pub const DEFAULT_MIN_UPDATE_INTERVAL_MS: u64 = 350;

/// Fast and slow EMAs of the mid price, an EMA of its absolute change
/// (volatility), and the latest published values.
#[derive(Debug, Clone, Copy, PartialEq)]
pub struct SignalState {
    pub ema_mid: Ema,
    pub ema_mid_slow: Ema,
    pub ema_abs_mid_change: Ema,
    pub last_ema_value: Option<u64>,
    pub last_ema_slow_value: Option<u64>,
    pub last_volatility: Option<u64>,
    pub last_mid: Option<u64>,
    pub last_update_ms: Option<u64>,
    pub min_update_interval_ms: u64,
}

impl SignalState {
    pub open spec fn wf(self) -> bool {
        &&& self.ema_mid.wf()
        &&& self.ema_mid_slow.wf()
        &&& self.ema_abs_mid_change.wf()
        &&& (self.last_mid matches Some(m) ==> m <= MAX_UNITS)
        &&& (self.last_ema_value matches Some(v) ==> v <= MAX_UNITS)
        &&& (self.last_ema_slow_value matches Some(v) ==> v <= MAX_UNITS)
        &&& (self.last_volatility matches Some(v) ==> v <= MAX_UNITS)
    }

    /// The update is throttled while the previous update is younger than
    /// the minimum interval.
    pub open spec fn spec_throttled(self, now_ms: u64) -> bool {
        match self.last_update_ms {
            Some(t) => crate::units::spec_elapsed_ms(t, now_ms) < self.min_update_interval_ms,
            None => false,
        }
    }

    /// The whole state after `update`: a no-op when throttled or without
    /// a mid price, otherwise every signal advances by one sample.
    pub open spec fn spec_updated(self, market_state: MarketState, now_ms: u64) -> SignalState {
        if self.spec_throttled(now_ms) || !market_state.has_book() {
            self
        } else {
            let mid = market_state.spec_mid_units() as u64;
            let (vol_ema, vol) = match self.last_mid {
                Some(last_mid) => {
                    let change = if mid >= last_mid {
                        (mid - last_mid) as u64
                    } else {
                        (last_mid - mid) as u64
                    };
                    (
                        self.ema_abs_mid_change.spec_updated(now_ms, change),
                        Some(self.ema_abs_mid_change.spec_update_value(now_ms, change) as u64),
                    )
                },
                None => (self.ema_abs_mid_change, self.last_volatility),
            };
            SignalState {
                ema_mid: self.ema_mid.spec_updated(now_ms, mid),
                ema_mid_slow: self.ema_mid_slow.spec_updated(now_ms, mid),
                ema_abs_mid_change: vol_ema,
                last_ema_value: Some(self.ema_mid.spec_update_value(now_ms, mid) as u64),
                last_ema_slow_value: Some(self.ema_mid_slow.spec_update_value(now_ms, mid) as u64),
                last_volatility: vol,
                last_mid: Some(mid),
                last_update_ms: Some(now_ms),
                ..self
            }
        }
    }

    pub fn new(fast_tau_ms: u64, slow_tau_ms: u64, vol_tau_ms: u64) -> (r: Self)
        requires
            0 < fast_tau_ms <= MAX_TAU_MS,
            0 < slow_tau_ms <= MAX_TAU_MS,
            0 < vol_tau_ms <= MAX_TAU_MS,
        ensures
            r.wf(),
            r.ema_mid.tau_ms == fast_tau_ms,
            r.ema_mid_slow.tau_ms == slow_tau_ms,
            r.ema_abs_mid_change.tau_ms == vol_tau_ms,
            r.last_ema_value is None,
            r.last_ema_slow_value is None,
            r.last_volatility is None,
            r.last_mid is None,
            r.last_update_ms is None,
            r.min_update_interval_ms == DEFAULT_MIN_UPDATE_INTERVAL_MS,
    {
        SignalState {
            ema_mid: Ema::new(fast_tau_ms),
            ema_mid_slow: Ema::new(slow_tau_ms),
            ema_abs_mid_change: Ema::new(vol_tau_ms),
            last_ema_value: None,
            last_ema_slow_value: None,
            last_volatility: None,
            last_mid: None,
            last_update_ms: None,
            min_update_interval_ms: DEFAULT_MIN_UPDATE_INTERVAL_MS,
        }
    }

    /// Feeds the current mid price into the signals. A no-op while
    /// throttled or when the book is incomplete.
    pub fn update(&mut self, market_state: &MarketState, now_ms: u64)
        requires
            old(self).wf(),
            market_state.wf(),
        ensures
            final(self).wf(),
            *final(self) == old(self).spec_updated(*market_state, now_ms),
    {
        if let Some(last) = self.last_update_ms {
            let dt: u64 = if now_ms >= last {
                now_ms - last
            } else {
                0
            };
            if dt < self.min_update_interval_ms {
                return ;
            }
        }
        if let Some(mid_price) = market_state.mid_price() {
            let mid = mid_price.units();
            if let Some(last_mid) = self.last_mid {
                let abs_change: u64 = if mid >= last_mid {
                    mid - last_mid
                } else {
                    last_mid - mid
                };
                let vol = self.ema_abs_mid_change.update(now_ms, abs_change);
                self.last_volatility = Some(vol);
            }
            let ema_fast = self.ema_mid.update(now_ms, mid);
            let ema_slow = self.ema_mid_slow.update(now_ms, mid);
            self.last_ema_value = Some(ema_fast);
            self.last_ema_slow_value = Some(ema_slow);
            self.last_mid = Some(mid);
            self.last_update_ms = Some(now_ms);
        }
    }

    /// The latest fast-EMA value, if any sample was seen.
    pub fn ema_mid(&self) -> (r: Option<u64>)
        ensures
            r == self.last_ema_value,
    {
        self.last_ema_value
    }

    /// The latest slow-EMA value, if any sample was seen.
    pub fn ema_mid_slow(&self) -> (r: Option<u64>)
        ensures
            r == self.last_ema_slow_value,
    {
        self.last_ema_slow_value
    }

    /// The latest volatility estimate, if at least two samples were seen.
    pub fn volatility_mid(&self) -> (r: Option<u64>)
        ensures
            r == self.last_volatility,
    {
        self.last_volatility
    }
}

} // verus!
