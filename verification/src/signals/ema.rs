//! Time-aware exponentially weighted moving average over fixed-point
//! samples.
//!
//! The update rule is `v' = v + alpha * (x - v)` with `alpha = 1 -
//! exp(-dt/tau)`. `alpha` is held in parts per million and the
//! exponential is evaluated by a fixed-point scheme: the exponent is
//! split into sixteenths, a cubic polynomial approximates the small
//! factor, and four squarings reassemble the whole one. The scheme is
//! deterministic integer arithmetic, so every property of the EMA is
//! provable from its definition.

use vstd::prelude::*;

use crate::units::{MAX_UNITS, PPM};

verus! {

/// Largest supported decay time, in milliseconds (about 31 years).
pub const MAX_TAU_MS: u64 = 1_000_000_000_000;

/// The cubic `1 - y + y^2/2 - y^3/6` in parts per million, clamped into
/// `[0, PPM]`: the small-argument factor of the decay exponential.
pub open spec fn spec_decay_cubic(y: int) -> int {
    let a = PPM as int;
    let term2 = (y * y) / (2 * a);
    let term3 = (y * y * y) / (6 * (a * a));
    let t = if a + term2 >= y + term3 {
        a + term2 - y - term3
    } else {
        0
    };
    if t > a {
        a
    } else {
        t
    }
}

/// One squaring step of the decay factor, in parts per million.
pub open spec fn spec_decay_square(t: int) -> int {
    let s = (t * t) / (PPM as int);
    if s > PPM as int {
        PPM as int
    } else {
        s
    }
}

/// `exp(-dt/tau)` in parts per million, as the engine computes it.
pub open spec fn spec_exp_decay(dt_ms: int, tau_ms: int) -> int
    recommends
        tau_ms > 0,
{
    if dt_ms >= 16 * tau_ms {
        0
    } else {
        let y0 = (dt_ms * PPM) / (16 * tau_ms);
        let y = if y0 > PPM as int {
            PPM as int
        } else {
            y0
        };
        spec_decay_square(
            spec_decay_square(spec_decay_square(spec_decay_square(spec_decay_cubic(y)))),
        )
    }
}

/// `1 - exp(-dt/tau)` in parts per million.
pub open spec fn spec_decay_alpha(dt_ms: int, tau_ms: int) -> int
    recommends
        tau_ms > 0,
{
    PPM - spec_exp_decay(dt_ms, tau_ms)
}

/// One EMA step: `v + alpha * (x - v)` with `alpha` in parts per
/// million, rounded toward `v`.
pub open spec fn spec_ema_step(v: int, x: int, alpha: int) -> int {
    if x >= v {
        v + (alpha * (x - v)) / (PPM as int)
    } else {
        v - (alpha * (v - x)) / (PPM as int)
    }
}

/// One squaring step of the fixed-point decay factor.
fn decay_square(t: u128) -> (r: u128)
    requires
        t <= PPM,
    ensures
        r == spec_decay_square(t as int),
        r <= PPM,
{
    proof {
        assert((t as int) * (t as int) <= 1_000_000_000_000) by (nonlinear_arith)
            requires
                0 <= t as int <= 1_000_000,
        ;
    }
    let s: u128 = (t * t) / (PPM as u128);
    if s > (PPM as u128) {
        PPM as u128
    } else {
        s
    }
}

/// Computes the decay weight `1 - exp(-dt/tau)` in parts per million.
pub fn decay_alpha(dt_ms: u64, tau_ms: u64) -> (r: u64)
    requires
        0 < tau_ms <= MAX_TAU_MS,
    ensures
        r == spec_decay_alpha(dt_ms as int, tau_ms as int),
        r <= PPM,
{
    let a: u128 = PPM as u128;
    if dt_ms >= 16 * tau_ms {
        return PPM;
    }
    let y0: u128 = (dt_ms as u128) * a / (16 * (tau_ms as u128));
    let y: u128 = if y0 > a {
        a
    } else {
        y0
    };
    proof {
        assert((y as int) * (y as int) <= 1_000_000_000_000 && (y as int) * (y as int) * (
        y as int) <= 1_000_000_000_000_000_000) by (nonlinear_arith)
            requires
                0 <= y as int <= 1_000_000,
        ;
    }
    let term2: u128 = (y * y) / (2 * a);
    let term3: u128 = (y * y * y) / (6 * (a * a));
    let t0: u128 = if a + term2 >= y + term3 {
        a + term2 - (y + term3)
    } else {
        0
    };
    let t: u128 = if t0 > a {
        a
    } else {
        t0
    };
    let t = decay_square(decay_square(decay_square(decay_square(t))));
    PPM - (t as u64)
}

/// A single EMA: its decay time, current value and update instants.
#[derive(Debug, Clone, Copy, PartialEq)]
pub struct Ema {
    pub tau_ms: u64,
    pub value: Option<u64>,
    pub last_update_ms: Option<u64>,
    pub first_update_ms: Option<u64>,
    pub warmup_ms: u64,
}

impl Ema {
    pub open spec fn wf(self) -> bool {
        &&& 0 < self.tau_ms <= MAX_TAU_MS
        &&& (self.value matches Some(v) ==> v <= MAX_UNITS)
    }

    /// The value `update` returns: the first sample initializes the EMA,
    /// later samples move it by the time-decayed weight.
    pub open spec fn spec_update_value(self, now_ms: u64, sample: u64) -> int {
        match (self.value, self.last_update_ms) {
            (Some(v), Some(t)) => spec_ema_step(
                v as int,
                sample as int,
                spec_decay_alpha(crate::units::spec_elapsed_ms(t, now_ms), self.tau_ms as int),
            ),
            _ => sample as int,
        }
    }

    /// The whole state after `update`.
    pub open spec fn spec_updated(self, now_ms: u64, sample: u64) -> Ema {
        Ema {
            value: Some(self.spec_update_value(now_ms, sample) as u64),
            last_update_ms: Some(now_ms),
            first_update_ms: if self.first_update_ms is Some {
                self.first_update_ms
            } else {
                Some(now_ms)
            },
            ..self
        }
    }

    pub fn new(tau_ms: u64) -> (r: Self)
        requires
            0 < tau_ms <= MAX_TAU_MS,
        ensures
            r.tau_ms == tau_ms,
            r.value is None,
            r.last_update_ms is None,
            r.first_update_ms is None,
            r.warmup_ms == tau_ms,
            r.wf(),
    {
        Ema {
            tau_ms,
            value: None,
            last_update_ms: None,
            first_update_ms: None,
            warmup_ms: tau_ms,
        }
    }

    /// Feeds one sample at engine-clock instant `now_ms`; returns the
    /// updated value.
    pub fn update(&mut self, now_ms: u64, sample: u64) -> (r: u64)
        requires
            old(self).wf(),
            sample <= MAX_UNITS,
        ensures
            final(self).wf(),
            *final(self) == old(self).spec_updated(now_ms, sample),
            r == old(self).spec_update_value(now_ms, sample),
            r <= MAX_UNITS,
    {
        if self.first_update_ms.is_none() {
            self.first_update_ms = Some(now_ms);
        }
        match (self.value, self.last_update_ms) {
            (Some(previous), Some(previous_time)) => {
                let dt_ms: u64 = if now_ms >= previous_time {
                    now_ms - previous_time
                } else {
                    0
                };
                let alpha = decay_alpha(dt_ms, self.tau_ms);
                let updated: u64 = if sample >= previous {
                    let diff = sample - previous;
                    proof {
                        lemma_weighted_move_bounded(alpha as int, diff as int);
                    }
                    previous + (((alpha as u128) * (diff as u128) / (PPM as u128)) as u64)
                } else {
                    let diff = previous - sample;
                    proof {
                        lemma_weighted_move_bounded(alpha as int, diff as int);
                    }
                    previous - (((alpha as u128) * (diff as u128) / (PPM as u128)) as u64)
                };
                self.value = Some(updated);
                self.last_update_ms = Some(now_ms);
                updated
            },
            _ => {
                self.value = Some(sample);
                self.last_update_ms = Some(now_ms);
                sample
            },
        }
    }

    /// What `warmed_value` returns: the value once at least one warmup
    /// period has elapsed between the first and the latest sample.
    pub open spec fn spec_warmed_value(self) -> Option<u64> {
        match (self.first_update_ms, self.last_update_ms) {
            (Some(first), Some(last)) => if last >= first && last - first >= self.warmup_ms {
                self.value
            } else {
                None
            },
            _ => None,
        }
    }

    /// The EMA value once at least one decay time has elapsed since the
    /// first sample; `None` while still warming up.
    pub fn warmed_value(&self) -> (r: Option<u64>)
        ensures
            r == self.spec_warmed_value(),
    {
        match (self.first_update_ms, self.last_update_ms) {
            (Some(first), Some(last)) => {
                if last >= first && last - first >= self.warmup_ms {
                    self.value
                } else {
                    None
                }
            },
            _ => None,
        }
    }
}

/// A weight of at most one million parts per million never moves the EMA
/// past the sample: `alpha * diff / PPM <= diff`.
proof fn lemma_weighted_move_bounded(alpha: int, diff: int)
    requires
        0 <= alpha <= PPM,
        0 <= diff,
    ensures
        0 <= (alpha * diff) / (PPM as int) <= diff,
{
    vstd::arithmetic::mul::lemma_mul_inequality(alpha, PPM as int, diff);
    vstd::arithmetic::mul::lemma_mul_nonnegative(alpha, diff);
    vstd::arithmetic::div_mod::lemma_div_is_ordered(
        alpha * diff,
        (PPM as int) * diff,
        PPM as int,
    );
    vstd::arithmetic::div_mod::lemma_div_multiples_vanish(diff, PPM as int);
    vstd::arithmetic::div_mod::lemma_div_pos_is_pos(alpha * diff, PPM as int);
}

} // verus!
