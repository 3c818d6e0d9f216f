//! The account's position, read-only to the engine.

use vstd::prelude::*;

use crate::types::price::Price;
use crate::units::{add_saturating, sat_add, sat_i64, scale_signed, tdiv, SCALE};

verus! {

/// Signed base and quote positions in fixed-point units. Positive base
/// means long the base asset; positive quote means holding quote cash.
#[derive(Debug, Clone, Copy, PartialEq, Eq, Structural, Default)]
pub struct Inventory {
    /// Base asset position.
    pub base: i64,
    /// Quote cash position.
    pub quote: i64,
}

impl Inventory {
    /// The signed value of the base position at `mid`, in quote units,
    /// truncated toward zero and clamped into the `i64` range.
    pub open spec fn spec_exposure_quote(self, mid: Price) -> int {
        sat_i64(tdiv(self.base * mid.spec_units(), SCALE as int))
    }

    /// Mark-to-market value in quote units at `mid`, clamped likewise.
    pub open spec fn spec_mtm_quote(self, mid: Price) -> int {
        sat_add(self.quote as int, self.spec_exposure_quote(mid))
    }

    pub fn new(base: i64, quote: i64) -> (r: Self)
        ensures
            r.base == base,
            r.quote == quote,
    {
        Inventory { base, quote }
    }

    /// Base exposure in quote currency at `mid`.
    pub fn exposure_quote(&self, mid: Price) -> (r: i64)
        requires
            mid.wf(),
        ensures
            r == self.spec_exposure_quote(mid),
    {
        scale_signed(self.base, mid.units())
    }

    /// Mark-to-market value in quote currency at `mid`.
    pub fn mtm_quote(&self, mid: Price) -> (r: i64)
        requires
            mid.wf(),
        ensures
            r == self.spec_mtm_quote(mid),
    {
        add_saturating(self.quote, self.exposure_quote(mid))
    }
}

} // verus!
