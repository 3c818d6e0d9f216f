//! Non-negative prices in quote currency, held as fixed-point units.

use vstd::prelude::*;

use crate::units::MAX_UNITS;

verus! {

/// A non-negative price in quote currency. One unit is 10^-12 of the
/// quote currency.
#[derive(Debug, Clone, Copy, PartialEq, Eq, Structural)]
pub struct Price {
    pub units: u64,
}

impl Price {
    /// A price the engine can do arithmetic on without overflow.
    pub open spec fn wf(self) -> bool {
        self.units <= MAX_UNITS
    }

    pub open spec fn spec_units(self) -> u64 {
        self.units
    }

    pub fn new(units: u64) -> (r: Price)
        requires
            units <= MAX_UNITS,
        ensures
            r.spec_units() == units,
            r.wf(),
    {
        Price { units }
    }

    #[verifier::when_used_as_spec(spec_units)]
    pub fn units(self) -> (r: u64)
        ensures
            r == self.spec_units(),
    {
        self.units
    }
}

} // verus!
