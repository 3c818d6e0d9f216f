//! A single resting-order intent: price and quantity.

use vstd::prelude::*;

use crate::types::price::Price;
use crate::units::MAX_UNITS;

verus! {

/// One side of a desired quote: a price and a positive base quantity.
#[derive(Debug, Clone, Copy, PartialEq, Eq, Structural)]
pub struct Quote {
    pub price: Price,
    pub quantity: u64,
}

impl Quote {
    pub open spec fn wf(self) -> bool {
        &&& self.price.wf()
        &&& 0 < self.quantity <= MAX_UNITS
    }
}

} // verus!
