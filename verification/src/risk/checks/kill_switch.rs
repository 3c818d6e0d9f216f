//! Operator kill switch: reject everything while enabled.

use vstd::prelude::*;

use crate::risk::context::RiskContext;
use crate::risk::decision::RiskReason;

verus! {

/// Fails every evaluation while enabled.
#[derive(Debug, Clone, Copy, PartialEq, Eq, Structural)]
pub struct KillSwitchCheck {
    pub enabled: bool,
}

impl KillSwitchCheck {
    /// The reasons this check contributes.
    pub open spec fn spec_reasons(self) -> Seq<RiskReason> {
        if self.enabled {
            seq![RiskReason::KillSwitchEnabled]
        } else {
            Seq::empty()
        }
    }

    pub fn new(enabled: bool) -> (r: Self)
        ensures
            r.enabled == enabled,
    {
        KillSwitchCheck { enabled }
    }

    pub fn evaluate(&self, _context: &RiskContext<'_>) -> (r: Result<(), Vec<RiskReason>>)
        ensures
            match r {
                Ok(()) => self.spec_reasons() =~= Seq::<RiskReason>::empty(),
                Err(v) => v@ =~= self.spec_reasons() && v@.len() > 0,
            },
    {
        if self.enabled {
            let mut v: Vec<RiskReason> = Vec::new();
            v.push(RiskReason::KillSwitchEnabled);
            Err(v)
        } else {
            Ok(())
        }
    }
}

} // verus!
