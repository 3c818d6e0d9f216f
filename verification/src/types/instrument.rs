//! The traded pair and its venue rules.

use vstd::prelude::*;

use crate::types::trading_rules::TradingRules;

verus! {

/// A spot trading pair: base and quote symbols plus the venue rules the
/// engine must respect for it.
#[derive(Debug, Clone, PartialEq)]
pub struct Instrument {
    pub base: String,
    pub quote: String,
    pub trading_rules: TradingRules,
}

impl Instrument {
    pub open spec fn wf(self) -> bool {
        self.trading_rules.wf()
    }

    pub open spec fn spec_base(self) -> Seq<char> {
        self.base@
    }

    pub open spec fn spec_quote(self) -> Seq<char> {
        self.quote@
    }

    pub open spec fn spec_trading_rules(self) -> TradingRules {
        self.trading_rules
    }

    pub fn new(base: String, quote: String, trading_rules: TradingRules) -> (r: Self)
        ensures
            r.spec_base() == base@,
            r.spec_quote() == quote@,
            r.spec_trading_rules() == trading_rules,
    {
        Instrument { base, quote, trading_rules }
    }

    pub fn base(&self) -> (r: &str)
        ensures
            r@ == self.spec_base(),
    {
        self.base.as_str()
    }

    pub fn quote(&self) -> (r: &str)
        ensures
            r@ == self.spec_quote(),
    {
        self.quote.as_str()
    }

    pub fn trading_rules(&self) -> (r: &TradingRules)
        ensures
            *r == self.spec_trading_rules(),
    {
        &self.trading_rules
    }

    /// A field-for-field copy; `String` fields make a derived clone
    /// opaque to the verifier, so the copy is spelled out.
    pub fn duplicate(&self) -> (r: Self)
        ensures
            r == *self,
    {
        Instrument {
            base: self.base.clone(),
            quote: self.quote.clone(),
            trading_rules: self.trading_rules,
        }
    }
}

} // verus!
