//! Selection of strategy and venue kinds, and the signal configuration
//! each strategy wants.

use vstd::prelude::*;

use crate::market::market_state::MarketState;
use crate::signals::signal_state::SignalState;
use crate::strategy::strategies::mean_reversion::MakerOnlyMeanReversionStrategy;
use crate::strategy::strategies::regime_switch::RegimeSwitchStrategy;
use crate::strategy::strategies::simple_mm::SimpleMarketMakerStrategy;
use crate::strategy::strategies::trend_following::MakerOnlyTrendFollowingStrategy;
use crate::types::instrument::Instrument;
use crate::types::inventory::Inventory;
use crate::types::quote_target::{NoQuoteReason, QuoteTarget};

verus! {

/// The strategy the engine runs.
#[derive(Debug, Clone, Copy, PartialEq, Eq, Structural)]
pub enum StrategyKind {
    SimpleMarketMaker,
    MeanReversion,
    TrendFollowing,
    RegimeSwitch,
}

/// The venue the engine talks to.
#[derive(Debug, Clone, Copy, PartialEq, Eq, Structural)]
pub enum VenueKind {
    DryRun,
    Kraken,
}

/// One of the engine's strategies, selected at startup.
#[derive(Debug, Clone, PartialEq)]
pub enum EngineStrategy {
    SimpleMarketMaker(SimpleMarketMakerStrategy),
    MeanReversion(MakerOnlyMeanReversionStrategy),
    TrendFollowing(MakerOnlyTrendFollowingStrategy),
    RegimeSwitch(RegimeSwitchStrategy),
}

impl EngineStrategy {
    pub open spec fn wf(self) -> bool {
        match self {
            EngineStrategy::SimpleMarketMaker(s) => s.wf(),
            EngineStrategy::MeanReversion(s) => s.wf(),
            EngineStrategy::TrendFollowing(s) => s.wf(),
            EngineStrategy::RegimeSwitch(s) => s.wf(),
        }
    }

    /// The tick size the selected strategy quotes with.
    pub open spec fn spec_tick(self) -> u64 {
        match self {
            EngineStrategy::SimpleMarketMaker(s) => s.ctx.spec_rules().price_tick,
            EngineStrategy::MeanReversion(s) => s.ctx.spec_rules().price_tick,
            EngineStrategy::TrendFollowing(s) => s.ctx.spec_rules().price_tick,
            EngineStrategy::RegimeSwitch(s) => s.ctx.spec_rules().price_tick,
        }
    }

    /// The selected strategy's decision for these inputs.
    pub open spec fn spec_result(
        self,
        market: MarketState,
        signals: SignalState,
        inventory: Inventory,
    ) -> Result<QuoteTarget, NoQuoteReason> {
        match self {
            EngineStrategy::SimpleMarketMaker(s) => s.spec_compute_target(
                market,
                signals,
                inventory,
            ),
            EngineStrategy::MeanReversion(s) => s.spec_compute_target(market, signals, inventory),
            EngineStrategy::TrendFollowing(s) => s.spec_compute_target(market, signals),
            EngineStrategy::RegimeSwitch(s) => s.spec_result(market, signals, inventory),
        }
    }

    /// The strategy after one evaluation: only the regime switcher holds
    /// state that moves.
    pub open spec fn spec_updated(self, market: MarketState, signals: SignalState,
    ) -> EngineStrategy {
        match self {
            EngineStrategy::RegimeSwitch(s) => EngineStrategy::RegimeSwitch(
                s.spec_updated(market, signals),
            ),
            _ => self,
        }
    }

    /// Runs the selected strategy: the result and the strategy's next
    /// state equal the selected variant's specified ones. Whatever the
    /// strategy, an empty book yields no quote, an emitted bid rests at
    /// or below `ask - tick`, and an emitted ask at or above
    /// `bid + tick`, both on the tick grid.
    pub fn compute_target(
        &mut self,
        market_state: &MarketState,
        signal_state: &SignalState,
        inventory: Inventory,
    ) -> (r: Result<QuoteTarget, NoQuoteReason>)
        requires
            old(self).wf(),
            market_state.wf(),
            signal_state.wf(),
        ensures
            final(self).wf(),
            final(self).spec_tick() == old(self).spec_tick(),
            *final(self) == old(self).spec_updated(*market_state, *signal_state),
            r == old(self).spec_result(*market_state, *signal_state, inventory),
            !market_state.has_book() ==> r is Err,
            r matches Ok(t) ==> {
                let bid = market_state.spec_best_bid()->Some_0.spec_units() as int;
                let ask = market_state.spec_best_ask()->Some_0.spec_units() as int;
                let tick = old(self).spec_tick() as int;
                &&& t.wf()
                &&& (t.bid is Some || t.ask is Some)
                &&& (t.bid matches Some(q) ==> q.price.spec_units() <= ask - tick && (
                q.price.spec_units() as int) % tick == 0)
                &&& (t.ask matches Some(q) ==> q.price.spec_units() >= bid + tick && (
                q.price.spec_units() as int) % tick == 0)
            },
    {
        match self {
            EngineStrategy::SimpleMarketMaker(s) => s.compute_target(
                market_state,
                signal_state,
                inventory,
            ),
            EngineStrategy::MeanReversion(s) => s.compute_target(
                market_state,
                signal_state,
                inventory,
            ),
            EngineStrategy::TrendFollowing(s) => s.compute_target(
                market_state,
                signal_state,
                inventory,
            ),
            EngineStrategy::RegimeSwitch(s) => s.compute_target(
                market_state,
                signal_state,
                inventory,
            ),
        }
    }
}

/// Builds the pieces that depend on the selected strategy and venue.
pub struct Scenario;

impl Scenario {
    /// The strategy for the given kind, configured from the instrument's
    /// rules.
    pub fn strategy(kind: StrategyKind, instrument: &Instrument) -> (r: EngineStrategy)
        requires
            instrument.wf(),
        ensures
            r.wf(),
            match kind {
                StrategyKind::SimpleMarketMaker => r is SimpleMarketMaker,
                StrategyKind::MeanReversion => r is MeanReversion,
                StrategyKind::TrendFollowing => r is TrendFollowing,
                StrategyKind::RegimeSwitch => r is RegimeSwitch,
            },
    {
        match kind {
            StrategyKind::SimpleMarketMaker => EngineStrategy::SimpleMarketMaker(
                SimpleMarketMakerStrategy::for_instrument(instrument),
            ),
            StrategyKind::MeanReversion => EngineStrategy::MeanReversion(
                MakerOnlyMeanReversionStrategy::for_instrument(instrument),
            ),
            StrategyKind::TrendFollowing => EngineStrategy::TrendFollowing(
                MakerOnlyTrendFollowingStrategy::for_instrument(instrument),
            ),
            StrategyKind::RegimeSwitch => EngineStrategy::RegimeSwitch(
                RegimeSwitchStrategy::for_instrument(instrument),
            ),
        }
    }

    /// The signal configuration each strategy wants: the market maker
    /// tracks a fast anchor, the others a slower one. The slow EMA is
    /// five times the fast one; volatility decays with the fast one.
    pub fn signals(kind: StrategyKind) -> (r: SignalState)
        ensures
            r.wf(),
            r.last_ema_value is None,
            r.last_update_ms is None,
            r.ema_mid.tau_ms == match kind {
                StrategyKind::SimpleMarketMaker => 3_000u64,
                _ => 60_000u64,
            },
    {
        match kind {
            StrategyKind::SimpleMarketMaker => SignalState::new(3_000, 15_000, 3_000),
            StrategyKind::MeanReversion => SignalState::new(60_000, 300_000, 60_000),
            StrategyKind::TrendFollowing => SignalState::new(60_000, 300_000, 60_000),
            StrategyKind::RegimeSwitch => SignalState::new(60_000, 300_000, 60_000),
        }
    }
}

} // verus!
