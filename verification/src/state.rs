use vstd::prelude::*;

verus! {

/// The phase that the trading strategy is in.
#[derive(Clone, Copy, Debug, PartialEq, Eq, Structural)]
pub enum StrategyState {
    /// Does nothing on each step.
    Idle,
    /// First phase after launch; moves on to `Ready`.
    StartUp,
    /// Flat and free to place entry orders.
    Ready,
    /// Entry orders are placed; waiting for one of them to fill.
    WaitingForEntry,
    /// A position is open.
    InTrade,
    /// Stopped; does nothing on each step.
    Shutdown,
}

impl Default for StrategyState {
    fn default() -> (s: StrategyState)
        ensures
            s == StrategyState::Idle,
    {
        StrategyState::Idle
    }
}

impl StrategyState {
    /// The phases in which the strategy does nothing at all.
    pub open spec fn is_dormant(self) -> bool {
        self == StrategyState::Idle || self == StrategyState::Shutdown
    }

    /// The phases that follow a launch, in which the strategy trades.
    pub open spec fn is_trading_phase(self) -> bool {
        ||| self == StrategyState::Ready
        ||| self == StrategyState::WaitingForEntry
        ||| self == StrategyState::InTrade
    }
}

} // verus!
