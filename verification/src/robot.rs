use vstd::prelude::*;
use crate::order::Side;
use crate::position::PositionStatus;
use crate::state::StrategyState;

verus! {

/// Pause at the start of every step, and again on entering the start-up and
/// ready phases, in milliseconds.
pub const STEP_PAUSE_MS: u64 = 10;

/// Pause after the entry orders of a ready step have been sent, and on every
/// step spent in a trade, in milliseconds.
pub const SETTLE_PAUSE_MS: u64 = 5000;

/// Pause after a trade has closed, before the robot trades again, in
/// milliseconds.
pub const COOL_DOWN_MS: u64 = 450000;

/// The contract that the robot trades.
pub const CONTRACT_ID: i64 = 2553028;

/// A line that the robot writes to its log.
#[derive(Clone, Copy, Debug, PartialEq, Eq, Structural)]
pub enum Notice {
    StartingUp,
    ProgressToReady,
    BuyEntrySent,
    SellEntrySent,
    ToWaitingForEntry,
    PositionFound,
    ToReady,
    ToInTrade,
}

/// The text of a log line.
pub open spec fn notice_text(n: Notice) -> Seq<char> {
    match n {
        Notice::StartingUp => "StartUp"@,
        Notice::ProgressToReady => "Progress to ready"@,
        Notice::BuyEntrySent => "Pew"@,
        Notice::SellEntrySent => "Pew Pew"@,
        Notice::ToWaitingForEntry => "Transitioning to WaitingForEntry"@,
        Notice::PositionFound => "InTrade"@,
        Notice::ToReady => "Transitioning to Ready"@,
        Notice::ToInTrade => "Transitioning to Intrade"@,
    }
}

impl Notice {
    /// The text of this log line.
    pub fn text(&self) -> (t: &'static str)
        ensures
            t@ == notice_text(*self),
    {
        match self {
            Notice::StartingUp => "StartUp",
            Notice::ProgressToReady => "Progress to ready",
            Notice::BuyEntrySent => "Pew",
            Notice::SellEntrySent => "Pew Pew",
            Notice::ToWaitingForEntry => "Transitioning to WaitingForEntry",
            Notice::PositionFound => "InTrade",
            Notice::ToReady => "Transitioning to Ready",
            Notice::ToInTrade => "Transitioning to Intrade",
        }
    }
}

/// One thing that a step of the robot asks the program around it to do.
#[derive(Clone, Copy, Debug, PartialEq, Eq, Structural)]
pub enum Action {
    /// Sleep for this many milliseconds.
    Pause(u64),
    /// Write this line to the log.
    Say(Notice),
    /// Send an entry order request of this side, carrying the robot's
    /// strategy details as they stood when the step began.
    Submit(Side),
}

/// The entry orders that a ready, flat robot sends: a buy where no buy order
/// works, then a sell where no sell order works, each announced first.
pub open spec fn entry_actions(data: PositionStatus) -> Seq<Action> {
    (if data.lacks_buy_order() {
        seq![Action::Say(Notice::BuyEntrySent), Action::Submit(Side::Buy)]
    } else {
        Seq::empty()
    }) + (if data.lacks_sell_order() {
        seq![Action::Say(Notice::SellEntrySent), Action::Submit(Side::Sell)]
    } else {
        Seq::empty()
    })
}

/// The phase that one step leads to from `state`, given the account snapshot.
pub open spec fn next_state(state: StrategyState, data: PositionStatus) -> StrategyState {
    match state {
        StrategyState::Idle => StrategyState::Idle,
        StrategyState::StartUp => StrategyState::Ready,
        StrategyState::Ready => if data.in_position {
            StrategyState::InTrade
        } else {
            StrategyState::WaitingForEntry
        },
        StrategyState::WaitingForEntry => if data.in_position {
            StrategyState::InTrade
        } else if data.lacks_buy_order() || data.lacks_sell_order() {
            StrategyState::Ready
        } else {
            StrategyState::WaitingForEntry
        },
        StrategyState::InTrade => if data.in_position {
            StrategyState::InTrade
        } else {
            StrategyState::Ready
        },
        StrategyState::Shutdown => StrategyState::Shutdown,
    }
}

/// What one step does in `state` after its opening pause.
pub open spec fn phase_actions(state: StrategyState, data: PositionStatus) -> Seq<Action> {
    match state {
        StrategyState::Idle => Seq::empty(),
        StrategyState::StartUp => seq![
            Action::Pause(STEP_PAUSE_MS),
            Action::Say(Notice::StartingUp),
            Action::Say(Notice::ProgressToReady),
        ],
        StrategyState::Ready => if data.in_position {
            seq![Action::Pause(STEP_PAUSE_MS), Action::Say(Notice::PositionFound)]
        } else {
            seq![Action::Pause(STEP_PAUSE_MS)] + entry_actions(data) + seq![
                Action::Pause(SETTLE_PAUSE_MS),
                Action::Say(Notice::ToWaitingForEntry),
            ]
        },
        StrategyState::WaitingForEntry => if data.in_position {
            seq![Action::Say(Notice::ToInTrade)]
        } else if data.lacks_buy_order() || data.lacks_sell_order() {
            seq![Action::Say(Notice::ToReady)]
        } else {
            Seq::empty()
        },
        StrategyState::InTrade => if data.in_position {
            seq![Action::Pause(SETTLE_PAUSE_MS)]
        } else {
            seq![
                Action::Say(Notice::ToReady),
                Action::Pause(COOL_DOWN_MS),
                Action::Pause(SETTLE_PAUSE_MS),
            ]
        },
        StrategyState::Shutdown => Seq::empty(),
    }
}

/// Everything that one step does, in order: the opening pause, then what
/// the phase calls for.
pub open spec fn step_actions(state: StrategyState, data: PositionStatus) -> Seq<Action> {
    seq![Action::Pause(STEP_PAUSE_MS)] + phase_actions(state, data)
}

/// The trading robot: what it trades, its phase, and the latest account
/// snapshot that it has been given.
#[derive(Debug)]
pub struct Robot {
    pub symbol: String,
    pub contract_id: i64,
    pub order_type: String,
    pub strategy_state: StrategyState,
    pub user_data: PositionStatus,
}

impl Robot {
    /// A robot for the micro Nasdaq June 2022 contract with stop entry
    /// orders, in the default phase and with an empty account snapshot.
    pub fn new() -> (r: Robot)
        ensures
            r.symbol@ == "MNQM2"@,
            r.contract_id == CONTRACT_ID,
            r.order_type@ == "Stop"@,
            r.strategy_state == StrategyState::Idle,
            r.user_data == (PositionStatus {
                in_position: false,
                active_buy_order_id: 0,
                active_sell_order_id: 0,
            }),
    {
        Robot {
            symbol: "MNQM2".to_owned(),
            contract_id: CONTRACT_ID,
            order_type: "Stop".to_owned(),
            strategy_state: StrategyState::default(),
            user_data: PositionStatus::default(),
        }
    }

    /// Replaces the account snapshot with a newer one.
    pub fn set_user_data(&mut self, data: PositionStatus)
        ensures
            final(self).user_data == data,
            final(self).strategy_state == old(self).strategy_state,
            final(self).symbol == old(self).symbol,
            final(self).contract_id == old(self).contract_id,
            final(self).order_type == old(self).order_type,
    {
        self.user_data = data;
    }

    /// Sets the phase, as the program does when it launches the strategy.
    pub fn set_strategy_state(&mut self, state: StrategyState)
        ensures
            final(self).strategy_state == state,
            final(self).user_data == old(self).user_data,
            final(self).symbol == old(self).symbol,
            final(self).contract_id == old(self).contract_id,
            final(self).order_type == old(self).order_type,
    {
        self.strategy_state = state;
    }

    /// One pass of the strategy: moves to the next phase and returns, in
    /// order, what the program around the robot is to do.
    pub fn state_machine(&mut self) -> (actions: Vec<Action>)
        ensures
            final(self).strategy_state == next_state(
                old(self).strategy_state,
                old(self).user_data,
            ),
            actions@ == step_actions(old(self).strategy_state, old(self).user_data),
            final(self).user_data == old(self).user_data,
            final(self).symbol == old(self).symbol,
            final(self).contract_id == old(self).contract_id,
            final(self).order_type == old(self).order_type,
    {
        let data = self.user_data;
        let mut actions: Vec<Action> = Vec::new();
        actions.push(Action::Pause(STEP_PAUSE_MS));
        match self.strategy_state {
            StrategyState::Idle => {},
            StrategyState::StartUp => {
                actions.push(Action::Pause(STEP_PAUSE_MS));
                actions.push(Action::Say(Notice::StartingUp));
                actions.push(Action::Say(Notice::ProgressToReady));
                self.strategy_state = StrategyState::Ready;
            },
            StrategyState::Ready => {
                actions.push(Action::Pause(STEP_PAUSE_MS));
                if !data.in_position {
                    if data.active_buy_order_id == 0 {
                        actions.push(Action::Say(Notice::BuyEntrySent));
                        actions.push(Action::Submit(Side::Buy));
                    }
                    if data.active_sell_order_id == 0 {
                        actions.push(Action::Say(Notice::SellEntrySent));
                        actions.push(Action::Submit(Side::Sell));
                    }
                    actions.push(Action::Pause(SETTLE_PAUSE_MS));
                    actions.push(Action::Say(Notice::ToWaitingForEntry));
                    self.strategy_state = StrategyState::WaitingForEntry;
                } else {
                    actions.push(Action::Say(Notice::PositionFound));
                    self.strategy_state = StrategyState::InTrade;
                }
            },
            StrategyState::WaitingForEntry => {
                if !data.in_position {
                    if data.active_buy_order_id == 0 || data.active_sell_order_id == 0 {
                        self.strategy_state = StrategyState::Ready;
                        actions.push(Action::Say(Notice::ToReady));
                    }
                } else {
                    actions.push(Action::Say(Notice::ToInTrade));
                    self.strategy_state = StrategyState::InTrade;
                }
            },
            StrategyState::InTrade => {
                if !data.in_position {
                    actions.push(Action::Say(Notice::ToReady));
                    self.strategy_state = StrategyState::Ready;
                    actions.push(Action::Pause(COOL_DOWN_MS));
                }
                actions.push(Action::Pause(SETTLE_PAUSE_MS));
            },
            StrategyState::Shutdown => {},
        }
        actions
    }
}

} // verus!
