use vstd::prelude::*;
use crate::order::{side_label, side_named, Side};
use crate::position::PositionStatus;
use crate::robot::{
    entry_actions, next_state, notice_text, phase_actions, step_actions, Action, Notice, COOL_DOWN_MS,
    SETTLE_PAUSE_MS, STEP_PAUSE_MS,
};
use crate::state::StrategyState;

verus! {

/// The side's entry order is missing from the snapshot.
pub open spec fn lacks_order(data: PositionStatus, side: Side) -> bool {
    match side {
        Side::Buy => data.lacks_buy_order(),
        Side::Sell => data.lacks_sell_order(),
    }
}

/// Where the entry order requests of a ready, flat step stand in its action list.
proof fn entry_actions_members(data: PositionStatus, side: Side)
    ensures
        entry_actions(data).contains(Action::Submit(side)) <==> lacks_order(data, side),
{
    let b = if data.lacks_buy_order() {
        seq![Action::Say(Notice::BuyEntrySent), Action::Submit(Side::Buy)]
    } else {
        Seq::<Action>::empty()
    };
    let s = if data.lacks_sell_order() {
        seq![Action::Say(Notice::SellEntrySent), Action::Submit(Side::Sell)]
    } else {
        Seq::<Action>::empty()
    };
    assert(entry_actions(data) == b + s);
    if entry_actions(data).contains(Action::Submit(side)) {
        let i = choose|i: int| 0 <= i < (b + s).len() && (b + s)[i] == Action::Submit(side);
        if i < b.len() {
            assert(b[i] == Action::Submit(side));
        } else {
            assert(s[i - b.len()] == Action::Submit(side));
        }
    }
    if side == Side::Buy && data.lacks_buy_order() {
        assert((b + s)[1] == Action::Submit(Side::Buy));
    }
    if side == Side::Sell && data.lacks_sell_order() {
        assert((b + s)[b.len() + 1int] == Action::Submit(Side::Sell));
    }
}

/// Exactly when a step sends an entry order of a side.
proof fn submits_exactly_when(state: StrategyState, data: PositionStatus, side: Side)
    ensures
        step_actions(state, data).contains(Action::Submit(side)) <==> (state
            == StrategyState::Ready && !data.in_position && lacks_order(data, side)),
{
    let head = seq![Action::Pause(STEP_PAUSE_MS)];
    let rest = phase_actions(state, data);
    let all = step_actions(state, data);
    assert(all == head + rest);
    entry_actions_members(data, side);
    if all.contains(Action::Submit(side)) {
        let i = choose|i: int| 0 <= i < all.len() && all[i] == Action::Submit(side);
        assert(i >= 1);
        assert(rest[i - 1] == Action::Submit(side));
        assert(rest.contains(Action::Submit(side)));
        if state == StrategyState::Ready && !data.in_position {
            let a = seq![Action::Pause(STEP_PAUSE_MS)];
            let e = entry_actions(data);
            let z = seq![Action::Pause(SETTLE_PAUSE_MS), Action::Say(Notice::ToWaitingForEntry)];
            assert(rest == a + e + z);
            let j = i - 1;
            if j >= 1 && j < 1 + e.len() {
                assert(e[j - 1] == Action::Submit(side));
            } else if j == 0 {
                assert(rest[0] == Action::Pause(STEP_PAUSE_MS));
            } else {
                assert(rest[j] == z[j - 1 - e.len()]);
            }
        } else {
            assert(rest[i - 1] != Action::Submit(side));
        }
    }
    if state == StrategyState::Ready && !data.in_position && lacks_order(data, side) {
        let e = entry_actions(data);
        let k = choose|k: int| 0 <= k < e.len() && e[k] == Action::Submit(side);
        let a = seq![Action::Pause(STEP_PAUSE_MS)];
        let z = seq![Action::Pause(SETTLE_PAUSE_MS), Action::Say(Notice::ToWaitingForEntry)];
        assert(rest == a + e + z);
        assert(all[k + 2] == Action::Submit(side));
    }
}

/// An entry order is sent only from the ready phase, only while no position
/// is open, and only on a side whose entry order is missing; and a ready,
/// flat step sends every missing entry order.
pub proof fn entry_orders_exactly_when_flat_ready_and_missing(
    state: StrategyState,
    data: PositionStatus,
    side: Side,
)
    ensures
        step_actions(state, data).contains(Action::Submit(side)) <==> (state
            == StrategyState::Ready && !data.in_position && lacks_order(data, side)),
{
    submits_exactly_when(state, data, side);
}

/// No step sends an entry order while a position is open.
pub proof fn no_entry_order_while_in_position(
    state: StrategyState,
    data: PositionStatus,
    side: Side,
)
    requires
        data.in_position,
    ensures
        !step_actions(state, data).contains(Action::Submit(side)),
{
    submits_exactly_when(state, data, side);
}

/// A step sends at most one entry order of each side.
pub proof fn at_most_one_entry_order_per_side(
    state: StrategyState,
    data: PositionStatus,
    side: Side,
    i: int,
    j: int,
)
    requires
        0 <= i < step_actions(state, data).len(),
        0 <= j < step_actions(state, data).len(),
        step_actions(state, data)[i] == Action::Submit(side),
        step_actions(state, data)[j] == Action::Submit(side),
    ensures
        i == j,
{
    let all = step_actions(state, data);
    submits_exactly_when(state, data, side);
    assert(all.contains(Action::Submit(side)));
    let e = entry_actions(data);
    let b = if data.lacks_buy_order() {
        seq![Action::Say(Notice::BuyEntrySent), Action::Submit(Side::Buy)]
    } else {
        Seq::<Action>::empty()
    };
    let s = if data.lacks_sell_order() {
        seq![Action::Say(Notice::SellEntrySent), Action::Submit(Side::Sell)]
    } else {
        Seq::<Action>::empty()
    };
    let z = seq![Action::Pause(SETTLE_PAUSE_MS), Action::Say(Notice::ToWaitingForEntry)];
    assert(e == b + s);
    assert(all == seq![Action::Pause(STEP_PAUSE_MS), Action::Pause(STEP_PAUSE_MS)] + b + s + z);
    assert(all.len() == 4 + b.len() + s.len());
    assert(forall|k: int| 0 <= k < 2 ==> all[k] == Action::Pause(STEP_PAUSE_MS));
    assert(forall|k: int| 2 + b.len() + s.len() <= k < all.len() ==> #[trigger] all[k] == z[k - 2 - b.len() - s.len()]);
    assert(forall|k: int| 2 <= k < 2 + b.len() ==> #[trigger] all[k] == b[k - 2]);
    assert(forall|k: int| 2 + b.len() <= k < 2 + b.len() + s.len() ==> #[trigger] all[k] == s[k - 2 - b.len()]);
}

/// The idle and shut-down phases are left by no step, and such a step does
/// nothing but its opening pause.
pub proof fn dormant_phases_stay_put(state: StrategyState, data: PositionStatus)
    requires
        state.is_dormant(),
    ensures
        next_state(state, data) == state,
        step_actions(state, data) == seq![Action::Pause(STEP_PAUSE_MS)],
{
    assert(step_actions(state, data) =~= seq![Action::Pause(STEP_PAUSE_MS)]);
}

/// Every step opens with the short pause that throttles the robot's loop.
pub proof fn every_step_opens_with_a_pause(state: StrategyState, data: PositionStatus)
    ensures
        step_actions(state, data).len() >= 1,
        step_actions(state, data)[0] == Action::Pause(STEP_PAUSE_MS),
{
}

/// Once launched, the robot stays among the trading phases: a step from the
/// start-up phase or a trading phase leads to a trading phase.
pub proof fn launched_robot_stays_in_trading_phases(state: StrategyState, data: PositionStatus)
    requires
        state == StrategyState::StartUp || state.is_trading_phase(),
    ensures
        next_state(state, data).is_trading_phase(),
{
}

/// A trading robot that sees an open position is in a trade after the step.
pub proof fn open_position_leads_to_in_trade(state: StrategyState, data: PositionStatus)
    requires
        state.is_trading_phase(),
        data.in_position,
    ensures
        next_state(state, data) == StrategyState::InTrade,
{
}

/// A trade that has closed sends the robot back to ready, after a long
/// cool-down pause.
pub proof fn closed_trade_returns_to_ready_after_cool_down(data: PositionStatus)
    requires
        !data.in_position,
    ensures
        next_state(StrategyState::InTrade, data) == StrategyState::Ready,
        step_actions(StrategyState::InTrade, data).contains(Action::Pause(COOL_DOWN_MS)),
{
    assert(step_actions(StrategyState::InTrade, data)[2] == Action::Pause(COOL_DOWN_MS));
}

/// While flat with both entry orders working, waiting for an entry changes
/// nothing and sends nothing.
pub proof fn waiting_with_both_orders_is_quiet(data: PositionStatus)
    requires
        !data.in_position,
        !data.lacks_buy_order(),
        !data.lacks_sell_order(),
    ensures
        next_state(StrategyState::WaitingForEntry, data) == StrategyState::WaitingForEntry,
        step_actions(StrategyState::WaitingForEntry, data) == seq![Action::Pause(STEP_PAUSE_MS)],
{
    assert(step_actions(StrategyState::WaitingForEntry, data) =~= seq![Action::Pause(STEP_PAUSE_MS)]);
}

/// While waiting for an entry, flat, an entry order that has gone missing is
/// sent again on the following step (given the same snapshot).
pub proof fn missing_entry_order_is_sent_again(data: PositionStatus, side: Side)
    requires
        !data.in_position,
        lacks_order(data, side),
    ensures
        next_state(StrategyState::WaitingForEntry, data) == StrategyState::Ready,
        step_actions(next_state(StrategyState::WaitingForEntry, data), data).contains(
            Action::Submit(side),
        ),
{
    submits_exactly_when(StrategyState::Ready, data, side);
}

/// The label that an order request travels under reads back as its side.
pub proof fn side_label_reads_back(side: Side)
    ensures
        side_named(side_label(side)) == Some(side),
{
    reveal_strlit("Buy");
    reveal_strlit("buy");
    reveal_strlit("Sell");
    reveal_strlit("sell");
    assert("Sell"@.len() == 4 && "Buy"@.len() == 3 && "buy"@.len() == 3);
}

/// A step from start-up always leads to ready, whatever the snapshot, after
/// a short pause and two log lines.
pub proof fn start_up_always_progresses_to_ready(data: PositionStatus)
    ensures
        next_state(StrategyState::StartUp, data) == StrategyState::Ready,
        step_actions(StrategyState::StartUp, data) == seq![
            Action::Pause(10u64),
            Action::Pause(10u64),
            Action::Say(Notice::StartingUp),
            Action::Say(Notice::ProgressToReady),
        ],
{
    assert(step_actions(StrategyState::StartUp, data) =~= seq![
        Action::Pause(10u64),
        Action::Pause(10u64),
        Action::Say(Notice::StartingUp),
        Action::Say(Notice::ProgressToReady),
    ]);
}

/// A ready step that finds a position open moves in trade at once, sending
/// nothing and pausing no longer than the two short pauses, whatever the
/// order ids.
pub proof fn ready_with_position_moves_in_trade_at_once(data: PositionStatus)
    requires
        data.in_position,
    ensures
        next_state(StrategyState::Ready, data) == StrategyState::InTrade,
        step_actions(StrategyState::Ready, data) == seq![
            Action::Pause(10u64),
            Action::Pause(10u64),
            Action::Say(Notice::PositionFound),
        ],
{
    assert(step_actions(StrategyState::Ready, data) =~= seq![
        Action::Pause(10u64),
        Action::Pause(10u64),
        Action::Say(Notice::PositionFound),
    ]);
}

/// A ready step while flat always moves to waiting for entry, whatever the
/// order ids, and its actions are exactly: the two short pauses, an
/// announced buy entry where none works, an announced sell entry where none
/// works, the 5 s settle pause and the transition line.
pub proof fn ready_while_flat_places_bracket_and_waits(data: PositionStatus)
    requires
        !data.in_position,
    ensures
        next_state(StrategyState::Ready, data) == StrategyState::WaitingForEntry,
        data.active_buy_order_id == 0 && data.active_sell_order_id == 0 ==> step_actions(
            StrategyState::Ready,
            data,
        ) == seq![
            Action::Pause(10u64),
            Action::Pause(10u64),
            Action::Say(Notice::BuyEntrySent),
            Action::Submit(Side::Buy),
            Action::Say(Notice::SellEntrySent),
            Action::Submit(Side::Sell),
            Action::Pause(5000u64),
            Action::Say(Notice::ToWaitingForEntry),
        ],
        data.active_buy_order_id == 0 && data.active_sell_order_id != 0 ==> step_actions(
            StrategyState::Ready,
            data,
        ) == seq![
            Action::Pause(10u64),
            Action::Pause(10u64),
            Action::Say(Notice::BuyEntrySent),
            Action::Submit(Side::Buy),
            Action::Pause(5000u64),
            Action::Say(Notice::ToWaitingForEntry),
        ],
        data.active_buy_order_id != 0 && data.active_sell_order_id == 0 ==> step_actions(
            StrategyState::Ready,
            data,
        ) == seq![
            Action::Pause(10u64),
            Action::Pause(10u64),
            Action::Say(Notice::SellEntrySent),
            Action::Submit(Side::Sell),
            Action::Pause(5000u64),
            Action::Say(Notice::ToWaitingForEntry),
        ],
        data.active_buy_order_id != 0 && data.active_sell_order_id != 0 ==> step_actions(
            StrategyState::Ready,
            data,
        ) == seq![
            Action::Pause(10u64),
            Action::Pause(10u64),
            Action::Pause(5000u64),
            Action::Say(Notice::ToWaitingForEntry),
        ],
{
    let all = step_actions(StrategyState::Ready, data);
    if data.active_buy_order_id == 0 && data.active_sell_order_id == 0 {
        assert(all =~= seq![
            Action::Pause(10u64),
            Action::Pause(10u64),
            Action::Say(Notice::BuyEntrySent),
            Action::Submit(Side::Buy),
            Action::Say(Notice::SellEntrySent),
            Action::Submit(Side::Sell),
            Action::Pause(5000u64),
            Action::Say(Notice::ToWaitingForEntry),
        ]);
    } else if data.active_buy_order_id == 0 {
        assert(all =~= seq![
            Action::Pause(10u64),
            Action::Pause(10u64),
            Action::Say(Notice::BuyEntrySent),
            Action::Submit(Side::Buy),
            Action::Pause(5000u64),
            Action::Say(Notice::ToWaitingForEntry),
        ]);
    } else if data.active_sell_order_id == 0 {
        assert(all =~= seq![
            Action::Pause(10u64),
            Action::Pause(10u64),
            Action::Say(Notice::SellEntrySent),
            Action::Submit(Side::Sell),
            Action::Pause(5000u64),
            Action::Say(Notice::ToWaitingForEntry),
        ]);
    } else {
        assert(all =~= seq![
            Action::Pause(10u64),
            Action::Pause(10u64),
            Action::Pause(5000u64),
            Action::Say(Notice::ToWaitingForEntry),
        ]);
    }
}

/// While waiting for an entry: an open position moves the robot in trade at
/// once, and while flat a missing entry order (either side) sends it back to
/// ready at once; neither step pauses beyond the opening pause.
pub proof fn waiting_reacts_without_delay(data: PositionStatus)
    ensures
        data.in_position ==> next_state(StrategyState::WaitingForEntry, data)
            == StrategyState::InTrade && step_actions(StrategyState::WaitingForEntry, data)
            == seq![Action::Pause(10u64), Action::Say(Notice::ToInTrade)],
        !data.in_position && (data.active_buy_order_id == 0 || data.active_sell_order_id == 0)
            ==> next_state(StrategyState::WaitingForEntry, data) == StrategyState::Ready
            && step_actions(StrategyState::WaitingForEntry, data) == seq![
            Action::Pause(10u64),
            Action::Say(Notice::ToReady),
        ],
{
    if data.in_position {
        assert(step_actions(StrategyState::WaitingForEntry, data) =~= seq![
            Action::Pause(10u64),
            Action::Say(Notice::ToInTrade),
        ]);
    } else if data.active_buy_order_id == 0 || data.active_sell_order_id == 0 {
        assert(step_actions(StrategyState::WaitingForEntry, data) =~= seq![
            Action::Pause(10u64),
            Action::Say(Notice::ToReady),
        ]);
    }
}

/// In a trade: while the position is open the robot stays in trade and only
/// pauses (10 ms then 5 s), whatever the order ids; once it has closed, the
/// robot announces the move, cools down 450 s, pauses 5 s and is ready.
pub proof fn in_trade_holds_then_cools_down(data: PositionStatus)
    ensures
        data.in_position ==> next_state(StrategyState::InTrade, data) == StrategyState::InTrade
            && step_actions(StrategyState::InTrade, data) == seq![
            Action::Pause(10u64),
            Action::Pause(5000u64),
        ],
        !data.in_position ==> next_state(StrategyState::InTrade, data) == StrategyState::Ready
            && step_actions(StrategyState::InTrade, data) == seq![
            Action::Pause(10u64),
            Action::Say(Notice::ToReady),
            Action::Pause(450000u64),
            Action::Pause(5000u64),
        ],
{
    if data.in_position {
        assert(step_actions(StrategyState::InTrade, data) =~= seq![
            Action::Pause(10u64),
            Action::Pause(5000u64),
        ]);
    } else {
        assert(step_actions(StrategyState::InTrade, data) =~= seq![
            Action::Pause(10u64),
            Action::Say(Notice::ToReady),
            Action::Pause(450000u64),
            Action::Pause(5000u64),
        ]);
    }
}

/// The 450 s cool-down pause happens exactly on a step from a trade whose
/// position has closed.
pub proof fn cool_down_exactly_after_a_closed_trade(state: StrategyState, data: PositionStatus)
    ensures
        step_actions(state, data).contains(Action::Pause(450000u64)) <==> (state
            == StrategyState::InTrade && !data.in_position),
{
    let all = step_actions(state, data);
    let cd = Action::Pause(450000u64);
    match state {
        StrategyState::StartUp => start_up_always_progresses_to_ready(data),
        StrategyState::Ready => {
            if data.in_position {
                ready_with_position_moves_in_trade_at_once(data);
            } else {
                ready_while_flat_places_bracket_and_waits(data);
            }
        },
        StrategyState::WaitingForEntry => {
            waiting_reacts_without_delay(data);
            if !data.in_position && data.active_buy_order_id != 0 && data.active_sell_order_id
                != 0 {
                waiting_with_both_orders_is_quiet(data);
            }
        },
        StrategyState::InTrade => {
            in_trade_holds_then_cools_down(data);
            if !data.in_position {
                assert(all[2] == cd);
            }
        },
        _ => dormant_phases_stay_put(state, data),
    }
    if all.contains(cd) {
        let i = choose|i: int| 0 <= i < all.len() && all[i] == cd;
        assert(all[i] == cd);
    }
}

/// The lines that the robot writes to its log, word for word.
pub proof fn log_lines_word_for_word(n: Notice)
    ensures
        n == Notice::StartingUp ==> notice_text(n) == "StartUp"@,
        n == Notice::ProgressToReady ==> notice_text(n) == "Progress to ready"@,
        n == Notice::BuyEntrySent ==> notice_text(n) == "Pew"@,
        n == Notice::SellEntrySent ==> notice_text(n) == "Pew Pew"@,
        n == Notice::ToWaitingForEntry ==> notice_text(n) == "Transitioning to WaitingForEntry"@,
        n == Notice::PositionFound ==> notice_text(n) == "InTrade"@,
        n == Notice::ToReady ==> notice_text(n) == "Transitioning to Ready"@,
        n == Notice::ToInTrade ==> notice_text(n) == "Transitioning to Intrade"@,
{
}

/// Order requests travel as "Buy" and "Sell"; a request labelled with
/// either capitalisation of the first letter is understood, and any other
/// label names no side.
pub proof fn request_labels(label: Seq<char>)
    ensures
        side_label(Side::Buy) == "Buy"@,
        side_label(Side::Sell) == "Sell"@,
        label == "Buy"@ || label == "buy"@ ==> side_named(label) == Some(Side::Buy),
        label == "Sell"@ || label == "sell"@ ==> side_named(label) == Some(Side::Sell),
        label != "Buy"@ && label != "buy"@ && label != "Sell"@ && label != "sell"@
            ==> side_named(label) == None::<Side>,
{
    reveal_strlit("Buy");
    reveal_strlit("buy");
    reveal_strlit("Sell");
    reveal_strlit("sell");
    assert("Sell"@.len() == 4 && "sell"@.len() == 4 && "Buy"@.len() == 3 && "buy"@.len() == 3);
}

} // verus!
