use tradovate_robot::order::Side;
use tradovate_robot::position::PositionStatus;
use tradovate_robot::robot::{
    Action, Notice, Robot, CONTRACT_ID, COOL_DOWN_MS, SETTLE_PAUSE_MS, STEP_PAUSE_MS,
};
use tradovate_robot::state::StrategyState;

fn robot_in(state: StrategyState, data: PositionStatus) -> Robot {
    let mut r = Robot::new();
    r.set_strategy_state(state);
    r.set_user_data(data);
    r
}

fn flat(buy: i64, sell: i64) -> PositionStatus {
    PositionStatus::new(false, buy, sell)
}

fn holding(buy: i64, sell: i64) -> PositionStatus {
    PositionStatus::new(true, buy, sell)
}

fn submissions(actions: &[Action]) -> Vec<Side> {
    actions
        .iter()
        .filter_map(|a| match a {
            Action::Submit(s) => Some(*s),
            _ => None,
        })
        .collect()
}

#[test]
fn new_robot_trades_mnq_with_stop_orders() {
    let r = Robot::new();
    assert_eq!(r.symbol, "MNQM2");
    assert_eq!(r.contract_id, 2553028);
    assert_eq!(r.contract_id, CONTRACT_ID);
    assert_eq!(r.order_type, "Stop");
    assert_eq!(r.strategy_state, StrategyState::Idle);
    assert_eq!(r.user_data, PositionStatus::default());
    assert!(!r.user_data.in_position);
    assert_eq!(r.user_data.active_buy_order_id, 0);
    assert_eq!(r.user_data.active_sell_order_id, 0);
}

#[test]
fn default_state_is_idle() {
    assert_eq!(StrategyState::default(), StrategyState::Idle);
}

#[test]
fn start_up_progresses_to_ready() {
    let mut r = robot_in(StrategyState::StartUp, flat(0, 0));
    let a = r.state_machine();
    assert_eq!(
        a,
        vec![
            Action::Pause(10),
            Action::Pause(10),
            Action::Say(Notice::StartingUp),
            Action::Say(Notice::ProgressToReady),
        ]
    );
    assert_eq!(r.strategy_state, StrategyState::Ready);
}

#[test]
fn ready_and_flat_without_orders_sends_both_entries() {
    let mut r = robot_in(StrategyState::Ready, flat(0, 0));
    let a = r.state_machine();
    assert_eq!(
        a,
        vec![
            Action::Pause(10),
            Action::Pause(10),
            Action::Say(Notice::BuyEntrySent),
            Action::Submit(Side::Buy),
            Action::Say(Notice::SellEntrySent),
            Action::Submit(Side::Sell),
            Action::Pause(5000),
            Action::Say(Notice::ToWaitingForEntry),
        ]
    );
    assert_eq!(r.strategy_state, StrategyState::WaitingForEntry);
}

#[test]
fn ready_and_flat_sends_only_missing_entry() {
    let mut r = robot_in(StrategyState::Ready, flat(11, 0));
    let a = r.state_machine();
    assert_eq!(submissions(&a), vec![Side::Sell]);
    let mut r = robot_in(StrategyState::Ready, flat(0, 12));
    let a = r.state_machine();
    assert_eq!(submissions(&a), vec![Side::Buy]);
    let mut r = robot_in(StrategyState::Ready, flat(11, 12));
    let a = r.state_machine();
    assert_eq!(submissions(&a), Vec::<Side>::new());
    assert_eq!(r.strategy_state, StrategyState::WaitingForEntry);
}

#[test]
fn ready_in_position_goes_in_trade() {
    let mut r = robot_in(StrategyState::Ready, holding(0, 0));
    let a = r.state_machine();
    assert_eq!(
        a,
        vec![Action::Pause(10), Action::Pause(10), Action::Say(Notice::PositionFound)]
    );
    assert_eq!(r.strategy_state, StrategyState::InTrade);
}

#[test]
fn no_entry_order_while_in_position() {
    let states = [
        StrategyState::Idle,
        StrategyState::StartUp,
        StrategyState::Ready,
        StrategyState::WaitingForEntry,
        StrategyState::InTrade,
        StrategyState::Shutdown,
    ];
    for s in states {
        for (b, se) in [(0, 0), (5, 0), (0, 6), (5, 6)] {
            let mut r = robot_in(s, holding(b, se));
            let a = r.state_machine();
            assert!(submissions(&a).is_empty());
        }
    }
}

#[test]
fn only_ready_phase_sends_orders() {
    for s in [
        StrategyState::Idle,
        StrategyState::StartUp,
        StrategyState::WaitingForEntry,
        StrategyState::InTrade,
        StrategyState::Shutdown,
    ] {
        let mut r = robot_in(s, flat(0, 0));
        let a = r.state_machine();
        assert!(submissions(&a).is_empty());
    }
}

#[test]
fn waiting_with_missing_order_goes_back_to_ready() {
    let mut r = robot_in(StrategyState::WaitingForEntry, flat(0, 9));
    let a = r.state_machine();
    assert_eq!(a, vec![Action::Pause(10), Action::Say(Notice::ToReady)]);
    assert_eq!(r.strategy_state, StrategyState::Ready);
    let a = r.state_machine();
    assert_eq!(submissions(&a), vec![Side::Buy]);
    assert_eq!(r.strategy_state, StrategyState::WaitingForEntry);
}

#[test]
fn waiting_with_both_orders_is_quiet() {
    let mut r = robot_in(StrategyState::WaitingForEntry, flat(3, 4));
    let a = r.state_machine();
    assert_eq!(a, vec![Action::Pause(STEP_PAUSE_MS)]);
    assert_eq!(r.strategy_state, StrategyState::WaitingForEntry);
}

#[test]
fn waiting_in_position_goes_in_trade() {
    let mut r = robot_in(StrategyState::WaitingForEntry, holding(3, 0));
    let a = r.state_machine();
    assert_eq!(a, vec![Action::Pause(10), Action::Say(Notice::ToInTrade)]);
    assert_eq!(r.strategy_state, StrategyState::InTrade);
}

#[test]
fn in_trade_holds_while_position_open() {
    let mut r = robot_in(StrategyState::InTrade, holding(0, 0));
    let a = r.state_machine();
    assert_eq!(a, vec![Action::Pause(10), Action::Pause(SETTLE_PAUSE_MS)]);
    assert_eq!(r.strategy_state, StrategyState::InTrade);
}

#[test]
fn closed_trade_cools_down_then_ready() {
    let mut r = robot_in(StrategyState::InTrade, flat(0, 0));
    let a = r.state_machine();
    assert_eq!(
        a,
        vec![
            Action::Pause(10),
            Action::Say(Notice::ToReady),
            Action::Pause(450000),
            Action::Pause(5000),
        ]
    );
    assert_eq!(COOL_DOWN_MS, 450000);
    assert_eq!(r.strategy_state, StrategyState::Ready);
}

#[test]
fn dormant_phases_do_nothing() {
    for s in [StrategyState::Idle, StrategyState::Shutdown] {
        for d in [flat(0, 0), holding(1, 2)] {
            let mut r = robot_in(s, d);
            let a = r.state_machine();
            assert_eq!(a, vec![Action::Pause(10)]);
            assert_eq!(r.strategy_state, s);
        }
    }
}

#[test]
fn step_keeps_what_it_does_not_decide() {
    let mut r = robot_in(StrategyState::Ready, flat(0, 0));
    let _ = r.state_machine();
    assert_eq!(r.symbol, "MNQM2");
    assert_eq!(r.order_type, "Stop");
    assert_eq!(r.contract_id, 2553028);
    assert_eq!(r.user_data, flat(0, 0));
}

#[test]
fn launched_robot_never_returns_to_start_or_dormant() {
    let snapshots = [flat(0, 0), flat(1, 0), flat(0, 1), flat(1, 1), holding(0, 0), holding(1, 1)];
    let mut r = robot_in(StrategyState::StartUp, flat(0, 0));
    for k in 0..60 {
        r.set_user_data(snapshots[(k * 7) % snapshots.len()]);
        let a = r.state_machine();
        assert_eq!(a[0], Action::Pause(10));
        assert!(matches!(
            r.strategy_state,
            StrategyState::Ready | StrategyState::WaitingForEntry | StrategyState::InTrade
        ));
    }
}

#[test]
fn full_trade_cycle() {
    let mut r = Robot::new();
    r.set_strategy_state(StrategyState::StartUp);
    r.state_machine();
    let a = r.state_machine();
    assert_eq!(submissions(&a), vec![Side::Buy, Side::Sell]);
    r.set_user_data(flat(101, 102));
    r.state_machine();
    assert_eq!(r.strategy_state, StrategyState::WaitingForEntry);
    r.set_user_data(holding(0, 102));
    r.state_machine();
    assert_eq!(r.strategy_state, StrategyState::InTrade);
    r.set_user_data(flat(0, 0));
    r.state_machine();
    assert_eq!(r.strategy_state, StrategyState::Ready);
}

#[test]
fn notice_texts() {
    assert_eq!(Notice::StartingUp.text(), "StartUp");
    assert_eq!(Notice::ProgressToReady.text(), "Progress to ready");
    assert_eq!(Notice::BuyEntrySent.text(), "Pew");
    assert_eq!(Notice::SellEntrySent.text(), "Pew Pew");
    assert_eq!(Notice::ToWaitingForEntry.text(), "Transitioning to WaitingForEntry");
    assert_eq!(Notice::PositionFound.text(), "InTrade");
    assert_eq!(Notice::ToReady.text(), "Transitioning to Ready");
    assert_eq!(Notice::ToInTrade.text(), "Transitioning to Intrade");
}

#[test]
fn side_labels_and_parsing() {
    assert_eq!(Side::Buy.label(), "Buy");
    assert_eq!(Side::Sell.label(), "Sell");
    assert_eq!(Side::from_label("Buy"), Some(Side::Buy));
    assert_eq!(Side::from_label("buy"), Some(Side::Buy));
    assert_eq!(Side::from_label("Sell"), Some(Side::Sell));
    assert_eq!(Side::from_label("sell"), Some(Side::Sell));
    assert_eq!(Side::from_label("BUY"), None);
    assert_eq!(Side::from_label("Hold"), None);
    assert_eq!(Side::from_label(""), None);
    for s in [Side::Buy, Side::Sell] {
        assert_eq!(Side::from_label(s.label()), Some(s));
    }
}

#[test]
fn position_status_fields() {
    let p = PositionStatus::new(true, 4, 5);
    assert!(p.in_position);
    assert_eq!(p.active_buy_order_id, 4);
    assert_eq!(p.active_sell_order_id, 5);
}
