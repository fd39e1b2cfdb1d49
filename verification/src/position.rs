use vstd::prelude::*;

verus! {

/// What the strategy reads of the account: whether a position is open and
/// the ids of the working entry orders, 0 where there is none.
#[derive(Clone, Copy, Debug, PartialEq, Eq, Structural)]
pub struct PositionStatus {
    pub in_position: bool,
    pub active_buy_order_id: i64,
    pub active_sell_order_id: i64,
}

impl Default for PositionStatus {
    fn default() -> (p: PositionStatus)
        ensures
            !p.in_position,
            p.active_buy_order_id == 0,
            p.active_sell_order_id == 0,
    {
        PositionStatus { in_position: false, active_buy_order_id: 0, active_sell_order_id: 0 }
    }
}

impl PositionStatus {
    pub fn new(in_position: bool, active_buy_order_id: i64, active_sell_order_id: i64) -> (p:
        PositionStatus)
        ensures
            p.in_position == in_position,
            p.active_buy_order_id == active_buy_order_id,
            p.active_sell_order_id == active_sell_order_id,
    {
        PositionStatus { in_position, active_buy_order_id, active_sell_order_id }
    }

    /// No buy entry order is working.
    pub open spec fn lacks_buy_order(self) -> bool {
        self.active_buy_order_id == 0
    }

    /// No sell entry order is working.
    pub open spec fn lacks_sell_order(self) -> bool {
        self.active_sell_order_id == 0
    }
}

} // verus!
