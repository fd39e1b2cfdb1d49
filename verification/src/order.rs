use vstd::prelude::*;

verus! {

/// The side of an entry order.
#[derive(Clone, Copy, Debug, PartialEq, Eq, Structural)]
pub enum Side {
    Buy,
    Sell,
}

/// The label under which an order request of this side travels.
pub open spec fn side_label(side: Side) -> Seq<char> {
    match side {
        Side::Buy => "Buy"@,
        Side::Sell => "Sell"@,
    }
}

/// The side that a request label names: either capitalisation of the first
/// letter is understood; any other label names none.
pub open spec fn side_named(label: Seq<char>) -> Option<Side> {
    if label == "Buy"@ || label == "buy"@ {
        Some(Side::Buy)
    } else if label == "Sell"@ || label == "sell"@ {
        Some(Side::Sell)
    } else {
        None
    }
}

impl Side {
    /// The label under which an order request of this side travels.
    pub fn label(&self) -> (l: &'static str)
        ensures
            l@ == side_label(*self),
    {
        match self {
            Side::Buy => "Buy",
            Side::Sell => "Sell",
        }
    }

    /// Reads the side out of a request label.
    pub fn from_label(label: &str) -> (side: Option<Side>)
        ensures
            side == side_named(label@),
    {
        let given = label.to_owned();
        if given == "Buy".to_owned() || given == "buy".to_owned() {
            Some(Side::Buy)
        } else if given == "Sell".to_owned() || given == "sell".to_owned() {
            Some(Side::Sell)
        } else {
            None
        }
    }
}

} // verus!
