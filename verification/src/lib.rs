//! Decision logic of a trading robot that places a bracket of entry orders
//! (one buy stop and one sell stop) on a futures contract and follows the
//! position through its life: waiting for an entry, in a trade, back to ready.
//!
//! The robot is a state machine. Each step reads the robot's strategy state
//! and the latest account snapshot, moves to the next state, and hands back
//! the list of actions (pauses, log lines, order submissions) that the
//! program around it performs.

pub mod state;
pub mod position;
pub mod order;
pub mod robot;
pub mod laws;
