//! The token itself: its account ledger, its factory denom and the operations
//! that move value between the two.

pub mod ledger;
pub mod state;
pub mod contract;
