//! The token over the token factory of Osmosis.

pub mod interface;
