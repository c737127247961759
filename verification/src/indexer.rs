//! The indexer: which token contract owns which factory denom.

pub mod function;
pub mod state;
pub mod query;
pub mod contract;
