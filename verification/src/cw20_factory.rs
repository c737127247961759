//! What the token contract and its callers share: messages, errors and the
//! interface of a token factory.

pub mod definitions;
pub mod error;
pub mod interface;
pub mod msgs;
