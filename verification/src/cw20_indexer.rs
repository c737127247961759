//! What the indexer and its callers share: messages and errors.

pub mod error;
pub mod msgs;
