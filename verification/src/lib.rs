//! A fungible token kept in two forms at once: balances on an account ledger
//! and units issued by a token factory, with one conserved combined supply,
//! and an indexer that maps factory denoms to the ledgers that own them.

pub mod decimal;
pub mod host;
pub mod text;
pub mod cw20_factory;
pub mod base;
pub mod osmosis;
pub mod cw20_indexer;
pub mod indexer;
pub mod laws;
