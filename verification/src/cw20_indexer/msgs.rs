//! The calls that the indexer answers.

use vstd::prelude::*;

verus! {

#[derive(Debug, Clone, Copy, PartialEq, Eq)]
pub struct InstantiateMsg {}

#[derive(Debug, Clone, PartialEq, Eq)]
pub enum ExecuteMsg {
    RegisterDenom(RegisterDenomMsg),
}

/// The order in which entries are listed: by denom, up or down.
#[derive(Debug, Clone, Copy, PartialEq, Eq)]
pub enum StorageOrder {
    Ascending,
    Descending,
}

#[derive(Debug, Clone, PartialEq, Eq)]
pub enum QueryMsg {
    /// The token that owns `denom`.
    TokenInfo { denom: String },
    /// The tokens whose denoms come after `start_after` in `order`, `limit`
    /// of them at most.
    TokensInfo { start_after: Option<String>, limit: Option<u32>, order: Option<StorageOrder> },
}

#[derive(Debug, Clone, Copy, PartialEq, Eq)]
pub struct MigrateMsg {}

#[derive(Debug, Clone, PartialEq, Eq)]
pub struct RegisterDenomMsg {
    pub denom: String,
}

/// A registered token: its contract, its denom, its metadata and supply.
#[derive(Debug, Clone, PartialEq, Eq)]
pub struct TokenDetails {
    pub cw20_addr: String,
    pub native_denom: String,
    pub name: String,
    pub symbol: String,
    pub decimals: u8,
    pub total_supply: u128,
    pub cw20_supply: u128,
    pub native_supply: u128,
}

pub struct TokenDetailsView {
    pub cw20_addr: Seq<char>,
    pub native_denom: Seq<char>,
    pub name: Seq<char>,
    pub symbol: Seq<char>,
    pub decimals: u8,
    pub total_supply: u128,
    pub cw20_supply: u128,
    pub native_supply: u128,
}

impl View for TokenDetails {
    type V = TokenDetailsView;

    open spec fn view(&self) -> TokenDetailsView {
        TokenDetailsView {
            cw20_addr: self.cw20_addr@,
            native_denom: self.native_denom@,
            name: self.name@,
            symbol: self.symbol@,
            decimals: self.decimals,
            total_supply: self.total_supply,
            cw20_supply: self.cw20_supply,
            native_supply: self.native_supply,
        }
    }
}

} // verus!
