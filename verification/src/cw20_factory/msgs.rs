//! The calls that the token contract answers.

use crate::cw20_factory::definitions::TransmuteIntoMsg;
use vstd::prelude::*;

verus! {

/// Whether a token that starts with a factory denom announces it.
#[derive(Debug, Clone, PartialEq, Eq)]
pub enum InitNativeDetails {
    WithoutIndexer,
    /// Register the denom with the indexer at this address.
    WithIndexer(String),
}

pub enum InitNativeDetailsView {
    WithoutIndexer,
    WithIndexer(Seq<char>),
}

impl View for InitNativeDetails {
    type V = InitNativeDetailsView;

    open spec fn view(&self) -> InitNativeDetailsView {
        match *self {
            InitNativeDetails::WithoutIndexer => InitNativeDetailsView::WithoutIndexer,
            InitNativeDetails::WithIndexer(indexer) => InitNativeDetailsView::WithIndexer(indexer@),
        }
    }
}

/// The view of what a setup asks for on the factory's side.
pub open spec fn init_native_view(init: Option<InitNativeDetails>) -> Option<
    InitNativeDetailsView,
> {
    match init {
        Some(details) => Some(details@),
        None => None,
    }
}

/// What the token contract needs, beyond its ledger, when it is set up.
#[derive(Debug, Clone, PartialEq, Eq)]
pub struct InstantiateMsg {
    /// Create the factory denom at once.
    pub init_native: Option<InitNativeDetails>,
}

#[allow(inconsistent_fields)]
#[derive(Debug, Clone, PartialEq, Eq)]
pub enum ExecuteMsg {
    TransmuteInto(TransmuteIntoMsg),
    Burn { amount: Option<u128> },
    Mint { recipient: String, amount: u128, as_native: Option<bool> },
    RegisterToIndexer { indexer_addr: String },
    CreateNative {  },
}

#[allow(inconsistent_fields)]
pub enum ExecuteMsgView {
    TransmuteInto(TransmuteIntoMsg),
    Burn { amount: Option<u128> },
    Mint { recipient: Seq<char>, amount: u128, as_native: Option<bool> },
    RegisterToIndexer { indexer_addr: Seq<char> },
    CreateNative,
}

impl View for ExecuteMsg {
    type V = ExecuteMsgView;

    open spec fn view(&self) -> ExecuteMsgView {
        match *self {
            ExecuteMsg::TransmuteInto(into) => ExecuteMsgView::TransmuteInto(into),
            ExecuteMsg::Burn { amount } => ExecuteMsgView::Burn { amount },
            ExecuteMsg::Mint { recipient, amount, as_native } => ExecuteMsgView::Mint {
                recipient: recipient@,
                amount,
                as_native,
            },
            ExecuteMsg::RegisterToIndexer { indexer_addr } => ExecuteMsgView::RegisterToIndexer {
                indexer_addr: indexer_addr@,
            },
            ExecuteMsg::CreateNative {  } => ExecuteMsgView::CreateNative,
        }
    }
}

#[derive(Debug, Clone, Copy, PartialEq, Eq)]
pub enum QueryMsg {
    FactoryDenom {  },
    SupplyDetails {  },
    TokenInfo {  },
}

/// The supply on the ledger, the supply issued by the factory, and both.
#[derive(Debug, Clone, Copy, PartialEq, Eq)]
pub struct SupplyDetailsResponse {
    pub cw20_supply: u128,
    pub native_supply: u128,
    pub total_supply: u128,
}

/// The token's metadata, with the combined supply as its total.
#[derive(Debug, Clone, PartialEq, Eq)]
pub struct TokenInfoResponse {
    pub name: String,
    pub symbol: String,
    pub decimals: u8,
    pub total_supply: u128,
}

pub struct TokenInfoResponseView {
    pub name: Seq<char>,
    pub symbol: Seq<char>,
    pub decimals: u8,
    pub total_supply: nat,
}

impl View for TokenInfoResponse {
    type V = TokenInfoResponseView;

    open spec fn view(&self) -> TokenInfoResponseView {
        TokenInfoResponseView {
            name: self.name@,
            symbol: self.symbol@,
            decimals: self.decimals,
            total_supply: self.total_supply as nat,
        }
    }
}

/// The answer to a query.
#[derive(Debug, Clone, PartialEq, Eq)]
pub enum QueryResponse {
    FactoryDenom(String),
    SupplyDetails(SupplyDetailsResponse),
    TokenInfo(TokenInfoResponse),
}

pub enum QueryResponseView {
    FactoryDenom(Seq<char>),
    SupplyDetails(SupplyDetailsResponse),
    TokenInfo(TokenInfoResponseView),
}

impl View for QueryResponse {
    type V = QueryResponseView;

    open spec fn view(&self) -> QueryResponseView {
        match *self {
            QueryResponse::FactoryDenom(denom) => QueryResponseView::FactoryDenom(denom@),
            QueryResponse::SupplyDetails(details) => QueryResponseView::SupplyDetails(details),
            QueryResponse::TokenInfo(info) => QueryResponseView::TokenInfo(info@),
        }
    }
}

} // verus!
