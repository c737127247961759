//! What the indexer answers: the page of entries that a query selects, and
//! the details of one token, put together from its entry and from what the
//! token contract itself reports.

use crate::cw20_factory::msgs::{SupplyDetailsResponse, TokenInfoResponse};
use crate::cw20_indexer::error::{ContractResult, Cw20IndexerErrorView};
use crate::cw20_indexer::msgs::{StorageOrder, TokenDetails, TokenDetailsView};
use crate::indexer::state::{
    cursor_view, entries_view, owner_of, page, Registry, RegistryEntry,
};
use vstd::prelude::*;

verus! {

/// The order of a listing: downwards unless the query says otherwise.
pub open spec fn order_or_default(order: Option<StorageOrder>) -> StorageOrder {
    match order {
        Some(order) => order,
        None => StorageOrder::Descending,
    }
}

/// The entries whose tokens a listing shows, in the order of the listing.
pub fn qy_tokens_info(
    registry: &Registry,
    start_after: Option<String>,
    limit: Option<u32>,
    order: Option<StorageOrder>,
) -> (listed: Vec<RegistryEntry>)
    requires
        registry.wf(),
    ensures
        entries_view(listed@) == page(
            registry@,
            order_or_default(order),
            limit,
            cursor_view(start_after),
        ),
{
    let order = match order {
        Some(order) => order,
        None => StorageOrder::Descending,
    };
    registry.range(order, limit, start_after)
}

/// The contract to ask about `denom`: the one given, else the one that the
/// registry holds for it.
pub fn token_owner(registry: &Registry, denom: &str, cw20_addr: Option<String>) -> (result:
    ContractResult<String>)
    requires
        registry.wf(),
    ensures
        match cw20_addr {
            Some(given) => result is Ok && result->Ok_0@ == given@,
            None => match owner_of(registry@, denom@) {
                Some(owner) => result is Ok && result->Ok_0@ == owner,
                None => result is Err && result->Err_0@ == (Cw20IndexerErrorView::NotFound {
                    denom: denom@,
                }),
            },
        },
{
    match cw20_addr {
        Some(given) => Ok(given),
        None => registry.load(denom),
    }
}

/// The details of the token at `cw20_addr` that owns `denom`, from the
/// metadata and the supply that the token reports.
pub fn qy_token_info(
    denom: String,
    cw20_addr: String,
    info: TokenInfoResponse,
    supply: SupplyDetailsResponse,
) -> (details: TokenDetails)
    ensures
        details@ == (TokenDetailsView {
            cw20_addr: cw20_addr@,
            native_denom: denom@,
            name: info.name@,
            symbol: info.symbol@,
            decimals: info.decimals,
            total_supply: supply.total_supply,
            cw20_supply: supply.cw20_supply,
            native_supply: supply.native_supply,
        }),
{
    TokenDetails {
        cw20_addr,
        native_denom: denom,
        name: info.name,
        symbol: info.symbol,
        decimals: info.decimals,
        total_supply: supply.total_supply,
        cw20_supply: supply.cw20_supply,
        native_supply: supply.native_supply,
    }
}

} // verus!
