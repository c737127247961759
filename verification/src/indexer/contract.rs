//! The calls of the indexer.

use crate::cw20_factory::msgs::TokenInfoResponse;
use crate::cw20_indexer::error::{
    ContractResponse, ContractResult, Cw20IndexerError, Cw20IndexerErrorView,
};
use crate::cw20_indexer::msgs::{ExecuteMsg, InstantiateMsg, MigrateMsg, QueryMsg};
use crate::host::{MessageInfo, Response, ResponseView};
use crate::indexer::function::{validate_denom, validate_denom_spec};
use crate::indexer::query::{order_or_default, qy_tokens_info};
use crate::indexer::state::{
    cursor_view, entries_view, has_entry, inserted, owner_of, page, Registry, RegistryEntry,
    RegistryEntryView,
};
use vstd::prelude::*;

verus! {

/// What the caller of a registration answered when it was asked for its
/// token metadata and for its factory denom: each answer, or the message of
/// the failure.
#[derive(Debug, PartialEq, Eq)]
pub struct CallerProbe {
    pub token_info: Result<TokenInfoResponse, String>,
    pub factory_denom: Result<String, String>,
}

impl CallerProbe {
    /// The message of the first query that the caller failed to answer.
    pub open spec fn failure(&self) -> Option<Seq<char>> {
        match self.token_info {
            Err(msg) => Some(msg@),
            Ok(_) => match self.factory_denom {
                Err(msg) => Some(msg@),
                Ok(_) => None,
            },
        }
    }
}

/// The response without attributes and messages.
pub open spec fn empty_response() -> ResponseView {
    ResponseView { attributes: Seq::empty(), messages: Seq::empty() }
}

/// Registering `denom` for `sender`. A denom that has its entry is refused
/// as registered already, whoever asks. One that has none has to be a
/// factory denom of the sender, and the sender has to answer both queries
/// of a token contract; `failure` is the message of the first query that it
/// did not answer.
pub open spec fn register_spec(
    entries: Seq<RegistryEntryView>,
    sender: Seq<char>,
    denom: Seq<char>,
    failure: Option<Seq<char>>,
) -> Result<Seq<RegistryEntryView>, Cw20IndexerErrorView> {
    if has_entry(entries, denom) {
        Err(Cw20IndexerErrorView::AlreadyRegistered { denom })
    } else if validate_denom_spec(denom, sender) is Err {
        Err(validate_denom_spec(denom, sender)->Err_0)
    } else if failure is Some {
        Err(Cw20IndexerErrorView::Std(failure->Some_0))
    } else {
        Ok(inserted(entries, RegistryEntryView { denom, cw20_addr: sender }))
    }
}

/// What is decided of a registration before the caller is asked anything:
/// the denom must not have an entry, and it has to be a factory denom of
/// the sender.
pub fn check_registration(registry: &Registry, sender: &str, denom: &str) -> (result:
    ContractResult<()>)
    requires
        registry.wf(),
    ensures
        match register_spec(registry@, sender@, denom@, None) {
            Ok(_) => result is Ok,
            Err(e) => result is Err && result->Err_0@ == e,
        },
{
    if registry.has(denom) {
        return Err(Cw20IndexerError::AlreadyRegistered { denom: denom.to_owned() });
    }
    validate_denom(denom, sender)
}

/// Sets up an indexer without entries.
pub fn instantiate(msg: InstantiateMsg) -> (created: (Registry, Response))
    ensures
        created.0.wf(),
        created.0@ == Seq::<RegistryEntryView>::empty(),
        created.1@ == empty_response(),
{
    (Registry::new(), Response::new())
}

/// Registers the denom of the message for the caller. `probe` holds what
/// the caller answered to the two queries of a token contract.
pub fn execute(registry: &mut Registry, info: MessageInfo, msg: ExecuteMsg, probe: CallerProbe) -> (result:
    ContractResponse)
    requires
        old(registry).wf(),
    ensures
        final(registry).wf(),
        match msg {
            ExecuteMsg::RegisterDenom(register) => match register_spec(
                old(registry)@,
                info.sender@,
                register.denom@,
                probe.failure(),
            ) {
                Ok(entries) => result is Ok && result->Ok_0@ == empty_response()
                    && final(registry)@ == entries,
                Err(e) => result is Err && result->Err_0@ == e && *final(registry) == *old(
                    registry,
                ),
            },
        },
{
    match msg {
        ExecuteMsg::RegisterDenom(register) => {
            match check_registration(registry, info.sender.as_str(), register.denom.as_str()) {
                Ok(_) => {},
                Err(e) => { return Err(e); },
            }
            match probe.token_info {
                Ok(_) => {},
                Err(msg) => { return Err(Cw20IndexerError::Std(msg)); },
            }
            match probe.factory_denom {
                Ok(_) => {},
                Err(msg) => { return Err(Cw20IndexerError::Std(msg)); },
            }
            match registry.save(register.denom, info.sender) {
                Ok(_) => {},
                Err(e) => { return Err(e); },
            }
            Ok(Response::new())
        },
    }
}

/// The view of a query.
pub enum QueryMsgView {
    TokenInfo { denom: Seq<char> },
    TokensInfo { start_after: Option<Seq<char>>, limit: Option<u32>, order: Option<
        crate::cw20_indexer::msgs::StorageOrder,
    > },
}

impl View for QueryMsg {
    type V = QueryMsgView;

    open spec fn view(&self) -> QueryMsgView {
        match *self {
            QueryMsg::TokenInfo { denom } => QueryMsgView::TokenInfo { denom: denom@ },
            QueryMsg::TokensInfo { start_after, limit, order } => QueryMsgView::TokensInfo {
                start_after: cursor_view(start_after),
                limit,
                order,
            },
        }
    }
}

/// The entries that a query selects: the one of the denom it names, or one
/// page of the listing.
pub open spec fn query_spec(entries: Seq<RegistryEntryView>, msg: QueryMsgView) -> Result<
    Seq<RegistryEntryView>,
    Cw20IndexerErrorView,
> {
    match msg {
        QueryMsgView::TokenInfo { denom } => match owner_of(entries, denom) {
            Some(owner) => Ok(seq![RegistryEntryView { denom, cw20_addr: owner }]),
            None => Err(Cw20IndexerErrorView::NotFound { denom }),
        },
        QueryMsgView::TokensInfo { start_after, limit, order } => Ok(
            page(entries, order_or_default(order), limit, start_after),
        ),
    }
}

/// Selects the entries of the tokens that a query asks about; their
/// contracts hold the rest of the answer.
pub fn query(registry: &Registry, msg: QueryMsg) -> (result: ContractResult<Vec<RegistryEntry>>)
    requires
        registry.wf(),
    ensures
        match query_spec(registry@, msg@) {
            Ok(entries) => result is Ok && entries_view(result->Ok_0@) == entries,
            Err(e) => result is Err && result->Err_0@ == e,
        },
{
    match msg {
        QueryMsg::TokenInfo { denom } => {
            let cw20_addr = match registry.load(denom.as_str()) {
                Ok(owner) => owner,
                Err(e) => { return Err(e); },
            };
            let entry = RegistryEntry { denom, cw20_addr };
            let mut selected: Vec<RegistryEntry> = Vec::new();
            selected.push(entry);
            assert(entries_view(selected@) =~= seq![entry@]);
            Ok(selected)
        },
        QueryMsg::TokensInfo { start_after, limit, order } => Ok(
            qy_tokens_info(registry, start_after, limit, order),
        ),
    }
}

/// Moves an indexer to this version: nothing changes.
pub fn migrate(msg: MigrateMsg) -> (response: Response)
    ensures
        response@ == empty_response(),
{
    Response::new()
}

} // verus!
