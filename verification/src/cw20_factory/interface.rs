//! The token factory as the token contract sees it: a service that creates
//! a denom for the contract, and mints and burns coins of it on request.

use crate::cw20_factory::error::{result_view, ContractResult, Cw20FactoryErrorView};
use crate::host::{
    attrs_view, msgs_view, Attribute, AttributeView, Coin, CoinView, CosmosMsg, CosmosMsgView,
    Env, EnvView, MessageInfo, MessageInfoView,
};
use vstd::prelude::*;

verus! {

/// What a factory answers when it is asked for a new denom.
#[derive(Debug, Clone, PartialEq, Eq)]
pub struct InterfaceInstantiateResponse {
    pub attributes: Vec<Attribute>,
    /// The messages that create the denom.
    pub messages: Vec<CosmosMsg>,
    /// The denom that they create.
    pub factory_denom: String,
}

pub struct InterfaceInstantiateResponseView {
    pub attributes: Seq<AttributeView>,
    pub messages: Seq<CosmosMsgView>,
    pub factory_denom: Seq<char>,
}

impl View for InterfaceInstantiateResponse {
    type V = InterfaceInstantiateResponseView;

    open spec fn view(&self) -> InterfaceInstantiateResponseView {
        InterfaceInstantiateResponseView {
            attributes: attrs_view(self.attributes@),
            messages: msgs_view(self.messages@),
            factory_denom: self.factory_denom@,
        }
    }
}

/// The view of the messages that a factory answered with, or of its error.
pub open spec fn msgs_result_view(r: ContractResult<Vec<CosmosMsg>>) -> Result<
    Seq<CosmosMsgView>,
    Cw20FactoryErrorView,
> {
    match r {
        Ok(msgs) => Ok(msgs_view(msgs@)),
        Err(e) => Err(e@),
    }
}

/// One backend that issues factory coins. Each request is answered with the
/// messages that carry it out on the chain; the answer depends on the
/// request alone, and the backend says which answer it gives.
pub trait TokenFactoryInterface {
    /// The answer to a request for a denom named after `symbol`.
    spec fn instantiate_spec(env: EnvView, info: MessageInfoView, symbol: Seq<char>) -> Result<
        InterfaceInstantiateResponseView,
        Cw20FactoryErrorView,
    >;

    /// The answer to a request to burn `amount` held by the contract.
    spec fn burn_spec(env: EnvView, info: MessageInfoView, amount: CoinView) -> Result<
        Seq<CosmosMsgView>,
        Cw20FactoryErrorView,
    >;

    /// The answer to a request to mint `amount` to `to`.
    spec fn mint_spec(
        env: EnvView,
        info: MessageInfoView,
        to: Seq<char>,
        amount: CoinView,
    ) -> Result<Seq<CosmosMsgView>, Cw20FactoryErrorView>;

    fn instantiate(env: &Env, info: MessageInfo, symbol: String) -> (r: ContractResult<
        InterfaceInstantiateResponse,
    >)
        ensures
            result_view(r) == Self::instantiate_spec(env@, info@, symbol@),
    ;

    fn burn(env: &Env, info: &MessageInfo, amount: &Coin) -> (r: ContractResult<Vec<CosmosMsg>>)
        ensures
            msgs_result_view(r) == Self::burn_spec(env@, info@, amount@),
    ;

    fn mint(env: &Env, info: &MessageInfo, to: &String, amount: &Coin) -> (r: ContractResult<
        Vec<CosmosMsg>,
    >)
        ensures
            msgs_result_view(r) == Self::mint_spec(env@, info@, to@, amount@),
    ;
}

} // verus!
