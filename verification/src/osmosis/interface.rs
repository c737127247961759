//! The token factory of Osmosis: each request becomes one protobuf message
//! of its `tokenfactory` module, sent in the name of the token contract.

use crate::base::contract::Cw20FactoryBase;
use crate::cw20_factory::error::{ContractResult, Cw20FactoryErrorView};
use crate::cw20_factory::interface::{
    InterfaceInstantiateResponse, InterfaceInstantiateResponseView, TokenFactoryInterface,
};
use crate::decimal::{decimal, u128_to_decimal};
use crate::host::{
    attrs_view, msgs_view, Attribute, AttributeView, Coin, CoinView, CosmosMsg, CosmosMsgView,
    Env, EnvView, MessageInfo, MessageInfoView,
};
use vstd::prelude::*;
use vstd::string::StringExecFns;

verus! {

/// The protobuf encoding of a `MsgCreateDenom` with these fields.
pub uninterp spec fn msg_create_denom_proto(sender: Seq<char>, subdenom: Seq<char>) -> Seq<u8>;

/// The protobuf encoding of a `MsgMint` of `amount`, a decimal numeral, of
/// `denom`.
pub uninterp spec fn msg_mint_proto(
    sender: Seq<char>,
    denom: Seq<char>,
    amount: Seq<char>,
    mint_to_address: Seq<char>,
) -> Seq<u8>;

/// The protobuf encoding of a `MsgBurn` of `amount`, a decimal numeral, of
/// `denom`.
pub uninterp spec fn msg_burn_proto(
    sender: Seq<char>,
    denom: Seq<char>,
    amount: Seq<char>,
    burn_from_address: Seq<char>,
) -> Seq<u8>;

/// The lowercase form of a text, as Unicode defines it.
pub uninterp spec fn lowercase(text: Seq<char>) -> Seq<char>;

/// The message for the chain that holds `value` under `type_url`.
pub open spec fn stargate(type_url: Seq<char>, value: Seq<u8>) -> CosmosMsgView {
    CosmosMsgView::Stargate { type_url, value }
}

/// Calls `to_any` of `osmosis_std`'s `MsgCreateDenom`, which pairs the
/// message's type URL with its protobuf encoding.
#[verifier::external_body]
fn msg_create_denom(sender: &String, subdenom: &String) -> (msg: CosmosMsg)
    ensures
        msg@ == stargate(
            "/osmosis.tokenfactory.v1beta1.MsgCreateDenom"@,
            msg_create_denom_proto(sender@, subdenom@),
        ),
{
    let any = osmosis_std::types::osmosis::tokenfactory::v1beta1::MsgCreateDenom {
        sender: sender.clone(),
        subdenom: subdenom.clone(),
    }.to_any();
    CosmosMsg::Stargate { type_url: any.type_url, value: any.value }
}

/// Calls `to_any` of `osmosis_std`'s `MsgMint`, which pairs the message's
/// type URL with its protobuf encoding.
#[verifier::external_body]
fn msg_mint(sender: &String, denom: &String, amount: &String, mint_to_address: &String) -> (msg: CosmosMsg)
    ensures
        msg@ == stargate(
            "/osmosis.tokenfactory.v1beta1.MsgMint"@,
            msg_mint_proto(sender@, denom@, amount@, mint_to_address@),
        ),
{
    let any = osmosis_std::types::osmosis::tokenfactory::v1beta1::MsgMint {
        sender: sender.clone(),
        amount: Some(
            osmosis_std::types::cosmos::base::v1beta1::Coin {
                denom: denom.clone(),
                amount: amount.clone(),
            },
        ),
        mint_to_address: mint_to_address.clone(),
    }.to_any();
    CosmosMsg::Stargate { type_url: any.type_url, value: any.value }
}

/// Calls `to_any` of `osmosis_std`'s `MsgBurn`, which pairs the message's
/// type URL with its protobuf encoding.
#[verifier::external_body]
fn msg_burn(sender: &String, denom: &String, amount: &String, burn_from_address: &String) -> (msg: CosmosMsg)
    ensures
        msg@ == stargate(
            "/osmosis.tokenfactory.v1beta1.MsgBurn"@,
            msg_burn_proto(sender@, denom@, amount@, burn_from_address@),
        ),
{
    let any = osmosis_std::types::osmosis::tokenfactory::v1beta1::MsgBurn {
        sender: sender.clone(),
        amount: Some(
            osmosis_std::types::cosmos::base::v1beta1::Coin {
                denom: denom.clone(),
                amount: amount.clone(),
            },
        ),
        burn_from_address: burn_from_address.clone(),
    }.to_any();
    CosmosMsg::Stargate { type_url: any.type_url, value: any.value }
}

/// Calls `str::to_lowercase`.
#[verifier::external_body]
fn to_lowercase(text: &String) -> (lower: String)
    ensures
        lower@ == lowercase(text@),
{
    text.to_lowercase()
}

/// The denom that the factory gives to `subdenom` of the creator `contract`.
pub open spec fn denom_spec(contract: Seq<char>, subdenom: Seq<char>) -> Seq<char> {
    "factory/"@ + contract + "/"@ + subdenom
}

/// The denom that the factory gives to `subdenom` of the creator `contract`.
pub fn denom(contract: &String, subdenom: String) -> (denom: String)
    ensures
        denom@ == denom_spec(contract@, subdenom@),
{
    let mut denom = String::from_str("factory/");
    denom.append(contract.as_str());
    denom.append("/");
    denom.append(subdenom.as_str());
    denom
}

fn one_msg(msg: CosmosMsg) -> (msgs: Vec<CosmosMsg>)
    ensures
        msgs_view(msgs@) == seq![msg@],
{
    let mut msgs: Vec<CosmosMsg> = Vec::new();
    msgs.push(msg);
    assert(msgs_view(msgs@) =~= seq![msg@]);
    msgs
}

pub struct OsmosisTokenFactoryInterface {}

impl TokenFactoryInterface for OsmosisTokenFactoryInterface {
    /// One `MsgCreateDenom` for the symbol in lowercase, and the denom that
    /// it creates.
    open spec fn instantiate_spec(env: EnvView, info: MessageInfoView, symbol: Seq<char>) -> Result<
        InterfaceInstantiateResponseView,
        Cw20FactoryErrorView,
    > {
        Ok(
            InterfaceInstantiateResponseView {
                attributes: Seq::empty(),
                messages: seq![
                    stargate(
                        "/osmosis.tokenfactory.v1beta1.MsgCreateDenom"@,
                        msg_create_denom_proto(env.contract_address, lowercase(symbol)),
                    ),
                ],
                factory_denom: denom_spec(env.contract_address, lowercase(symbol)),
            },
        )
    }

    /// One `MsgBurn` that burns the coin from the contract's own account.
    open spec fn burn_spec(env: EnvView, info: MessageInfoView, amount: CoinView) -> Result<
        Seq<CosmosMsgView>,
        Cw20FactoryErrorView,
    > {
        Ok(
            seq![
                stargate(
                    "/osmosis.tokenfactory.v1beta1.MsgBurn"@,
                    msg_burn_proto(
                        env.contract_address,
                        amount.denom,
                        decimal(amount.amount),
                        env.contract_address,
                    ),
                ),
            ],
        )
    }

    /// One `MsgMint` that mints the coin to `to`.
    open spec fn mint_spec(
        env: EnvView,
        info: MessageInfoView,
        to: Seq<char>,
        amount: CoinView,
    ) -> Result<Seq<CosmosMsgView>, Cw20FactoryErrorView> {
        Ok(
            seq![
                stargate(
                    "/osmosis.tokenfactory.v1beta1.MsgMint"@,
                    msg_mint_proto(env.contract_address, amount.denom, decimal(amount.amount), to),
                ),
            ],
        )
    }

    fn instantiate(env: &Env, info: MessageInfo, symbol: String) -> (r: ContractResult<
        InterfaceInstantiateResponse,
    >) {
        let subdenom = to_lowercase(&symbol);
        let msg = msg_create_denom(&env.contract_address, &subdenom);
        let attributes: Vec<Attribute> = Vec::new();
        assert(attrs_view(attributes@) =~= Seq::<AttributeView>::empty());
        Ok(
            InterfaceInstantiateResponse {
                attributes,
                messages: one_msg(msg),
                factory_denom: denom(&env.contract_address, subdenom),
            },
        )
    }

    fn burn(env: &Env, info: &MessageInfo, amount: &Coin) -> (r: ContractResult<Vec<CosmosMsg>>) {
        let msg = msg_burn(
            &env.contract_address,
            &amount.denom,
            &u128_to_decimal(amount.amount),
            &env.contract_address,
        );
        Ok(one_msg(msg))
    }

    fn mint(env: &Env, info: &MessageInfo, to: &String, amount: &Coin) -> (r: ContractResult<
        Vec<CosmosMsg>,
    >) {
        let msg = msg_mint(
            &env.contract_address,
            &amount.denom,
            &u128_to_decimal(amount.amount),
            to,
        );
        Ok(one_msg(msg))
    }
}

/// The token whose coins the token factory of Osmosis issues.
pub type Cw20FactoryOsmosis = Cw20FactoryBase<OsmosisTokenFactoryInterface>;

} // verus!
