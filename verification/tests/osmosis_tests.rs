use cosmwasm_std::Binary;
use cw20_factory::cw20_factory::interface::TokenFactoryInterface;
use cw20_factory::host::{Coin, CosmosMsg, Env, MessageInfo};
use cw20_factory::osmosis::interface::{denom, OsmosisTokenFactoryInterface};
use osmosis_std::types::cosmos::base::v1beta1::Coin as CosmosCoin;
use osmosis_std::types::osmosis::tokenfactory::v1beta1::{MsgBurn, MsgCreateDenom, MsgMint};

fn osmo_env() -> Env {
    Env { contract_address: "osmo1token".to_string() }
}

fn osmo_info() -> MessageInfo {
    MessageInfo { sender: "someone".to_string(), funds: vec![] }
}

fn stargate(msg: &CosmosMsg) -> (String, Vec<u8>) {
    match msg {
        CosmosMsg::Stargate { type_url, value } => (type_url.clone(), value.clone()),
        other => panic!("not a stargate message: {:?}", other),
    }
}

#[test]
fn denom_joins_factory_contract_and_subdenom() {
    assert_eq!(denom(&"osmo1token".to_string(), "foo".to_string()), "factory/osmo1token/foo");
    assert_eq!(denom(&"".to_string(), "".to_string()), "factory//");
}

#[test]
fn instantiate_creates_the_lowercase_subdenom() {
    let created =
        OsmosisTokenFactoryInterface::instantiate(&osmo_env(), osmo_info(), "FoO".to_string())
            .unwrap();
    assert_eq!(created.factory_denom, "factory/osmo1token/foo");
    assert_eq!(created.attributes, vec![]);
    assert_eq!(created.messages.len(), 1);
    let (type_url, value) = stargate(&created.messages[0]);
    assert_eq!(type_url, "/osmosis.tokenfactory.v1beta1.MsgCreateDenom");
    let mut expected = vec![0x0a, 10];
    expected.extend_from_slice(b"osmo1token");
    expected.extend_from_slice(&[0x12, 3]);
    expected.extend_from_slice(b"foo");
    assert_eq!(value, expected);
    let decoded = MsgCreateDenom::try_from(Binary(value)).unwrap();
    assert_eq!(
        decoded,
        MsgCreateDenom { sender: "osmo1token".to_string(), subdenom: "foo".to_string() }
    );
}

#[test]
fn mint_encodes_sender_coin_and_recipient() {
    let coin = Coin { denom: "factory/osmo1token/foo".to_string(), amount: 1234 };
    let msgs =
        OsmosisTokenFactoryInterface::mint(&osmo_env(), &osmo_info(), &"user".to_string(), &coin)
            .unwrap();
    assert_eq!(msgs.len(), 1);
    let (type_url, value) = stargate(&msgs[0]);
    assert_eq!(type_url, "/osmosis.tokenfactory.v1beta1.MsgMint");
    let expected = MsgMint {
        sender: "osmo1token".to_string(),
        amount: Some(CosmosCoin {
            denom: "factory/osmo1token/foo".to_string(),
            amount: "1234".to_string(),
        }),
        mint_to_address: "user".to_string(),
    };
    assert_eq!(value, expected.to_any().value);
    assert_eq!(MsgMint::try_from(Binary(value.clone())).unwrap(), expected);
    let mut bytes = vec![0x0a, 10];
    bytes.extend_from_slice(b"osmo1token");
    bytes.extend_from_slice(&[0x12, 30, 0x0a, 22]);
    bytes.extend_from_slice(b"factory/osmo1token/foo");
    bytes.extend_from_slice(&[0x12, 4]);
    bytes.extend_from_slice(b"1234");
    bytes.extend_from_slice(&[0x1a, 4]);
    bytes.extend_from_slice(b"user");
    assert_eq!(value, bytes);
}

#[test]
fn burn_encodes_the_contract_as_sender_and_holder() {
    let coin = Coin { denom: "factory/osmo1token/foo".to_string(), amount: u128::MAX };
    let msgs = OsmosisTokenFactoryInterface::burn(&osmo_env(), &osmo_info(), &coin).unwrap();
    assert_eq!(msgs.len(), 1);
    let (type_url, value) = stargate(&msgs[0]);
    assert_eq!(type_url, "/osmosis.tokenfactory.v1beta1.MsgBurn");
    let decoded = MsgBurn::try_from(Binary(value)).unwrap();
    assert_eq!(
        decoded,
        MsgBurn {
            sender: "osmo1token".to_string(),
            amount: Some(CosmosCoin {
                denom: "factory/osmo1token/foo".to_string(),
                amount: "340282366920938463463374607431768211455".to_string(),
            }),
            burn_from_address: "osmo1token".to_string(),
        }
    );
}

#[test]
fn mint_and_burn_differ_in_type_and_bytes() {
    let coin = Coin { denom: "d".to_string(), amount: 1 };
    let mint =
        OsmosisTokenFactoryInterface::mint(&osmo_env(), &osmo_info(), &"u".to_string(), &coin)
            .unwrap();
    let burn = OsmosisTokenFactoryInterface::burn(&osmo_env(), &osmo_info(), &coin).unwrap();
    assert_ne!(mint, burn);
}
