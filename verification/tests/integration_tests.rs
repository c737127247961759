use cosmwasm_std::Binary;
use cw20_factory::base::contract::Cw20FactoryBase;
use cw20_factory::base::ledger::{Account, Ledger};
use cw20_factory::base::state::{MinterData, TokenInfo};
use cw20_factory::cw20_factory::definitions::TransmuteIntoMsg;
use cw20_factory::cw20_factory::error::Cw20FactoryError;
use cw20_factory::cw20_factory::msgs::{
    ExecuteMsg, InitNativeDetails, InstantiateMsg, QueryMsg, QueryResponse, SupplyDetailsResponse,
};
use cw20_factory::cw20_indexer::msgs::{
    ExecuteMsg as IndexerExecuteMsg, InstantiateMsg as IndexerInstantiateMsg, RegisterDenomMsg,
};
use cw20_factory::host::{Coin, CosmosMsg, Env, MessageInfo, Response};
use cw20_factory::indexer::contract::CallerProbe;
use cw20_factory::indexer::state::Registry;
use cw20_factory::osmosis::interface::OsmosisTokenFactoryInterface;
use osmosis_std::types::osmosis::tokenfactory::v1beta1::{MsgBurn, MsgCreateDenom, MsgMint};

type Token = Cw20FactoryBase<OsmosisTokenFactoryInterface>;

/// Either form of the token, with a raw amount.
#[derive(Clone)]
enum Asset {
    Cw20(u128),
    Native(u128),
}

fn to_asset(amount: u128, decimals: u32) -> u128 {
    amount * 10u128.pow(decimals)
}

pub struct Def {
    pub owner: String,
    pub indexer_addr: String,
}

/// The part of a chain that the token talks to: the bank with the factory
/// coins, and the indexer.
pub struct OsmosisApp {
    token_addr: String,
    denoms: Vec<String>,
    native: Vec<(String, u128)>,
    native_supply: u128,
    indexer: Registry,
}

impl OsmosisApp {
    fn native_balance(&self, owner: &str) -> u128 {
        self.native.iter().filter(|(o, _)| o == owner).map(|(_, a)| *a).sum()
    }

    fn add_native(&mut self, owner: &str, amount: u128) {
        match self.native.iter_mut().find(|(o, _)| o == owner) {
            Some(entry) => entry.1 += amount,
            None => self.native.push((owner.to_string(), amount)),
        }
    }

    fn sub_native(&mut self, owner: &str, amount: u128) {
        let entry = self.native.iter_mut().find(|(o, _)| o == owner).unwrap();
        entry.1 = entry.1.checked_sub(amount).unwrap();
    }

    /// Carries out the messages of a response, as the chain would.
    fn run(&mut self, token: &Token, response: &Response) {
        for msg in &response.messages {
            match msg {
                CosmosMsg::Stargate { type_url, value } => {
                    let binary = Binary(value.clone());
                    if type_url == MsgCreateDenom::TYPE_URL {
                        let msg = MsgCreateDenom::try_from(binary).unwrap();
                        assert_eq!(msg.sender, self.token_addr);
                        self.denoms.push(format!("factory/{}/{}", msg.sender, msg.subdenom));
                    } else if type_url == MsgMint::TYPE_URL {
                        let msg = MsgMint::try_from(binary).unwrap();
                        let coin = msg.amount.unwrap();
                        assert!(self.denoms.contains(&coin.denom));
                        let amount: u128 = coin.amount.parse().unwrap();
                        self.add_native(&msg.mint_to_address, amount);
                        self.native_supply += amount;
                    } else if type_url == MsgBurn::TYPE_URL {
                        let msg = MsgBurn::try_from(binary).unwrap();
                        let coin = msg.amount.unwrap();
                        let amount: u128 = coin.amount.parse().unwrap();
                        self.sub_native(&msg.burn_from_address, amount);
                        self.native_supply -= amount;
                    } else {
                        panic!("unknown message {}", type_url);
                    }
                }
                CosmosMsg::RegisterDenom { indexer, denom } => {
                    assert_eq!(indexer, "indexer");
                    let probe = CallerProbe {
                        token_info: token
                            .qy_token_info(self.native_supply)
                            .map_err(|e| e.message()),
                        factory_denom: match token.query(QueryMsg::FactoryDenom {}, 0) {
                            Ok(QueryResponse::FactoryDenom(denom)) => Ok(denom),
                            Ok(_) => unreachable!(),
                            Err(e) => Err(e.message()),
                        },
                    };
                    cw20_factory::indexer::contract::execute(
                        &mut self.indexer,
                        MessageInfo { sender: self.token_addr.clone(), funds: vec![] },
                        IndexerExecuteMsg::RegisterDenom(RegisterDenomMsg { denom: denom.clone() }),
                        probe,
                    )
                    .unwrap();
                }
            }
        }
    }

    /// Calls the token; the funds move to it first, and all is undone where
    /// the call fails.
    fn execute(
        &mut self,
        token: &mut Token,
        sender: &str,
        msg: ExecuteMsg,
        funds: Vec<Coin>,
    ) -> Result<Response, Cw20FactoryError> {
        let env = Env { contract_address: self.token_addr.clone() };
        let info = MessageInfo { sender: sender.to_string(), funds: funds.clone() };
        let response = token.execute(&env, info, msg, self.native_supply)?;
        for coin in &funds {
            self.sub_native(sender, coin.amount);
            let contract = self.token_addr.clone();
            self.add_native(&contract, coin.amount);
        }
        self.run(token, &response);
        Ok(response)
    }

    fn qy_balance(&self, token: &Token, owner: &str, asset: &Asset) -> u128 {
        match asset {
            Asset::Cw20(_) => token.balance(&owner.to_string()),
            Asset::Native(_) => self.native_balance(owner),
        }
    }
}

pub fn startup_osmosis() -> (OsmosisApp, Def) {
    let (indexer, _) = cw20_factory::indexer::contract::instantiate(IndexerInstantiateMsg {});
    let app = OsmosisApp {
        token_addr: "osmo1nc5tatafv6eyq7llkr2gv50ff9e22mnf70qgjlv737ktmt4eswrqvlx82r".to_string(),
        denoms: vec![],
        native: vec![],
        native_supply: 0,
        indexer,
    };
    let def = Def { owner: "owner".to_string(), indexer_addr: "indexer".to_string() };
    (app, def)
}

fn token_foo(def: &Def) -> TokenInfo {
    TokenInfo {
        name: "Token Foo".to_string(),
        symbol: "FOO".to_string(),
        decimals: 6,
        mint: Some(MinterData { minter: def.owner.clone(), cap: None }),
    }
}

pub fn create_cw20_factory(
    app: &mut OsmosisApp,
    def: &Def,
    token_info: TokenInfo,
    indexer: Option<String>,
) -> Result<Token, Cw20FactoryError> {
    let env = Env { contract_address: app.token_addr.clone() };
    let info = MessageInfo { sender: def.owner.clone(), funds: vec![] };
    let msg = InstantiateMsg { init_native: indexer.map(InitNativeDetails::WithIndexer) };
    let (token, response) =
        Token::instantiate(&env, info, msg, token_info, Ledger::new(), Response::new())?;
    app.run(&token, &response);
    Ok(token)
}

/// The state that the plain token standard leaves behind.
pub fn create_cw20_base(token_info: TokenInfo, balances: Vec<Account>) -> (TokenInfo, Ledger) {
    (token_info, Ledger::from_accounts(balances).unwrap())
}

pub fn migrate_to_factory(base: (TokenInfo, Ledger)) -> Token {
    Token::new(base.0, base.1, None)
}

pub fn transmute(
    app: &mut OsmosisApp,
    sender: &str,
    token: &mut Token,
    amount: Asset,
) -> Result<Response, Cw20FactoryError> {
    match amount {
        Asset::Native(raw) => {
            let denom = qy_factory_denom(token);
            app.execute(
                token,
                sender,
                ExecuteMsg::TransmuteInto(TransmuteIntoMsg::Cw20 {}),
                vec![Coin { denom, amount: raw }],
            )
        }
        Asset::Cw20(raw) => app.execute(
            token,
            sender,
            ExecuteMsg::TransmuteInto(TransmuteIntoMsg::Native { amount: raw }),
            vec![],
        ),
    }
}

pub fn qy_factory_denom(token: &Token) -> String {
    match token.query(QueryMsg::FactoryDenom {}, 0).unwrap() {
        QueryResponse::FactoryDenom(denom) => denom,
        _ => unreachable!(),
    }
}

pub fn qy_supply(app: &OsmosisApp, token: &Token) -> SupplyDetailsResponse {
    match token.query(QueryMsg::SupplyDetails {}, app.native_supply).unwrap() {
        QueryResponse::SupplyDetails(details) => details,
        _ => unreachable!(),
    }
}

pub fn burn(
    app: &mut OsmosisApp,
    sender: &str,
    token: &mut Token,
    amount: Asset,
) -> Result<Response, Cw20FactoryError> {
    match amount {
        Asset::Native(raw) => {
            let denom = qy_factory_denom(token);
            app.execute(
                token,
                sender,
                ExecuteMsg::Burn { amount: None },
                vec![Coin { denom, amount: raw }],
            )
        }
        Asset::Cw20(raw) => {
            app.execute(token, sender, ExecuteMsg::Burn { amount: Some(raw) }, vec![])
        }
    }
}

pub fn mint(
    app: &mut OsmosisApp,
    def: &Def,
    to: &str,
    token: &mut Token,
    amount: Asset,
) -> Result<Response, Cw20FactoryError> {
    let (raw, as_native) = match amount {
        Asset::Native(raw) => (raw, true),
        Asset::Cw20(raw) => (raw, false),
    };
    let owner = def.owner.clone();
    app.execute(
        token,
        &owner,
        ExecuteMsg::Mint { recipient: to.to_string(), amount: raw, as_native: Some(as_native) },
        vec![],
    )
}

pub fn create_native(
    app: &mut OsmosisApp,
    sender: &str,
    token: &mut Token,
) -> Result<Response, Cw20FactoryError> {
    app.execute(token, sender, ExecuteMsg::CreateNative {}, vec![])
}

#[test]
fn t1() {
    let (mut app, def) = startup_osmosis();

    let mut foo =
        create_cw20_factory(&mut app, &def, token_foo(&def), Some(def.indexer_addr.clone()))
            .unwrap();

    let user_1 = "user_1";

    let foo_cw20 = |amount: u128| Asset::Cw20(to_asset(amount, 6));
    let foo_native = |amount: u128| Asset::Native(to_asset(amount, 6));

    assert_eq!(
        qy_factory_denom(&foo),
        "factory/osmo1nc5tatafv6eyq7llkr2gv50ff9e22mnf70qgjlv737ktmt4eswrqvlx82r/foo"
    );
    assert_eq!(app.indexer.load(&qy_factory_denom(&foo)).unwrap(), app.token_addr);

    mint(&mut app, &def, user_1, &mut foo, foo_cw20(100)).unwrap();

    let balance_cw20 = app.qy_balance(&foo, user_1, &foo_cw20(0));
    assert_eq!(balance_cw20, to_asset(100, 6));

    transmute(&mut app, user_1, &mut foo, foo_cw20(50)).unwrap();

    let balance_cw20 = app.qy_balance(&foo, user_1, &foo_cw20(0));
    let balance_native = app.qy_balance(&foo, user_1, &foo_native(0));
    assert_eq!(balance_cw20, to_asset(50, 6));
    assert_eq!(balance_native, to_asset(50, 6));

    transmute(&mut app, user_1, &mut foo, foo_native(25)).unwrap();

    let balance_cw20 = app.qy_balance(&foo, user_1, &foo_cw20(0));
    let balance_native = app.qy_balance(&foo, user_1, &foo_native(0));
    assert_eq!(balance_cw20, to_asset(75, 6));
    assert_eq!(balance_native, to_asset(25, 6));

    let err = transmute(&mut app, user_1, &mut foo, foo_cw20(76)).unwrap_err();
    assert!(err.message().contains("Insufficient cw20 balance"));
    assert_eq!(
        err,
        Cw20FactoryError::InsufficientBalance {
            current: to_asset(75, 6),
            requested: to_asset(76, 6)
        }
    );
    assert_eq!(app.qy_balance(&foo, user_1, &foo_cw20(0)), to_asset(75, 6));
    assert_eq!(app.qy_balance(&foo, user_1, &foo_native(0)), to_asset(25, 6));

    let mut bar_info = token_foo(&def);
    bar_info.name = "Token Bar".to_string();
    bar_info.symbol = "BAR".to_string();
    bar_info.decimals = 18;
    let bar =
        create_cw20_factory(&mut app, &def, bar_info, Some(def.indexer_addr.clone())).unwrap();
    assert_eq!(
        qy_factory_denom(&bar),
        "factory/osmo1nc5tatafv6eyq7llkr2gv50ff9e22mnf70qgjlv737ktmt4eswrqvlx82r/bar"
    );
}

#[test]
fn t2_migration() {
    let (mut app, def) = startup_osmosis();
    app.token_addr = "osmo14hj2tavq8fpesdwxxcu44rty3hh90vhujrvcmstl4zr3txmfvw9sq2r9g9".to_string();

    let user_1 = "user_1";

    let foo_cw20 = |amount: u128| Asset::Cw20(to_asset(amount, 6));
    let foo_native = |amount: u128| Asset::Native(to_asset(amount, 6));

    let base = create_cw20_base(
        token_foo(&def),
        vec![Account { owner: user_1.to_string(), balance: to_asset(100, 6) }],
    );

    let mut foo = migrate_to_factory(base);

    mint(&mut app, &def, user_1, &mut foo, foo_cw20(100)).unwrap();

    let supply = qy_supply(&app, &foo);
    assert_eq!(supply.cw20_supply, to_asset(200, 6));
    assert_eq!(supply.native_supply, 0);
    assert_eq!(supply.total_supply, supply.cw20_supply);

    mint(&mut app, &def, user_1, &mut foo, foo_cw20(100)).unwrap();

    let supply = qy_supply(&app, &foo);
    assert_eq!(supply.cw20_supply, to_asset(300, 6));
    assert_eq!(supply.native_supply, 0);
    assert_eq!(supply.total_supply, supply.cw20_supply);

    let err = mint(&mut app, &def, user_1, &mut foo, foo_native(100)).unwrap_err();
    assert!(err
        .message()
        .contains("Item factory_denom on contract cw20_factory can't be loaded"));

    create_native(&mut app, user_1, &mut foo).unwrap();
    assert_eq!(
        qy_factory_denom(&foo),
        "factory/osmo14hj2tavq8fpesdwxxcu44rty3hh90vhujrvcmstl4zr3txmfvw9sq2r9g9/foo"
    );

    mint(&mut app, &def, user_1, &mut foo, foo_native(100)).unwrap();

    let supply = qy_supply(&app, &foo);
    assert_eq!(supply.cw20_supply, to_asset(300, 6));
    assert_eq!(supply.native_supply, to_asset(100, 6));
    assert_eq!(supply.total_supply, supply.cw20_supply + supply.native_supply);

    burn(&mut app, user_1, &mut foo, foo_cw20(200)).unwrap();

    burn(&mut app, user_1, &mut foo, foo_native(50)).unwrap();

    let supply = qy_supply(&app, &foo);
    assert_eq!(supply.cw20_supply, to_asset(100, 6));
    assert_eq!(supply.native_supply, to_asset(50, 6));
    assert_eq!(supply.total_supply, supply.cw20_supply + supply.native_supply);
}
