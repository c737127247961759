//! The operations of the token: minting and burning on either side, and
//! transmuting value between ledger units and factory coins.

use crate::base::ledger::{accounts_updated, Account, Delta, Ledger};
use crate::base::state::{FactoryDenom, TokenInfo, TokenInfoView};
use crate::cw20_factory::definitions::TransmuteIntoMsg;
use crate::cw20_factory::error::{
    ContractResponse, ContractResult, Cw20FactoryError, Cw20FactoryErrorView,
};
use crate::cw20_factory::interface::TokenFactoryInterface;
use crate::cw20_factory::msgs::{
    init_native_view, ExecuteMsg, ExecuteMsgView, InitNativeDetails, InitNativeDetailsView,
    InstantiateMsg, QueryMsg, QueryResponse, QueryResponseView, SupplyDetailsResponse,
    TokenInfoResponse, TokenInfoResponseView,
};
use crate::decimal::{decimal, u128_to_decimal};
use crate::host::{
    attr_view, msgs_view, AttributeView, Coin, CoinView, CosmosMsg, CosmosMsgView, Env, EnvView,
    MessageInfo, MessageInfoView, Response, ResponseView,
};
use std::marker::PhantomData;
use vstd::prelude::*;
use vstd::string::StringExecFns;

verus! {

/// A token as its operations see it: the metadata, what every owner holds,
/// the ledger's total supply, and the factory denom once it exists.
pub struct TokenView {
    pub info: TokenInfoView,
    pub balances: Map<Seq<char>, nat>,
    pub total_supply: nat,
    pub factory_denom: Option<Seq<char>>,
}

impl TokenView {
    /// The token after `amount` was added to the account of `owner`.
    pub open spec fn credited(self, owner: Seq<char>, amount: nat) -> TokenView {
        TokenView {
            balances: self.balances.insert(owner, self.balances[owner] + amount),
            total_supply: self.total_supply + amount,
            ..self
        }
    }

    /// The token after `amount` was taken from the account of `owner`.
    pub open spec fn debited(self, owner: Seq<char>, amount: nat) -> TokenView {
        TokenView {
            balances: self.balances.insert(owner, (self.balances[owner] - amount) as nat),
            total_supply: (self.total_supply - amount) as nat,
            ..self
        }
    }

    /// The supply of factory coins, given what the chain reports for the
    /// token's denom: nothing was issued while the token has no denom.
    pub open spec fn native_supply(self, reported: nat) -> nat {
        if self.factory_denom is Some {
            reported
        } else {
            0
        }
    }

    /// The ledger's total supply and the supply of factory coins together.
    pub open spec fn combined_supply(self, reported: nat) -> nat {
        self.total_supply + self.native_supply(reported)
    }

    /// The cap on the combined supply, if the token has one.
    pub open spec fn cap(self) -> Option<nat> {
        match self.info.mint {
            Some(minter) => minter.cap,
            None => None,
        }
    }

    /// `sender` is the token's minter.
    pub open spec fn is_minter(self, sender: Seq<char>) -> bool {
        self.info.mint matches Some(minter) && minter.minter == sender
    }
}

/// A token after an operation and the response of that operation, or the
/// error that refused it.
pub type Outcome = Result<(TokenView, ResponseView), Cw20FactoryErrorView>;

/// The response with these attributes and messages.
pub open spec fn response_of(
    attributes: Seq<AttributeView>,
    messages: Seq<CosmosMsgView>,
) -> ResponseView {
    ResponseView { attributes, messages }
}

/// The two attributes that name an action and its amount.
pub open spec fn action_attrs(action: Seq<char>, amount: nat) -> Seq<AttributeView> {
    seq![attr_view("action"@, action), attr_view("amount"@, decimal(amount))]
}

/// The view of a factory denom that may not exist yet.
pub open spec fn denom_view(denom: Option<FactoryDenom>) -> Option<Seq<char>> {
    match denom {
        Some(d) => Some(d@),
        None => None,
    }
}

/// A token whose factory coins are issued through the backend `I`.
pub struct Cw20FactoryBase<I: TokenFactoryInterface> {
    token_info: TokenInfo,
    ledger: Ledger,
    factory_denom: Option<FactoryDenom>,
    interface: PhantomData<I>,
}

impl<I: TokenFactoryInterface> View for Cw20FactoryBase<I> {
    type V = TokenView;

    closed spec fn view(&self) -> TokenView {
        TokenView {
            info: self.token_info@,
            balances: self.ledger.balances(),
            total_supply: self.ledger.total_supply(),
            factory_denom: denom_view(self.factory_denom),
        }
    }
}

/// The result of an operation is the one that `expected` describes: on
/// success the token is the described one, on failure it is untouched.
pub open spec fn outcome_matches<I: TokenFactoryInterface>(
    expected: Outcome,
    result: ContractResponse,
    before: Cw20FactoryBase<I>,
    after: Cw20FactoryBase<I>,
) -> bool {
    match expected {
        Ok((token, response)) => result is Ok && result->Ok_0@ == response && after@ == token,
        Err(e) => result is Err && result->Err_0@ == e && after == before,
    }
}

// The outcome of each operation.
impl<I: TokenFactoryInterface> Cw20FactoryBase<I> {
    /// The denom check on a payment: the token has a denom, and the coin is
    /// of it.
    pub open spec fn denom_check(token: TokenView, coin: CoinView) -> Result<
        (),
        Cw20FactoryErrorView,
    > {
        match token.factory_denom {
            None => Err(Cw20FactoryErrorView::NoExternalRepresentation),
            Some(denom) => if denom != coin.denom {
                Err(Cw20FactoryErrorView::WrongDenom { expected: denom, received: coin.denom })
            } else {
                Ok(())
            },
        }
    }

    /// A mint of `extra` more units stays within the cap, given the supply
    /// of factory coins that the chain reports.
    pub open spec fn within_cap(token: TokenView, extra: nat, reported: nat) -> bool {
        token.cap() matches Some(cap) ==> token.combined_supply(reported) + extra <= cap
    }

    /// Transmuting `amount` ledger units of the caller into factory coins,
    /// or the one coin paid with the call into ledger units.
    pub open spec fn transmute_spec(
        token: TokenView,
        env: EnvView,
        info: MessageInfoView,
        into: TransmuteIntoMsg,
    ) -> Outcome {
        match into {
            TransmuteIntoMsg::Native { amount } => {
                if amount > token.balances[info.sender] {
                    Err(
                        Cw20FactoryErrorView::InsufficientBalance {
                            current: token.balances[info.sender],
                            requested: amount as nat,
                        },
                    )
                } else if token.factory_denom is None {
                    Err(Cw20FactoryErrorView::NoExternalRepresentation)
                } else {
                    let coin = CoinView {
                        denom: token.factory_denom->Some_0,
                        amount: amount as nat,
                    };
                    match I::mint_spec(env, info, info.sender, coin) {
                        Err(e) => Err(e),
                        Ok(msgs) => Ok(
                            (
                                token.debited(info.sender, amount as nat),
                                response_of(
                                    action_attrs("transumte_into_native"@, amount as nat),
                                    msgs,
                                ),
                            ),
                        ),
                    }
                }
            },
            TransmuteIntoMsg::Cw20 {  } => {
                if info.funds.len() != 1 {
                    Err(Cw20FactoryErrorView::ExpectedExactlyOneCoin)
                } else if Self::denom_check(token, info.funds[0]) is Err {
                    Err(Self::denom_check(token, info.funds[0])->Err_0)
                } else if token.total_supply + info.funds[0].amount > u128::MAX {
                    Err(Cw20FactoryErrorView::SupplyOverflow)
                } else {
                    match I::burn_spec(env, info, info.funds[0]) {
                        Err(e) => Err(e),
                        Ok(msgs) => Ok(
                            (
                                token.credited(info.sender, info.funds[0].amount),
                                response_of(
                                    action_attrs("transumte_into_cw20"@, info.funds[0].amount),
                                    msgs,
                                ),
                            ),
                        ),
                    }
                }
            },
        }
    }

    /// Minting `amount` to `recipient`, on the ledger or as factory coins.
    pub open spec fn mint_spec(
        token: TokenView,
        env: EnvView,
        info: MessageInfoView,
        recipient: Seq<char>,
        amount: u128,
        as_native: Option<bool>,
        reported: nat,
    ) -> Outcome {
        if !token.is_minter(info.sender) {
            Err(Cw20FactoryErrorView::Unauthorized)
        } else if as_native == Some(true) {
            if token.factory_denom is None {
                Err(Cw20FactoryErrorView::NoExternalRepresentation)
            } else if !Self::within_cap(token, amount as nat, reported) {
                Err(Cw20FactoryErrorView::CapExceeded)
            } else {
                let coin = CoinView { denom: token.factory_denom->Some_0, amount: amount as nat };
                match I::mint_spec(env, info, recipient, coin) {
                    Err(e) => Err(e),
                    Ok(msgs) => Ok(
                        (token, response_of(action_attrs("mint_native"@, amount as nat), msgs)),
                    ),
                }
            }
        } else {
            if !Self::within_cap(token, amount as nat, reported) {
                Err(Cw20FactoryErrorView::CapExceeded)
            } else if token.total_supply + amount > u128::MAX {
                Err(Cw20FactoryErrorView::SupplyOverflow)
            } else {
                Ok(
                    (
                        token.credited(recipient, amount as nat),
                        response_of(action_attrs("mint_cw20"@, amount as nat), Seq::empty()),
                    ),
                )
            }
        }
    }

    /// Burning ledger units of the caller, or the one coin paid with the
    /// call.
    pub open spec fn burn_spec(
        token: TokenView,
        env: EnvView,
        info: MessageInfoView,
        amount: Option<u128>,
    ) -> Outcome {
        if info.funds.len() == 0 {
            if amount is None || amount == Some(0u128) {
                Err(Cw20FactoryErrorView::ZeroBurnAmount)
            } else if amount->Some_0 > token.balances[info.sender] {
                Err(
                    Cw20FactoryErrorView::InsufficientBalance {
                        current: token.balances[info.sender],
                        requested: amount->Some_0 as nat,
                    },
                )
            } else {
                Ok(
                    (
                        token.debited(info.sender, amount->Some_0 as nat),
                        response_of(
                            action_attrs("burn_cw20"@, amount->Some_0 as nat),
                            Seq::empty(),
                        ),
                    ),
                )
            }
        } else if token.factory_denom is None {
            Err(Cw20FactoryErrorView::NoExternalRepresentation)
        } else if info.funds.len() != 1 {
            Err(Cw20FactoryErrorView::ExpectedExactlyOneCoin)
        } else if Self::denom_check(token, info.funds[0]) is Err {
            Err(Self::denom_check(token, info.funds[0])->Err_0)
        } else {
            match I::burn_spec(env, info, info.funds[0]) {
                Err(e) => Err(e),
                Ok(msgs) => Ok(
                    (token, response_of(action_attrs("burn_native"@, info.funds[0].amount), msgs)),
                ),
            }
        }
    }

    /// Asking the indexer at `indexer` to register the token's denom.
    pub open spec fn register_into_indexer_spec(token: TokenView, indexer: Seq<char>) -> Outcome {
        match token.factory_denom {
            None => Err(Cw20FactoryErrorView::NoExternalRepresentation),
            Some(denom) => Ok(
                (
                    token,
                    response_of(
                        seq![
                            attr_view("action"@, "register_into_indexer"@),
                            attr_view("indexer"@, indexer),
                        ],
                        seq![CosmosMsgView::RegisterDenom { indexer, denom }],
                    ),
                ),
            ),
        }
    }

    /// Creating the token's factory denom. It is created once.
    pub open spec fn create_native_spec(
        token: TokenView,
        env: EnvView,
        info: MessageInfoView,
    ) -> Outcome {
        if token.factory_denom is Some {
            Err(Cw20FactoryErrorView::AlreadyMaterialized)
        } else {
            match I::instantiate_spec(env, info, token.info.symbol) {
                Err(e) => Err(e),
                Ok(created) => Ok(
                    (
                        TokenView { factory_denom: Some(created.factory_denom), ..token },
                        response_of(
                            seq![attr_view("action"@, "create_native"@)] + created.attributes.push(
                                attr_view("factory_denom"@, created.factory_denom),
                            ),
                            created.messages,
                        ),
                    ),
                ),
            }
        }
    }

    /// Setting up a token over the metadata and the ledger that the token
    /// standard has set up, whose response is `base`: with its factory denom
    /// at once where `init` asks for it, and announced to an indexer where
    /// `init` names one.
    pub open spec fn instantiate_spec(
        env: EnvView,
        info: MessageInfoView,
        init: Option<InitNativeDetailsView>,
        token: TokenView,
        base: ResponseView,
    ) -> Outcome {
        match init {
            None => Ok((token, base)),
            Some(details) => match I::instantiate_spec(env, info, token.info.symbol) {
                Err(e) => Err(e),
                Ok(created) => Ok(
                    (
                        TokenView { factory_denom: Some(created.factory_denom), ..token },
                        response_of(
                            base.attributes + created.attributes.push(
                                attr_view("factory_denom"@, created.factory_denom),
                            ),
                            base.messages + created.messages + (match details {
                                InitNativeDetailsView::WithIndexer(indexer) => seq![
                                    CosmosMsgView::RegisterDenom {
                                        indexer,
                                        denom: created.factory_denom,
                                    },
                                ],
                                InitNativeDetailsView::WithoutIndexer => Seq::empty(),
                            }),
                        ),
                    ),
                ),
            },
        }
    }

    /// One call of the contract.
    pub open spec fn execute_spec(
        token: TokenView,
        env: EnvView,
        info: MessageInfoView,
        msg: ExecuteMsgView,
        reported: nat,
    ) -> Outcome {
        match msg {
            ExecuteMsgView::TransmuteInto(into) => Self::transmute_spec(token, env, info, into),
            ExecuteMsgView::Burn { amount } => Self::burn_spec(token, env, info, amount),
            ExecuteMsgView::Mint { recipient, amount, as_native } => Self::mint_spec(
                token,
                env,
                info,
                recipient,
                amount,
                as_native,
                reported,
            ),
            ExecuteMsgView::RegisterToIndexer { indexer_addr } => Self::register_into_indexer_spec(
                token,
                indexer_addr,
            ),
            ExecuteMsgView::CreateNative => Self::create_native_spec(token, env, info),
        }
    }

    /// The supply on each side and both together, or the overflow of the
    /// sum.
    pub open spec fn supply_details_spec(token: TokenView, reported: nat) -> Result<
        SupplyDetailsResponse,
        Cw20FactoryErrorView,
    > {
        if token.combined_supply(reported) > u128::MAX {
            Err(Cw20FactoryErrorView::SupplyOverflow)
        } else {
            Ok(
                SupplyDetailsResponse {
                    cw20_supply: token.total_supply as u128,
                    native_supply: token.native_supply(reported) as u128,
                    total_supply: token.combined_supply(reported) as u128,
                },
            )
        }
    }

    /// The answer to a query.
    pub open spec fn query_spec(token: TokenView, msg: QueryMsg, reported: nat) -> Result<
        QueryResponseView,
        Cw20FactoryErrorView,
    > {
        match msg {
            QueryMsg::FactoryDenom {  } => match token.factory_denom {
                Some(denom) => Ok(QueryResponseView::FactoryDenom(denom)),
                None => Err(Cw20FactoryErrorView::NoExternalRepresentation),
            },
            QueryMsg::SupplyDetails {  } => match Self::supply_details_spec(token, reported) {
                Ok(details) => Ok(QueryResponseView::SupplyDetails(details)),
                Err(e) => Err(e),
            },
            QueryMsg::TokenInfo {  } => match Self::supply_details_spec(token, reported) {
                Ok(details) => Ok(
                    QueryResponseView::TokenInfo(
                        TokenInfoResponseView {
                            name: token.info.name,
                            symbol: token.info.symbol,
                            decimals: token.info.decimals,
                            total_supply: details.total_supply as nat,
                        },
                    ),
                ),
                Err(e) => Err(e),
            },
        }
    }
}


/// `cosmwasm_std::StdError`, with which `only_one_coin` fails. Nothing is
/// claimed of what it holds.
#[verifier::external_type_specification]
#[verifier::external_body]
pub struct ExStdError(cosmwasm_std::StdError);

/// Calls `rhaki_cw_plus::asset::only_one_coin`. It hands back the first of
/// `coins` where they are exactly one and, if a denom is asked for, that one
/// is of it; in every other case it fails.
#[verifier::external_body]
fn only_one_coin(coins: &Vec<Coin>, denom: Option<String>) -> (found: Result<Coin, cosmwasm_std::StdError>)
    ensures
        found is Ok <==> (coins@.len() == 1 && (denom matches Some(d) ==> coins@[0].denom@ == d@)),
        found is Ok ==> found->Ok_0@ == coins@[0]@,
{
    let funds: Vec<cosmwasm_std::Coin> = coins.iter().map(
        |c| cosmwasm_std::Coin::new(c.amount, c.denom.clone()),
    ).collect();
    let coin = rhaki_cw_plus::asset::only_one_coin(&funds, denom)?;
    Ok(Coin { denom: coin.denom, amount: coin.amount.u128() })
}

/// What a successful call does to the accounts of the ledger: the one
/// account whose balance the call changes holds the new balance, being
/// opened as the last where it did not exist, and every other account is
/// where it was and as it was; a call that moves no ledger units leaves them
/// all alone.
pub open spec fn accounts_after(
    before: Seq<Account>,
    after: Seq<Account>,
    info: MessageInfo,
    msg: ExecuteMsg,
    token: TokenView,
) -> bool {
    match msg {
        ExecuteMsg::TransmuteInto(_) => accounts_updated(
            before,
            after,
            info.sender,
            token.balances[info.sender@] as u128,
        ),
        ExecuteMsg::Burn { amount } => if info.funds@.len() == 0 {
            accounts_updated(before, after, info.sender, token.balances[info.sender@] as u128)
        } else {
            after == before
        },
        ExecuteMsg::Mint { recipient, amount, as_native } => if as_native == Some(true) {
            after == before
        } else {
            accounts_updated(before, after, recipient, token.balances[recipient@] as u128)
        },
        ExecuteMsg::RegisterToIndexer { indexer_addr } => after == before,
        ExecuteMsg::CreateNative {  } => after == before,
    }
}

// Reading the token.
impl<I: TokenFactoryInterface> Cw20FactoryBase<I> {
    /// The ledger is well formed.
    pub closed spec fn wf(&self) -> bool {
        self.ledger.wf()
    }

    /// The accounts of the ledger, in the order in which they were opened.
    pub closed spec fn accounts(&self) -> Seq<Account> {
        self.ledger.accounts()
    }

    /// The cap on the combined supply, if the token has one.
    pub fn cap(&self) -> (cap: Option<u128>)
        ensures
            match cap {
                Some(c) => self@.cap() == Some(c as nat),
                None => self@.cap() is None,
            },
    {
        match &self.token_info.mint {
            Some(minter) => minter.cap,
            None => None,
        }
    }

    /// Whether the outcome of `msg` depends on the supply of factory coins
    /// that the chain reports: it does for a mint under a cap, once the
    /// token has its denom, and for nothing else.
    pub fn needs_native_supply(&self, msg: &ExecuteMsg) -> (needed: bool)
        ensures
            needed == (msg is Mint && self@.cap() is Some && self@.factory_denom is Some),
            !needed ==> forall|env: EnvView, info: MessageInfoView, reported: nat|
                #[trigger] Self::execute_spec(self@, env, info, msg@, reported)
                    == Self::execute_spec(self@, env, info, msg@, 0),
    {
        match msg {
            ExecuteMsg::Mint { .. } => self.cap().is_some() && self.factory_denom.is_some(),
            _ => false,
        }
    }

    /// A well-formed token keeps a total supply that fits its counter, and
    /// no account holds more than it.
    pub proof fn lemma_bounds(&self, owner: Seq<char>)
        requires
            self.wf(),
        ensures
            self@.balances[owner] <= self@.total_supply <= u128::MAX,
    {
        self.ledger.lemma_bounds(owner);
    }

    /// The token with this metadata and ledger, and with the factory denom
    /// if it exists already.
    pub fn new(token_info: TokenInfo, ledger: Ledger, factory_denom: Option<FactoryDenom>) -> (token:
        Self)
        requires
            ledger.wf(),
        ensures
            token.wf(),
            token.accounts() == ledger.accounts(),
            token@ == (TokenView {
                info: token_info@,
                balances: ledger.balances(),
                total_supply: ledger.total_supply(),
                factory_denom: denom_view(factory_denom),
            }),
    {
        Cw20FactoryBase { token_info, ledger, factory_denom, interface: PhantomData }
    }

    /// What `owner` holds on the ledger.
    pub fn balance(&self, owner: &String) -> (balance: u128)
        requires
            self.wf(),
        ensures
            balance == self@.balances[owner@],
    {
        self.ledger.balance(owner)
    }

    /// The ledger's total supply.
    pub fn cw20_supply(&self) -> (total: u128)
        ensures
            total == self@.total_supply,
    {
        self.ledger.total()
    }

    /// The factory denom, if it exists.
    pub fn factory_denom(&self) -> (denom: Option<String>)
        ensures
            match denom {
                Some(d) => self@.factory_denom == Some(d@),
                None => self@.factory_denom is None,
            },
    {
        match &self.factory_denom {
            Some(d) => Some(d.inner()),
            None => None,
        }
    }

    /// The accounts of the ledger.
    pub fn ledger(&self) -> (ledger: &Ledger)
        ensures
            ledger.balances() == self@.balances,
            ledger.total_supply() == self@.total_supply,
            ledger.accounts() == self.accounts(),
            self.wf() ==> ledger.wf(),
    {
        &self.ledger
    }

    fn load_denom(&self) -> (denom: ContractResult<String>)
        ensures
            match denom {
                Ok(d) => self@.factory_denom == Some(d@),
                Err(e) => self@.factory_denom is None && e@
                    == Cw20FactoryErrorView::NoExternalRepresentation,
            },
    {
        match &self.factory_denom {
            Some(d) => Ok(d.inner()),
            None => Err(Cw20FactoryError::NoExternalRepresentation),
        }
    }

    /// Checks that `coin` is of the token's factory denom.
    pub fn assert_denom(&self, coin: &Coin) -> (result: ContractResult<()>)
        ensures
            match Self::denom_check(self@, coin@) {
                Ok(_) => result is Ok,
                Err(e) => result is Err && result->Err_0@ == e,
            },
    {
        let denom = match self.load_denom() {
            Ok(d) => d,
            Err(e) => { return Err(e); },
        };
        if denom != coin.denom {
            Err(Cw20FactoryError::WrongDenom { expected: denom, received: coin.denom.clone() })
        } else {
            Ok(())
        }
    }

    /// Checks that `sender` is the token's minter.
    pub fn assert_minter(&self, sender: &String) -> (result: ContractResult<()>)
        ensures
            self@.is_minter(sender@) ==> result is Ok,
            !self@.is_minter(sender@) ==> result is Err && result->Err_0@
                == Cw20FactoryErrorView::Unauthorized,
    {
        match &self.token_info.mint {
            Some(minter) => {
                if minter.minter != *sender {
                    Err(Cw20FactoryError::Unauthorized)
                } else {
                    Ok(())
                }
            },
            None => Err(Cw20FactoryError::Unauthorized),
        }
    }

    /// The supply on the ledger, the supply of factory coins that the chain
    /// reports as `native_supply`, and their sum.
    pub fn qy_supply_details(&self, native_supply: u128) -> (result: ContractResult<
        SupplyDetailsResponse,
    >)
        ensures
            match Self::supply_details_spec(self@, native_supply as nat) {
                Ok(details) => result == Ok::<SupplyDetailsResponse, Cw20FactoryError>(details),
                Err(e) => result is Err && result->Err_0@ == e,
            },
    {
        let cw20_supply: u128 = self.ledger.total();
        let native_supply: u128 = if self.factory_denom.is_some() {
            native_supply
        } else {
            0
        };
        if native_supply > u128::MAX - cw20_supply {
            return Err(Cw20FactoryError::SupplyOverflow);
        }
        Ok(
            SupplyDetailsResponse {
                cw20_supply,
                native_supply,
                total_supply: cw20_supply + native_supply,
            },
        )
    }

    /// The token's metadata, with the combined supply as its total.
    pub fn qy_token_info(&self, native_supply: u128) -> (result: ContractResult<TokenInfoResponse>)
        ensures
            match Self::supply_details_spec(self@, native_supply as nat) {
                Ok(details) => result is Ok && result->Ok_0@ == (TokenInfoResponseView {
                    name: self@.info.name,
                    symbol: self@.info.symbol,
                    decimals: self@.info.decimals,
                    total_supply: details.total_supply as nat,
                }),
                Err(e) => result is Err && result->Err_0@ == e,
            },
    {
        let supply = match self.qy_supply_details(native_supply) {
            Ok(details) => details.total_supply,
            Err(e) => { return Err(e); },
        };
        Ok(
            TokenInfoResponse {
                name: self.token_info.name.clone(),
                symbol: self.token_info.symbol.clone(),
                decimals: self.token_info.decimals,
                total_supply: supply,
            },
        )
    }

    /// Refuses a mint of `extra_amount` more units that would take the
    /// combined supply above the cap. A token without a cap refuses none.
    pub fn validate_max_supply(&self, extra_amount: Option<u128>, native_supply: u128) -> (result:
        ContractResult<()>)
        ensures
            Self::within_cap(
                self@,
                extra_amount.unwrap_or(0) as nat,
                native_supply as nat,
            ) ==> result is Ok,
            !Self::within_cap(self@, extra_amount.unwrap_or(0) as nat, native_supply as nat)
                ==> result is Err && result->Err_0@ == Cw20FactoryErrorView::CapExceeded,
    {
        if let Some(minter) = &self.token_info.mint {
            if let Some(cap) = minter.cap {
                let extra: u128 = match extra_amount {
                    Some(a) => a,
                    None => 0,
                };
                let cw20_supply: u128 = self.ledger.total();
                let native_supply: u128 = if self.factory_denom.is_some() {
                    native_supply
                } else {
                    0
                };
                if cw20_supply > cap || native_supply > cap - cw20_supply || extra > cap
                    - cw20_supply - native_supply {
                    return Err(Cw20FactoryError::CapExceeded);
                }
            }
        }
        Ok(())
    }

    /// The answer to a query, given the supply of factory coins that the
    /// chain reports.
    pub fn query(&self, msg: QueryMsg, native_supply: u128) -> (result: ContractResult<
        QueryResponse,
    >)
        ensures
            match Self::query_spec(self@, msg, native_supply as nat) {
                Ok(answer) => result is Ok && result->Ok_0@ == answer,
                Err(e) => result is Err && result->Err_0@ == e,
            },
    {
        match msg {
            QueryMsg::FactoryDenom {  } => match self.load_denom() {
                Ok(denom) => Ok(QueryResponse::FactoryDenom(denom)),
                Err(e) => Err(e),
            },
            QueryMsg::SupplyDetails {  } => match self.qy_supply_details(native_supply) {
                Ok(details) => Ok(QueryResponse::SupplyDetails(details)),
                Err(e) => Err(e),
            },
            QueryMsg::TokenInfo {  } => match self.qy_token_info(native_supply) {
                Ok(info) => Ok(QueryResponse::TokenInfo(info)),
                Err(e) => Err(e),
            },
        }
    }
}


/// No messages.
fn no_msgs() -> (msgs: Vec<CosmosMsg>)
    ensures
        msgs_view(msgs@) == Seq::<CosmosMsgView>::empty(),
{
    let msgs: Vec<CosmosMsg> = Vec::new();
    assert(msgs_view(msgs@) =~= Seq::<CosmosMsgView>::empty());
    msgs
}

/// The response that names an action and its amount and carries `msgs`.
fn action_response(action: &str, amount: u128, msgs: Vec<CosmosMsg>) -> (response: Response)
    ensures
        response@ == response_of(action_attrs(action@, amount as nat), msgs_view(msgs@)),
{
    let response = Response::new().add_attribute("action", String::from_str(action)).add_attribute(
        "amount",
        u128_to_decimal(amount),
    ).add_messages(msgs);
    assert(response@.attributes =~= action_attrs(action@, amount as nat));
    assert(response@.messages =~= msgs_view(msgs@));
    response
}

// Changing the token.
impl<I: TokenFactoryInterface> Cw20FactoryBase<I> {
    /// Sets up a token over the metadata and the ledger that the token
    /// standard has set up, whose response is `base_response`. Where the
    /// message asks for it the factory creates the token's denom at once,
    /// and the indexer that the message names is asked to register it.
    pub fn instantiate(
        env: &Env,
        info: MessageInfo,
        msg: InstantiateMsg,
        token_info: TokenInfo,
        ledger: Ledger,
        base_response: Response,
    ) -> (result: ContractResult<(Self, Response)>)
        requires
            ledger.wf(),
        ensures
            match Self::instantiate_spec(
                env@,
                info@,
                init_native_view(msg.init_native),
                TokenView {
                    info: token_info@,
                    balances: ledger.balances(),
                    total_supply: ledger.total_supply(),
                    factory_denom: None,
                },
                base_response@,
            ) {
                Ok((token, response)) => result is Ok && result->Ok_0.0.wf() && result->Ok_0.0@
                    == token && result->Ok_0.1@ == response && result->Ok_0.0.accounts()
                    == ledger.accounts(),
                Err(e) => result is Err && result->Err_0@ == e,
            },
    {
        let init_native = match msg.init_native {
            Some(details) => details,
            None => { return Ok((Self::new(token_info, ledger, None), base_response)); },
        };
        let created = match I::instantiate(env, info, token_info.symbol.clone()) {
            Ok(created) => created,
            Err(e) => { return Err(e); },
        };
        let ghost base = base_response@;
        let mut response = base_response.add_messages(created.messages);
        if let InitNativeDetails::WithIndexer(indexer) = init_native {
            response = response.add_message(
                CosmosMsg::RegisterDenom { indexer, denom: created.factory_denom.clone() },
            );
        }
        let factory_denom = FactoryDenom::new(created.factory_denom.clone());
        let response = response.add_attributes(created.attributes).add_attribute(
            "factory_denom",
            created.factory_denom,
        );
        assert(response@.attributes =~= base.attributes + created@.attributes.push(
            attr_view("factory_denom"@, created@.factory_denom),
        ));
        assert(response@.messages =~= base.messages + created@.messages + (match init_native@ {
            InitNativeDetailsView::WithIndexer(indexer) => seq![
                CosmosMsgView::RegisterDenom { indexer, denom: created@.factory_denom },
            ],
            InitNativeDetailsView::WithoutIndexer => Seq::empty(),
        }));
        Ok((Self::new(token_info, ledger, Some(factory_denom)), response))
    }

    /// Applies one signed change to what `user` holds and to the ledger's
    /// total supply, and returns the new balance.
    pub fn modify_cw20_balance(&mut self, user: &String, amount: Delta) -> (result:
        ContractResult<u128>)
        requires
            old(self).wf(),
        ensures
            final(self).wf(),
            final(self)@.info == old(self)@.info,
            final(self)@.factory_denom == old(self)@.factory_denom,
            ({
                let balance = old(self)@.balances[user@] + amount.signed();
                let total = old(self)@.total_supply + amount.signed();
                if balance < 0 {
                    &&& *final(self) == *old(self)
                    &&& result is Err
                    &&& result->Err_0@ == (Cw20FactoryErrorView::InsufficientBalance {
                        current: old(self)@.balances[user@],
                        requested: (-amount.signed()) as nat,
                    })
                } else if total > u128::MAX {
                    &&& *final(self) == *old(self)
                    &&& result is Err
                    &&& result->Err_0@ == Cw20FactoryErrorView::SupplyOverflow
                } else {
                    &&& result == Ok::<u128, Cw20FactoryError>(balance as u128)
                    &&& final(self)@.total_supply == total
                    &&& final(self)@.balances == old(self)@.balances.insert(user@, balance as nat)
                    &&& accounts_updated(
                        old(self).accounts(),
                        final(self).accounts(),
                        *user,
                        balance as u128,
                    )
                }
            }),
    {
        self.ledger.modify(user, amount)
    }

    /// Adds `amount` ledger units to what `to` holds.
    pub fn mint_cw20(&mut self, to: &String, amount: u128) -> (result: ContractResult<()>)
        requires
            old(self).wf(),
        ensures
            final(self).wf(),
            old(self)@.total_supply + amount <= u128::MAX ==> result is Ok && final(self)@
                == old(self)@.credited(to@, amount as nat) && accounts_updated(
                old(self).accounts(),
                final(self).accounts(),
                *to,
                (old(self)@.balances[to@] + amount) as u128,
            ),
            old(self)@.total_supply + amount > u128::MAX ==> result is Err && result->Err_0@
                == Cw20FactoryErrorView::SupplyOverflow && *final(self) == *old(self),
    {
        self.ledger.credit(to, amount)
    }

    /// Takes `amount` ledger units from what `user` holds.
    pub fn burn_cw20(&mut self, user: &String, amount: u128) -> (result: ContractResult<()>)
        requires
            old(self).wf(),
        ensures
            final(self).wf(),
            amount <= old(self)@.balances[user@] ==> result is Ok && final(self)@
                == old(self)@.debited(user@, amount as nat) && accounts_updated(
                old(self).accounts(),
                final(self).accounts(),
                *user,
                (old(self)@.balances[user@] - amount) as u128,
            ),
            amount > old(self)@.balances[user@] ==> result is Err && result->Err_0@
                == (Cw20FactoryErrorView::InsufficientBalance {
                current: old(self)@.balances[user@],
                requested: amount as nat,
            }) && *final(self) == *old(self),
    {
        self.ledger.debit(user, amount)
    }

    /// Transmutes value of the caller from one form into the other: ledger
    /// units into factory coins that the factory is asked to mint, or the
    /// one coin paid with the call, which the factory is asked to burn, into
    /// ledger units. A token without a factory denom is not given one by the
    /// way: it has to be created first.
    pub fn run_transmute(&mut self, env: &Env, info: MessageInfo, into: TransmuteIntoMsg) -> (result:
        ContractResponse)
        requires
            old(self).wf(),
        ensures
            final(self).wf(),
            outcome_matches(
                Self::transmute_spec(old(self)@, env@, info@, into),
                result,
                *old(self),
                *final(self),
            ),
            result is Ok ==> accounts_after(
                old(self).accounts(),
                final(self).accounts(),
                info,
                ExecuteMsg::TransmuteInto(into),
                final(self)@,
            ),
    {
        match into {
            TransmuteIntoMsg::Native { amount } => {
                let current: u128 = self.ledger.balance(&info.sender);
                if amount > current {
                    return Err(
                        Cw20FactoryError::InsufficientBalance { current, requested: amount },
                    );
                }
                let denom = match self.load_denom() {
                    Ok(d) => d,
                    Err(e) => { return Err(e); },
                };
                let mint_coin = Coin::new(amount, denom);
                let msgs = match I::mint(env, &info, &info.sender, &mint_coin) {
                    Ok(msgs) => msgs,
                    Err(e) => { return Err(e); },
                };
                let burned = self.burn_cw20(&info.sender, amount);
                Ok(action_response("transumte_into_native", amount, msgs))
            },
            TransmuteIntoMsg::Cw20 {  } => {
                let burn_coin = match only_one_coin(&info.funds, None) {
                    Ok(coin) => coin,
                    Err(_) => { return Err(Cw20FactoryError::ExpectedExactlyOneCoin); },
                };
                match self.assert_denom(&burn_coin) {
                    Ok(_) => {},
                    Err(e) => { return Err(e); },
                }
                if burn_coin.amount > u128::MAX - self.ledger.total() {
                    return Err(Cw20FactoryError::SupplyOverflow);
                }
                let msgs = match I::burn(env, &info, &burn_coin) {
                    Ok(msgs) => msgs,
                    Err(e) => { return Err(e); },
                };
                let minted = self.mint_cw20(&info.sender, burn_coin.amount);
                Ok(action_response("transumte_into_cw20", burn_coin.amount, msgs))
            },
        }
    }

    /// Mints `amount` to `recipient` on behalf of the minter: ledger units,
    /// or factory coins where `as_native` says so. `native_supply` is the
    /// supply of factory coins that the chain reports; the cap is held
    /// against it and the ledger's supply together.
    pub fn run_mint(
        &mut self,
        env: &Env,
        info: MessageInfo,
        recipient: String,
        amount: u128,
        as_native: Option<bool>,
        native_supply: u128,
    ) -> (result: ContractResponse)
        requires
            old(self).wf(),
        ensures
            final(self).wf(),
            outcome_matches(
                Self::mint_spec(
                    old(self)@,
                    env@,
                    info@,
                    recipient@,
                    amount,
                    as_native,
                    native_supply as nat,
                ),
                result,
                *old(self),
                *final(self),
            ),
            result is Ok ==> accounts_after(
                old(self).accounts(),
                final(self).accounts(),
                info,
                ExecuteMsg::Mint { recipient, amount, as_native },
                final(self)@,
            ),
    {
        match self.assert_minter(&info.sender) {
            Ok(_) => {},
            Err(e) => { return Err(e); },
        }
        let native: bool = match as_native {
            Some(b) => b,
            None => false,
        };
        if native {
            let denom = match self.load_denom() {
                Ok(d) => d,
                Err(e) => { return Err(e); },
            };
            let mint_coin = Coin::new(amount, denom);
            match self.validate_max_supply(Some(amount), native_supply) {
                Ok(_) => {},
                Err(e) => { return Err(e); },
            }
            let msgs = match I::mint(env, &info, &recipient, &mint_coin) {
                Ok(msgs) => msgs,
                Err(e) => { return Err(e); },
            };
            Ok(action_response("mint_native", amount, msgs))
        } else {
            match self.validate_max_supply(Some(amount), native_supply) {
                Ok(_) => {},
                Err(e) => { return Err(e); },
            }
            match self.mint_cw20(&recipient, amount) {
                Ok(_) => {},
                Err(e) => { return Err(e); },
            }
            Ok(action_response("mint_cw20", amount, no_msgs()))
        }
    }

    /// Burns value of the caller: `amount` ledger units where the call
    /// carries no funds, else the one coin paid with it, which the factory
    /// is asked to burn.
    pub fn run_burn(&mut self, env: &Env, info: MessageInfo, amount: Option<u128>) -> (result:
        ContractResponse)
        requires
            old(self).wf(),
        ensures
            final(self).wf(),
            outcome_matches(
                Self::burn_spec(old(self)@, env@, info@, amount),
                result,
                *old(self),
                *final(self),
            ),
            result is Ok ==> accounts_after(
                old(self).accounts(),
                final(self).accounts(),
                info,
                ExecuteMsg::Burn { amount },
                final(self)@,
            ),
    {
        if info.funds.len() == 0 {
            let amount: u128 = match amount {
                Some(a) => a,
                None => { return Err(Cw20FactoryError::ZeroBurnAmount); },
            };
            if amount == 0 {
                return Err(Cw20FactoryError::ZeroBurnAmount);
            }
            match self.burn_cw20(&info.sender, amount) {
                Ok(_) => {},
                Err(e) => { return Err(e); },
            }
            Ok(action_response("burn_cw20", amount, no_msgs()))
        } else {
            let denom = match self.load_denom() {
                Ok(d) => d,
                Err(e) => { return Err(e); },
            };
            let burn_coin = match only_one_coin(&info.funds, Some(denom.clone())) {
                Ok(coin) => coin,
                Err(_) => {
                    if info.funds.len() != 1 {
                        return Err(Cw20FactoryError::ExpectedExactlyOneCoin);
                    }
                    return Err(
                        Cw20FactoryError::WrongDenom {
                            expected: denom,
                            received: info.funds[0].denom.clone(),
                        },
                    );
                },
            };
            let msgs = match I::burn(env, &info, &burn_coin) {
                Ok(msgs) => msgs,
                Err(e) => { return Err(e); },
            };
            Ok(action_response("burn_native", burn_coin.amount, msgs))
        }
    }

    /// Asks the indexer at `indexer` to register the token's factory denom.
    pub fn run_register_into_indexer(&self, indexer: String) -> (result: ContractResponse)
        ensures
            match Self::register_into_indexer_spec(self@, indexer@) {
                Ok((_, response)) => result is Ok && result->Ok_0@ == response,
                Err(e) => result is Err && result->Err_0@ == e,
            },
    {
        let denom = match self.load_denom() {
            Ok(d) => d,
            Err(e) => { return Err(e); },
        };
        let response = Response::new().add_attribute(
            "action",
            String::from_str("register_into_indexer"),
        ).add_attribute("indexer", indexer.clone()).add_message(
            CosmosMsg::RegisterDenom { indexer, denom },
        );
        assert(response@.attributes =~= seq![
            attr_view("action"@, "register_into_indexer"@),
            attr_view("indexer"@, indexer@),
        ]);
        assert(response@.messages =~= seq![
            CosmosMsgView::RegisterDenom { indexer: indexer@, denom: denom@ },
        ]);
        Ok(response)
    }

    /// Has the factory create the token's denom, named after the token's
    /// symbol. A token that has its denom is not given another.
    pub fn run_create_native(&mut self, env: &Env, info: MessageInfo) -> (result: ContractResponse)
        requires
            old(self).wf(),
        ensures
            final(self).wf(),
            outcome_matches(
                Self::create_native_spec(old(self)@, env@, info@),
                result,
                *old(self),
                *final(self),
            ),
            final(self).accounts() == old(self).accounts(),
    {
        if self.factory_denom.is_some() {
            return Err(Cw20FactoryError::AlreadyMaterialized);
        }
        let created = match I::instantiate(env, info, self.token_info.symbol.clone()) {
            Ok(created) => created,
            Err(e) => { return Err(e); },
        };
        self.factory_denom = Some(FactoryDenom::new(created.factory_denom.clone()));
        let response = Response::new().add_attribute(
            "action",
            String::from_str("create_native"),
        ).add_attributes(created.attributes).add_attribute(
            "factory_denom",
            created.factory_denom,
        ).add_messages(created.messages);
        assert(response@.attributes =~= seq![attr_view("action"@, "create_native"@)]
            + created@.attributes.push(attr_view("factory_denom"@, created@.factory_denom)));
        assert(response@.messages =~= created@.messages);
        Ok(response)
    }

    /// Carries out one call. `native_supply` is the supply of factory coins
    /// that the chain reports for the token's denom.
    pub fn execute(&mut self, env: &Env, info: MessageInfo, msg: ExecuteMsg, native_supply: u128) -> (result:
        ContractResponse)
        requires
            old(self).wf(),
        ensures
            final(self).wf(),
            outcome_matches(
                Self::execute_spec(old(self)@, env@, info@, msg@, native_supply as nat),
                result,
                *old(self),
                *final(self),
            ),
            result is Ok ==> accounts_after(
                old(self).accounts(),
                final(self).accounts(),
                info,
                msg,
                final(self)@,
            ),
    {
        match msg {
            ExecuteMsg::TransmuteInto(into) => self.run_transmute(env, info, into),
            ExecuteMsg::Burn { amount } => self.run_burn(env, info, amount),
            ExecuteMsg::Mint { recipient, amount, as_native } => self.run_mint(
                env,
                info,
                recipient,
                amount,
                as_native,
                native_supply,
            ),
            ExecuteMsg::RegisterToIndexer { indexer_addr } => self.run_register_into_indexer(
                indexer_addr,
            ),
            ExecuteMsg::CreateNative {  } => self.run_create_native(env, info),
        }
    }
}

} // verus!
