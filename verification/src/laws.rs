//! What holds of the token and of the indexer whatever is asked of them.

use crate::base::contract::{Cw20FactoryBase, TokenView};
use crate::cw20_factory::definitions::TransmuteIntoMsg;
use crate::cw20_factory::error::Cw20FactoryErrorView;
use crate::cw20_factory::interface::TokenFactoryInterface;
use crate::cw20_factory::msgs::ExecuteMsgView;
use crate::cw20_indexer::error::Cw20IndexerErrorView;
use crate::host::{CoinView, EnvView, MessageInfoView, ResponseView};
use crate::indexer::contract::register_spec;
use crate::indexer::function::validate_denom_spec;
use crate::indexer::state::{
    has_entry, lemma_inserted, owner_of, sorted, RegistryEntryView,
};
use crate::osmosis::interface::denom_spec;
use crate::text::{lemma_split_joined, lemma_split_plain, split_text};
use vstd::prelude::*;

verus! {

/// The factory coins that a transmutation asks the factory to issue: the
/// amount to mint, or the amount of the coin to burn taken as negative.
pub open spec fn issued_by_transmute(info: MessageInfoView, into: TransmuteIntoMsg) -> int {
    match into {
        TransmuteIntoMsg::Native { amount } => amount as int,
        TransmuteIntoMsg::Cw20 {  } => -(info.funds[0].amount as int),
    }
}

/// A transmutation conserves the combined supply. Where it succeeds the
/// ledger's supply changes by exactly the opposite of what the factory is
/// asked to issue, and the response carries the factory's answer to a
/// request for that amount of the token's denom and nothing else; so the
/// combined supply after the call is the one before it, and so it is after
/// any sequence of such calls.
pub proof fn lemma_transmute_conserves_combined_supply<I: TokenFactoryInterface>(
    token: TokenView,
    env: EnvView,
    info: MessageInfoView,
    into: TransmuteIntoMsg,
    reported: nat,
)
    requires
        Cw20FactoryBase::<I>::transmute_spec(token, env, info, into) is Ok,
        token.balances[info.sender] <= token.total_supply,
        reported + issued_by_transmute(info, into) >= 0,
    ensures
        ({
            let (after, response) = Cw20FactoryBase::<I>::transmute_spec(token, env, info, into)->Ok_0;
            let issued = issued_by_transmute(info, into);
            &&& token.factory_denom is Some
            &&& after.factory_denom == token.factory_denom
            &&& after.total_supply == token.total_supply - issued
            &&& after.combined_supply((reported + issued) as nat) == token.combined_supply(reported)
            &&& into is Native ==> Ok::<_, Cw20FactoryErrorView>(response.messages) == I::mint_spec(
                env,
                info,
                info.sender,
                CoinView { denom: token.factory_denom->Some_0, amount: issued as nat },
            )
            &&& into is Cw20 ==> Ok::<_, Cw20FactoryErrorView>(response.messages) == I::burn_spec(
                env,
                info,
                CoinView { denom: token.factory_denom->Some_0, amount: (-issued) as nat },
            )
        }),
{
}

/// No balance goes below zero: taking more ledger units from the caller
/// than the caller holds is refused with the balance and the request, by a
/// transmutation as by a burn.
pub proof fn lemma_overdraw_refused<I: TokenFactoryInterface>(
    token: TokenView,
    env: EnvView,
    info: MessageInfoView,
    amount: u128,
)
    requires
        amount > token.balances[info.sender],
    ensures
        Cw20FactoryBase::<I>::transmute_spec(
            token,
            env,
            info,
            TransmuteIntoMsg::Native { amount },
        ) == Err::<(TokenView, ResponseView), _>(
            Cw20FactoryErrorView::InsufficientBalance {
                current: token.balances[info.sender],
                requested: amount as nat,
            },
        ),
        info.funds.len() == 0 ==> Cw20FactoryBase::<I>::burn_spec(token, env, info, Some(amount))
            == Err::<(TokenView, ResponseView), _>(
            Cw20FactoryErrorView::InsufficientBalance {
                current: token.balances[info.sender],
                requested: amount as nat,
            },
        ),
{
}

/// The factory coins that a mint asks the factory to issue.
pub open spec fn issued_by_mint(amount: u128, as_native: Option<bool>) -> nat {
    if as_native == Some(true) {
        amount as nat
    } else {
        0
    }
}

/// The cap binds every mint of the minter. With a cap of `cap` and a
/// combined supply of `supply`, a mint of more than `cap - supply` is
/// refused as exceeding the cap. A mint of no more than that succeeds, on
/// the ledger always and as factory coins where the factory answers the
/// request, and the combined supply after it is `supply` and the amount.
pub proof fn lemma_cap_enforced<I: TokenFactoryInterface>(
    token: TokenView,
    env: EnvView,
    info: MessageInfoView,
    recipient: Seq<char>,
    amount: u128,
    as_native: Option<bool>,
    reported: nat,
)
    requires
        token.is_minter(info.sender),
        token.cap() is Some,
        token.cap()->Some_0 <= u128::MAX,
        as_native == Some(true) ==> token.factory_denom is Some,
    ensures
        ({
            let cap = token.cap()->Some_0;
            let supply = token.combined_supply(reported);
            let outcome = Cw20FactoryBase::<I>::mint_spec(
                token,
                env,
                info,
                recipient,
                amount,
                as_native,
                reported,
            );
            &&& amount > cap - supply ==> outcome == Err::<
                (TokenView, ResponseView),
                _,
            >(Cw20FactoryErrorView::CapExceeded)
            &&& amount <= cap - supply && as_native != Some(true) ==> outcome is Ok
            &&& amount <= cap - supply && as_native == Some(true) ==> (outcome is Ok
                <==> I::mint_spec(
                env,
                info,
                recipient,
                CoinView { denom: token.factory_denom->Some_0, amount: amount as nat },
            ) is Ok)
            &&& outcome is Ok ==> outcome->Ok_0.0.combined_supply(
                reported + issued_by_mint(amount, as_native),
            ) == supply + amount
        }),
{
}

/// The factory denom is written once. After it was created, creating it
/// again is refused, whoever asks.
pub proof fn lemma_native_created_once<I: TokenFactoryInterface>(
    token: TokenView,
    env: EnvView,
    info: MessageInfoView,
    again_env: EnvView,
    again_info: MessageInfoView,
)
    requires
        Cw20FactoryBase::<I>::create_native_spec(token, env, info) is Ok,
    ensures
        ({
            let after = Cw20FactoryBase::<I>::create_native_spec(token, env, info)->Ok_0.0;
            &&& token.factory_denom is None
            &&& after.factory_denom is Some
            &&& Cw20FactoryBase::<I>::create_native_spec(after, again_env, again_info) == Err::<
                (TokenView, ResponseView),
                _,
            >(Cw20FactoryErrorView::AlreadyMaterialized)
        }),
{
}

/// No call changes a factory denom that exists, nor the token's metadata.
pub proof fn lemma_factory_denom_is_kept<I: TokenFactoryInterface>(
    token: TokenView,
    env: EnvView,
    info: MessageInfoView,
    msg: ExecuteMsgView,
    reported: nat,
)
    requires
        Cw20FactoryBase::<I>::execute_spec(token, env, info, msg, reported) is Ok,
    ensures
        ({
            let after = Cw20FactoryBase::<I>::execute_spec(token, env, info, msg, reported)->Ok_0.0;
            &&& after.info == token.info
            &&& token.factory_denom is Some ==> after.factory_denom == token.factory_denom
        }),
{
}

/// The registry is written once for each denom. After a denom was
/// registered it has its entry, owned by the contract that registered it,
/// and every other denom has the owner it had; a second registration of it
/// is refused as registered already, whoever asks and whatever the caller
/// answers.
pub proof fn lemma_registered_once(
    entries: Seq<RegistryEntryView>,
    sender: Seq<char>,
    denom: Seq<char>,
    again_sender: Seq<char>,
    again_failure: Option<Seq<char>>,
)
    requires
        sorted(entries),
        register_spec(entries, sender, denom, None) is Ok,
    ensures
        ({
            let after = register_spec(entries, sender, denom, None)->Ok_0;
            &&& sorted(after)
            &&& has_entry(after, denom)
            &&& owner_of(after, denom) == Some(sender)
            &&& forall|other: Seq<char>|
                other != denom ==> owner_of(after, other) == owner_of(entries, other)
            &&& register_spec(after, again_sender, denom, again_failure) == Err::<
                Seq<RegistryEntryView>,
                _,
            >(Cw20IndexerErrorView::AlreadyRegistered { denom })
        }),
{
    lemma_inserted(entries, RegistryEntryView { denom, cw20_addr: sender });
}

/// A denom that has an entry is refused as registered already, by whatever
/// way the entry came about.
pub proof fn lemma_registered_is_refused(
    entries: Seq<RegistryEntryView>,
    sender: Seq<char>,
    denom: Seq<char>,
    failure: Option<Seq<char>>,
)
    requires
        has_entry(entries, denom),
    ensures
        register_spec(entries, sender, denom, failure) == Err::<Seq<RegistryEntryView>, _>(
            Cw20IndexerErrorView::AlreadyRegistered { denom },
        ),
{
}

/// A contract registers its own denoms only. Of a denom that has no entry,
/// one whose second segment is not the caller, or whose first is not
/// `factory`, is refused as a mismatch, and one that has not three segments
/// as malformed.
pub proof fn lemma_self_attestation(
    entries: Seq<RegistryEntryView>,
    sender: Seq<char>,
    denom: Seq<char>,
    failure: Option<Seq<char>>,
)
    ensures
        register_spec(entries, sender, denom, failure) is Ok ==> {
            &&& split_text(denom, '/').len() == 3
            &&& split_text(denom, '/')[0] == "factory"@
            &&& split_text(denom, '/')[1] == sender
        },
        !has_entry(entries, denom) && split_text(denom, '/').len() != 3 ==> register_spec(
            entries,
            sender,
            denom,
            failure,
        ) == Err::<Seq<RegistryEntryView>, _>(Cw20IndexerErrorView::MalformedIdentifier { denom }),
        !has_entry(entries, denom) && split_text(denom, '/').len() == 3 && split_text(denom, '/')[1]
            != sender ==> register_spec(entries, sender, denom, failure) == Err::<
            Seq<RegistryEntryView>,
            _,
        >(Cw20IndexerErrorView::IdentityMismatch { denom }),
{
}

/// The denom that the token factory of Osmosis gives to a contract is one
/// that this contract, and no other, may register: it has the three
/// segments `factory`, the contract and the subdenom, as long as neither of
/// the two holds a slash.
pub proof fn lemma_factory_denom_attests_its_creator(
    contract: Seq<char>,
    subdenom: Seq<char>,
    sender: Seq<char>,
)
    requires
        !contract.contains('/'),
        !subdenom.contains('/'),
    ensures
        split_text(denom_spec(contract, subdenom), '/') == seq!["factory"@, contract, subdenom],
        sender == contract ==> validate_denom_spec(denom_spec(contract, subdenom), sender) is Ok,
        sender != contract ==> validate_denom_spec(denom_spec(contract, subdenom), sender) == Err::<
            (),
            _,
        >(Cw20IndexerErrorView::IdentityMismatch { denom: denom_spec(contract, subdenom) }),
{
    reveal_strlit("factory/");
    reveal_strlit("factory");
    reveal_strlit("/");
    let factory = "factory"@;
    assert("factory/"@ =~= factory.push('/'));
    assert("/"@ =~= seq!['/']);
    assert(!factory.contains('/'));
    let first = factory.push('/') + contract;
    assert(denom_spec(contract, subdenom) =~= first.push('/') + subdenom);
    lemma_split_plain(factory, '/');
    lemma_split_joined(factory, '/', contract);
    lemma_split_joined(first, '/', subdenom);
    assert(seq![factory].push(contract).push(subdenom) =~= seq![factory, contract, subdenom]);
}

} // verus!
