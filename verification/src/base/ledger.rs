//! The account ledger: who holds how many ledger units, and their total.

use crate::cw20_factory::error::{ContractResult, Cw20FactoryError, Cw20FactoryErrorView};
use vstd::prelude::*;

verus! {

/// One holder and what it holds.
#[derive(Debug, Clone, PartialEq, Eq)]
pub struct Account {
    pub owner: String,
    pub balance: u128,
}

/// A change to apply to a balance and to the total supply alike.
#[derive(Debug, Clone, Copy, PartialEq, Eq)]
pub enum Delta {
    Increase(u128),
    Decrease(u128),
}

impl Delta {
    /// The change as a signed number.
    pub open spec fn signed(self) -> int {
        match self {
            Delta::Increase(a) => a as int,
            Delta::Decrease(a) => -(a as int),
        }
    }
}

/// The sum of the balances of `accounts`.
pub open spec fn sum_balances(accounts: Seq<Account>) -> nat
    decreases accounts.len(),
{
    if accounts.len() == 0 {
        0
    } else {
        sum_balances(accounts.drop_last()) + accounts.last().balance as nat
    }
}

/// No two of `accounts` have the same owner.
pub open spec fn owners_distinct(accounts: Seq<Account>) -> bool {
    forall|i: int, j: int|
        0 <= i < j < accounts.len() ==> accounts[i].owner@ != accounts[j].owner@
}

/// What `owner` holds according to `accounts`: zero if it has no account.
pub open spec fn balance_in(accounts: Seq<Account>, owner: Seq<char>) -> nat
    decreases accounts.len(),
{
    if accounts.len() == 0 {
        0
    } else if accounts.last().owner@ == owner {
        accounts.last().balance as nat
    } else {
        balance_in(accounts.drop_last(), owner)
    }
}

/// No account of `accounts` belongs to `owner`.
pub open spec fn absent(accounts: Seq<Account>, owner: Seq<char>) -> bool {
    forall|i: int| 0 <= i < accounts.len() ==> accounts[i].owner@ != owner
}

/// `after` is `before` with the balance of `owner` set to `balance`: the
/// account of `owner` holds it where there is one, else a new account is
/// the last, and every other account is where it was and as it was.
pub open spec fn accounts_updated(
    before: Seq<Account>,
    after: Seq<Account>,
    owner: String,
    balance: u128,
) -> bool {
    &&& after.len() == before.len() + if absent(before, owner@) {
        1int
    } else {
        0int
    }
    &&& forall|i: int|
        0 <= i < before.len() ==> #[trigger] after[i] == if before[i].owner@ == owner@ {
            Account { owner: before[i].owner, balance }
        } else {
            before[i]
        }
    &&& absent(before, owner@) ==> after[before.len() as int] == (Account { owner, balance })
}

/// Every account of `before` is in `after`, at its place and with its
/// owner: no account is ever closed.
pub open spec fn accounts_kept(before: Seq<Account>, after: Seq<Account>) -> bool {
    &&& before.len() <= after.len()
    &&& forall|i: int| 0 <= i < before.len() ==> (#[trigger] after[i]).owner == before[i].owner
}

/// An owner without an account holds nothing.
pub proof fn lemma_balance_absent(accounts: Seq<Account>, owner: Seq<char>)
    requires
        absent(accounts, owner),
    ensures
        balance_in(accounts, owner) == 0,
    decreases accounts.len(),
{
    if accounts.len() > 0 {
        lemma_balance_absent(accounts.drop_last(), owner);
    }
}

/// Where no owner has two accounts, what an owner holds is the balance of
/// its account.
pub proof fn lemma_balance_at(accounts: Seq<Account>, i: int)
    requires
        owners_distinct(accounts),
        0 <= i < accounts.len(),
    ensures
        balance_in(accounts, accounts[i].owner@) == accounts[i].balance,
    decreases accounts.len(),
{
    if i < accounts.len() - 1 {
        lemma_balance_at(accounts.drop_last(), i);
    }
}

/// No holder has more than the sum of all balances.
pub proof fn lemma_balance_le_sum(accounts: Seq<Account>, owner: Seq<char>)
    ensures
        balance_in(accounts, owner) <= sum_balances(accounts),
    decreases accounts.len(),
{
    if accounts.len() > 0 {
        lemma_balance_le_sum(accounts.drop_last(), owner);
    }
}

proof fn lemma_update_balance(accounts: Seq<Account>, i: int, a: Account, o: Seq<char>)
    requires
        owners_distinct(accounts),
        0 <= i < accounts.len(),
        a.owner@ == accounts[i].owner@,
    ensures
        balance_in(accounts.update(i, a), o) == if o == a.owner@ {
            a.balance as nat
        } else {
            balance_in(accounts, o)
        },
    decreases accounts.len(),
{
    let updated = accounts.update(i, a);
    if i == accounts.len() - 1 {
        assert(updated.drop_last() =~= accounts.drop_last());
    } else {
        lemma_update_balance(accounts.drop_last(), i, a, o);
        assert(updated.drop_last() =~= accounts.drop_last().update(i, a));
        assert(accounts.last().owner@ != accounts[i].owner@);
    }
}

proof fn lemma_update(accounts: Seq<Account>, i: int, a: Account)
    requires
        owners_distinct(accounts),
        0 <= i < accounts.len(),
        a.owner@ == accounts[i].owner@,
    ensures
        owners_distinct(accounts.update(i, a)),
        sum_balances(accounts.update(i, a)) == sum_balances(accounts) - accounts[i].balance
            + a.balance,
        forall|o: Seq<char>|
            balance_in(accounts.update(i, a), o) == if o == a.owner@ {
                a.balance as nat
            } else {
                balance_in(accounts, o)
            },
    decreases accounts.len(),
{
    let updated = accounts.update(i, a);
    if i == accounts.len() - 1 {
        assert(updated.drop_last() =~= accounts.drop_last());
    } else {
        lemma_update(accounts.drop_last(), i, a);
        assert(updated.drop_last() =~= accounts.drop_last().update(i, a));
    }
    assert forall|o: Seq<char>|
        balance_in(updated, o) == if o == a.owner@ {
            a.balance as nat
        } else {
            balance_in(accounts, o)
        } by {
        lemma_update_balance(accounts, i, a, o);
    }
}

proof fn lemma_push(accounts: Seq<Account>, a: Account)
    requires
        owners_distinct(accounts),
        absent(accounts, a.owner@),
    ensures
        owners_distinct(accounts.push(a)),
        sum_balances(accounts.push(a)) == sum_balances(accounts) + a.balance,
        forall|o: Seq<char>|
            balance_in(accounts.push(a), o) == if o == a.owner@ {
                a.balance as nat
            } else {
                balance_in(accounts, o)
            },
{
    assert(accounts.push(a).drop_last() =~= accounts);
}

/// The balances of the first accounts sum to no more than those of all.
proof fn lemma_sum_prefix(accounts: Seq<Account>, n: int)
    requires
        0 <= n <= accounts.len(),
    ensures
        sum_balances(accounts.take(n)) <= sum_balances(accounts),
    decreases accounts.len(),
{
    if n == accounts.len() {
        assert(accounts.take(n) =~= accounts);
    } else {
        lemma_sum_prefix(accounts.drop_last(), n);
        assert(accounts.drop_last().take(n) =~= accounts.take(n));
    }
}

/// The accounts of a token and the total of what they hold.
#[derive(Debug, Clone, PartialEq, Eq)]
pub struct Ledger {
    accounts: Vec<Account>,
    total_supply: u128,
}

impl Ledger {
    /// The accounts, in the order in which they were opened.
    pub closed spec fn accounts(&self) -> Seq<Account> {
        self.accounts@
    }

    /// The ledger's total supply.
    pub closed spec fn total_supply(&self) -> nat {
        self.total_supply as nat
    }

    /// Each owner has one account at most, and the total supply is the sum
    /// of all balances.
    pub open spec fn wf(&self) -> bool {
        &&& owners_distinct(self.accounts())
        &&& sum_balances(self.accounts()) == self.total_supply()
    }

    /// What `owner` holds; zero if it has no account.
    pub open spec fn balance_of(&self, owner: Seq<char>) -> nat {
        balance_in(self.accounts(), owner)
    }

    /// The balance of every owner.
    pub open spec fn balances(&self) -> Map<Seq<char>, nat> {
        Map::total(|owner: Seq<char>| self.balance_of(owner))
    }

    /// The total supply fits the counter, and no balance is above it.
    pub proof fn lemma_bounds(&self, owner: Seq<char>)
        requires
            self.wf(),
        ensures
            self.balance_of(owner) <= self.total_supply() <= u128::MAX,
    {
        lemma_balance_le_sum(self.accounts(), owner);
    }

    /// A ledger without accounts.
    pub fn new() -> (ledger: Ledger)
        ensures
            ledger.wf(),
            ledger.total_supply() == 0,
            ledger.accounts() == Seq::<Account>::empty(),
            forall|owner: Seq<char>| ledger.balance_of(owner) == 0,
    {
        Ledger { accounts: Vec::new(), total_supply: 0 }
    }

    /// The ledger of these accounts, where no owner has two of them and the
    /// sum of their balances fits the counter of the total supply.
    pub fn from_accounts(accounts: Vec<Account>) -> (ledger: Option<Ledger>)
        ensures
            ledger is Some <==> owners_distinct(accounts@) && sum_balances(accounts@) <= u128::MAX,
            ledger matches Some(l) ==> l.wf() && l.accounts() == accounts@,
    {
        let mut total: u128 = 0;
        let mut i: usize = 0;
        assert(accounts@.take(0) =~= Seq::<Account>::empty());
        while i < accounts.len()
            invariant
                i <= accounts@.len(),
                total == sum_balances(accounts@.take(i as int)),
                owners_distinct(accounts@.take(i as int)),
            decreases accounts@.len() - i,
        {
            let mut j: usize = 0;
            while j < i
                invariant
                    j <= i < accounts@.len(),
                    forall|k: int| 0 <= k < j ==> accounts@[k].owner@ != accounts@[i as int].owner@,
                decreases i - j,
            {
                if accounts[j].owner == accounts[i].owner {
                    return None;
                }
                j = j + 1;
            }
            assert(accounts@.take(i + 1).drop_last() =~= accounts@.take(i as int));
            if accounts[i].balance > u128::MAX - total {
                proof {
                    lemma_sum_prefix(accounts@, i + 1);
                }
                return None;
            }
            total = total + accounts[i].balance;
            i = i + 1;
        }
        assert(accounts@.take(i as int) =~= accounts@);
        Some(Ledger { accounts, total_supply: total })
    }

    fn find(&self, owner: &String) -> (found: Option<usize>)
        ensures
            match found {
                Some(i) => i < self.accounts().len() && self.accounts()[i as int].owner@
                    == owner@,
                None => absent(self.accounts(), owner@),
            },
    {
        let mut i: usize = 0;
        while i < self.accounts.len()
            invariant
                i <= self.accounts@.len(),
                forall|k: int| 0 <= k < i ==> self.accounts@[k].owner@ != owner@,
            decreases self.accounts@.len() - i,
        {
            if self.accounts[i].owner == *owner {
                return Some(i);
            }
            i = i + 1;
        }
        None
    }

    /// What `owner` holds.
    pub fn balance(&self, owner: &String) -> (balance: u128)
        requires
            self.wf(),
        ensures
            balance == self.balance_of(owner@),
    {
        match self.find(owner) {
            Some(i) => {
                proof {
                    lemma_balance_at(self.accounts(), i as int);
                }
                self.accounts[i].balance
            },
            None => {
                proof {
                    lemma_balance_absent(self.accounts(), owner@);
                }
                0
            },
        }
    }

    /// The total supply.
    pub fn total(&self) -> (total: u128)
        ensures
            total == self.total_supply(),
    {
        self.total_supply
    }

    /// The number of accounts that were ever opened.
    pub fn len(&self) -> (n: usize)
        ensures
            n == self.accounts().len(),
    {
        self.accounts.len()
    }

    /// The owner and the balance of the account at `index`.
    pub fn account(&self, index: usize) -> (a: Account)
        requires
            index < self.accounts().len(),
        ensures
            a.owner@ == self.accounts()[index as int].owner@,
            a.balance == self.accounts()[index as int].balance,
    {
        Account {
            owner: self.accounts[index].owner.clone(),
            balance: self.accounts[index].balance,
        }
    }

    /// Applies one signed change to the balance of `owner` and to the total
    /// supply alike, and returns the new balance. A change that would take
    /// the balance below zero, or the total above what its counter holds, is
    /// refused and changes nothing.
    pub fn modify(&mut self, owner: &String, delta: Delta) -> (result: ContractResult<u128>)
        requires
            old(self).wf(),
        ensures
            final(self).wf(),
            result_matches_modify(*old(self), *owner, delta, result, *final(self)),
    {
        let found = self.find(owner);
        let current: u128 = match found {
            Some(i) => self.accounts[i].balance,
            None => 0,
        };
        proof {
            match found {
                Some(i) => lemma_balance_at(self.accounts(), i as int),
                None => lemma_balance_absent(self.accounts(), owner@),
            }
            self.lemma_bounds(owner@);
        }
        let updated: u128;
        let total: u128;
        match delta {
            Delta::Increase(amount) => {
                if amount > u128::MAX - self.total_supply {
                    return Err(Cw20FactoryError::SupplyOverflow);
                }
                updated = current + amount;
                total = self.total_supply + amount;
            },
            Delta::Decrease(amount) => {
                if amount > current {
                    return Err(
                        Cw20FactoryError::InsufficientBalance { current, requested: amount },
                    );
                }
                updated = current - amount;
                total = self.total_supply - amount;
            },
        }
        match found {
            Some(i) => {
                let account = Account { owner: self.accounts[i].owner.clone(), balance: updated };
                proof {
                    lemma_update(self.accounts(), i as int, account);
                }
                self.accounts.set(i, account);
            },
            None => {
                let account = Account { owner: owner.clone(), balance: updated };
                proof {
                    lemma_push(self.accounts(), account);
                }
                self.accounts.push(account);
            },
        }
        self.total_supply = total;
        assert(final(self).balances() =~= old(self).balances().insert(owner@, updated as nat));
        assert(accounts_updated(old(self).accounts(), final(self).accounts(), *owner, updated));
        Ok(updated)
    }

    /// Adds `amount` to what `owner` holds and to the total supply.
    pub fn credit(&mut self, owner: &String, amount: u128) -> (result: ContractResult<()>)
        requires
            old(self).wf(),
        ensures
            final(self).wf(),
            result is Ok <==> old(self).total_supply() + amount <= u128::MAX,
            result is Ok ==> {
                &&& final(self).total_supply() == old(self).total_supply() + amount
                &&& final(self).balances() == old(self).balances().insert(
                    owner@,
                    (old(self).balance_of(owner@) + amount) as nat,
                )
                &&& accounts_updated(
                    old(self).accounts(),
                    final(self).accounts(),
                    *owner,
                    (old(self).balance_of(owner@) + amount) as u128,
                )
            },
            result is Err ==> {
                &&& *final(self) == *old(self)
                &&& result->Err_0@ == Cw20FactoryErrorView::SupplyOverflow
            },
    {
        match self.modify(owner, Delta::Increase(amount)) {
            Ok(_) => Ok(()),
            Err(e) => Err(e),
        }
    }

    /// Takes `amount` from what `owner` holds and from the total supply.
    pub fn debit(&mut self, owner: &String, amount: u128) -> (result: ContractResult<()>)
        requires
            old(self).wf(),
        ensures
            final(self).wf(),
            result is Ok <==> amount <= old(self).balance_of(owner@),
            result is Ok ==> {
                &&& final(self).total_supply() == old(self).total_supply() - amount
                &&& final(self).balances() == old(self).balances().insert(
                    owner@,
                    (old(self).balance_of(owner@) - amount) as nat,
                )
                &&& accounts_updated(
                    old(self).accounts(),
                    final(self).accounts(),
                    *owner,
                    (old(self).balance_of(owner@) - amount) as u128,
                )
            },
            result is Err ==> {
                &&& *final(self) == *old(self)
                &&& result->Err_0@ == (Cw20FactoryErrorView::InsufficientBalance {
                    current: old(self).balance_of(owner@),
                    requested: amount as nat,
                })
            },
    {
        match self.modify(owner, Delta::Decrease(amount)) {
            Ok(_) => Ok(()),
            Err(e) => Err(e),
        }
    }
}

/// What `modify` owes: the outcome of applying `delta` to the account of
/// `owner` in `before`.
pub open spec fn result_matches_modify(
    before: Ledger,
    owner: String,
    delta: Delta,
    result: ContractResult<u128>,
    after: Ledger,
) -> bool {
    let balance = before.balance_of(owner@) + delta.signed();
    let total = before.total_supply() + delta.signed();
    if balance < 0 {
        &&& after == before
        &&& result is Err
        &&& result->Err_0@ == (Cw20FactoryErrorView::InsufficientBalance {
            current: before.balance_of(owner@),
            requested: (-delta.signed()) as nat,
        })
    } else if total > u128::MAX {
        &&& after == before
        &&& result is Err
        &&& result->Err_0@ == Cw20FactoryErrorView::SupplyOverflow
    } else {
        &&& result == Ok::<u128, Cw20FactoryError>(balance as u128)
        &&& after.total_supply() == total
        &&& after.balances() == before.balances().insert(owner@, balance as nat)
        &&& accounts_updated(before.accounts(), after.accounts(), owner, balance as u128)
    }
}

} // verus!
