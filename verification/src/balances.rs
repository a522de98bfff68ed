//! The balances pallet: a ledger of the funds of each account.

use crate::numeric::Currency;
use crate::storage::{Key, StorageMap};
use crate::support::{Dispatch, DispatchError, DispatchResult};
use vstd::prelude::*;

verus! {

/// The types of the balances pallet: those of the system pallet and the
/// type of an amount of funds.
pub trait Config: crate::system::Config {
    /// What funds are measured in.
    type Balance: Currency;
}

/// The balance of `who` in `ledger`: 0 for an account without an entry.
pub open spec fn balance_of<A>(ledger: Map<A, nat>, who: A) -> nat {
    if ledger.contains_key(who) {
        ledger[who]
    } else {
        0
    }
}

/// The ledger after an attempt to move `amount` from `from` to `to`, where
/// balances go up to `max`, and how the attempt ends.
///
/// The sender is debited first and the recipient credited after, so an
/// account that pays itself ends with what it had.
pub open spec fn transfer_outcome<A>(ledger: Map<A, nat>, from: A, to: A, amount: nat, max: nat) -> (
    Map<A, nat>,
    DispatchResult,
) {
    if balance_of(ledger, from) < amount {
        (ledger, Err(DispatchError::InsufficientBalance))
    } else if balance_of(ledger, to) + amount > max {
        (ledger, Err(DispatchError::Overflow))
    } else {
        let debited = ledger.insert(from, (balance_of(ledger, from) - amount) as nat);
        (debited.insert(to, balance_of(debited, to) + amount), Ok(()))
    }
}

/// The sum of all balances of a ledger with finitely many entries.
pub open spec fn total_issuance<A>(ledger: Map<A, nat>) -> nat
    decreases ledger.dom().len(),
    when ledger.dom().finite()
{
    if ledger.dom().len() == 0 {
        0
    } else {
        let who = ledger.dom().choose();
        ledger[who] + total_issuance(ledger.remove(who))
    }
}

/// The total is the balance of any one account plus the total of the others.
pub proof fn lemma_total_split<A>(ledger: Map<A, nat>, who: A)
    requires
        ledger.dom().finite(),
        ledger.contains_key(who),
    ensures
        total_issuance(ledger) == ledger[who] + total_issuance(ledger.remove(who)),
    decreases ledger.dom().len(),
{
    let first = ledger.dom().choose();
    if first != who {
        let rest = ledger.remove(first);
        lemma_total_split(rest, who);
        lemma_total_split(ledger.remove(who), first);
        assert(rest.remove(who) =~= ledger.remove(who).remove(first));
    }
}

/// Writing a balance changes the total by the difference to the balance
/// that the account had.
pub proof fn lemma_total_insert<A>(ledger: Map<A, nat>, who: A, balance: nat)
    requires
        ledger.dom().finite(),
    ensures
        total_issuance(ledger.insert(who, balance)) == total_issuance(ledger) - balance_of(
            ledger,
            who,
        ) + balance,
{
    let written = ledger.insert(who, balance);
    lemma_total_split(written, who);
    assert(written.remove(who) =~= ledger.remove(who));
    if ledger.contains_key(who) {
        lemma_total_split(ledger, who);
    } else {
        assert(ledger.remove(who) =~= ledger);
    }
}

/// Conservation: no transfer, whether it succeeds or fails, changes the sum
/// of all balances.
pub proof fn lemma_transfer_conserves_total<A>(
    ledger: Map<A, nat>,
    from: A,
    to: A,
    amount: nat,
    max: nat,
)
    requires
        ledger.dom().finite(),
    ensures
        transfer_outcome(ledger, from, to, amount, max).0.dom().finite(),
        total_issuance(transfer_outcome(ledger, from, to, amount, max).0) == total_issuance(ledger),
{
    if transfer_outcome(ledger, from, to, amount, max).1 is Ok {
        let debited = ledger.insert(from, (balance_of(ledger, from) - amount) as nat);
        lemma_total_insert(ledger, from, (balance_of(ledger, from) - amount) as nat);
        lemma_total_insert(debited, to, balance_of(debited, to) + amount);
    }
}

/// A transfer of more than the sender has fails with `InsufficientBalance`
/// and leaves every balance as it was.
pub proof fn lemma_overdraft_changes_nothing<A>(
    ledger: Map<A, nat>,
    from: A,
    to: A,
    amount: nat,
    max: nat,
)
    requires
        amount > balance_of(ledger, from),
    ensures
        transfer_outcome(ledger, from, to, amount, max) == (
            ledger,
            Err::<(), DispatchError>(DispatchError::InsufficientBalance),
        ),
{
}

/// The balances pallet.
#[derive(Debug)]
pub struct Pallet<T: Config> {
    /// The balance of each account that has one.
    pub balances: StorageMap<T::AccountId, T::Balance>,
}

/// The operations of the balances pallet that an extrinsic can ask for.
#[derive(Debug)]
pub enum Call<T: Config> {
    /// Move `amount` from the caller to `to`.
    Transfer { to: T::AccountId, amount: T::Balance },
}

impl<T: Config> View for Pallet<T> {
    type V = Map<<T::AccountId as View>::V, nat>;

    open spec fn view(&self) -> Self::V {
        self.balances@.map_values(|b: T::Balance| b.amount())
    }
}

impl<T: Config> Pallet<T> {
    /// The ledger has finitely many entries.
    pub proof fn lemma_finite(self)
        ensures
            self@.dom().finite(),
    {
        self.balances.lemma_finite();
        assert(self@.dom() =~= self.balances@.dom());
    }

    /// Creates a ledger without entries.
    pub fn new() -> (pallet: Self)
        ensures
            pallet@ == Map::<<T::AccountId as View>::V, nat>::empty(),
    {
        Self { balances: StorageMap::new() }
    }

    /// Moves `amount` from `from` to `to`.
    ///
    /// Fails with `InsufficientBalance` where `from` has less than `amount`,
    /// and with `Overflow` where the balance of `to` cannot grow by `amount`;
    /// a failed transfer changes nothing. The sum of all balances stays what
    /// it was.
    pub fn transfer(&mut self, from: &T::AccountId, to: &T::AccountId, amount: T::Balance) -> (result:
        DispatchResult)
        ensures
            (final(self)@, result) == transfer_outcome(
                old(self)@,
                from@,
                to@,
                amount.amount(),
                T::Balance::max_amount(),
            ),
            total_issuance(final(self)@) == total_issuance(old(self)@),
    {
        proof {
            self.lemma_finite();
            lemma_transfer_conserves_total(
                self@,
                from@,
                to@,
                amount.amount(),
                T::Balance::max_amount(),
            );
        }
        let balance_from = self.get_balance(from);
        let balance_to = self.get_balance(to);
        let new_balance_from = match balance_from.checked_sub(&amount) {
            Some(balance) => balance,
            None => {
                return Err(DispatchError::InsufficientBalance);
            },
        };
        let new_balance_to = match balance_to.checked_add(&amount) {
            Some(balance) => balance,
            None => {
                return Err(DispatchError::Overflow);
            },
        };
        if from.same(to) {
            self.balances.insert(from.duplicate(), balance_from);
        } else {
            self.balances.insert(from.duplicate(), new_balance_from);
            self.balances.insert(to.duplicate(), new_balance_to);
        }
        assert(final(self)@ =~= transfer_outcome(
            old(self)@,
            from@,
            to@,
            amount.amount(),
            T::Balance::max_amount(),
        ).0);
        Ok(())
    }

    /// Writes `amount` as the balance of `from`. Always succeeds.
    pub fn set_balances(&mut self, from: &T::AccountId, amount: T::Balance) -> (result:
        DispatchResult)
        ensures
            result is Ok,
            final(self)@ == old(self)@.insert(from@, amount.amount()),
    {
        self.balances.insert(from.duplicate(), amount);
        Ok(())
    }

    /// The balance of `user`: 0 for an account without an entry.
    pub fn get_balance(&self, user: &T::AccountId) -> (balance: T::Balance)
        ensures
            balance.amount() == balance_of(self@, user@),
    {
        match self.balances.get(user) {
            Some(balance) => *balance,
            None => T::Balance::zero(),
        }
    }
}

impl<T: Config> Dispatch for Pallet<T> {
    type Caller = T::AccountId;

    type Call = Call<T>;

    /// Performs the operation that `call` names on behalf of `caller`.
    fn dispatch(&mut self, caller: Self::Caller, call: Self::Call) -> (result: DispatchResult)
        ensures
            match call {
                Call::Transfer { to, amount } => (final(self)@, result) == transfer_outcome(
                    old(self)@,
                    caller@,
                    to@,
                    amount.amount(),
                    T::Balance::max_amount(),
                ),
            },
    {
        match call {
            Call::Transfer { to, amount } => self.transfer(&caller, &to, amount),
        }
    }
}

} // verus!
