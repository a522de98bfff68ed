//! The system pallet: the number of the last executed block and, for each
//! account, the number of extrinsics it has submitted.

use crate::numeric::Counter;
use crate::storage::{Key, StorageMap};
use crate::support::{DispatchError, DispatchResult};
use vstd::prelude::*;

verus! {

/// The types that every pallet of a runtime agrees on.
pub trait Config {
    /// What identifies an account.
    type AccountId: Key;

    /// What blocks are numbered with.
    type BlockNumber: Counter;

    /// What the extrinsics of an account are counted with.
    type Nonce: Counter;
}

/// What the system pallet holds, as mathematics: `A` is the view of an
/// account identifier.
#[verifier::reject_recursive_types(A)]
pub struct State<A> {
    /// The number of the last executed block, 0 before the first.
    pub block_number: nat,
    /// The nonce of each account that has one. An account without an entry
    /// has nonce 0.
    pub nonces: Map<A, nat>,
}

/// The nonce of `who`: 0 for an account without an entry.
pub open spec fn nonce_of<A>(nonces: Map<A, nat>, who: A) -> nat {
    if nonces.contains_key(who) {
        nonces[who]
    } else {
        0
    }
}

impl<A> State<A> {
    /// The state after an attempt to count one more block, where block
    /// numbers go up to `max`, and how the attempt ends.
    pub open spec fn increment_block_number(self, max: nat) -> (Self, DispatchResult) {
        if self.block_number + 1 <= max {
            (State { block_number: self.block_number + 1, nonces: self.nonces }, Ok(()))
        } else {
            (self, Err(DispatchError::Overflow))
        }
    }

    /// The state after an attempt to count one more extrinsic of `who`,
    /// where nonces go up to `max`, and how the attempt ends.
    pub open spec fn increment_nonce(self, who: A, max: nat) -> (Self, DispatchResult) {
        let next = nonce_of(self.nonces, who) + 1;
        if next <= max {
            (State { block_number: self.block_number, nonces: self.nonces.insert(who, next) }, Ok(()))
        } else {
            (self, Err(DispatchError::Overflow))
        }
    }
}

/// The counters are monotonic: neither operation lowers the block number
/// or any nonce, counting a block leaves the nonces alone, and counting an
/// extrinsic leaves the block number and the nonces of the other accounts
/// alone.
pub proof fn lemma_counters_never_decrease<A>(state: State<A>, who: A, other: A, max: nat)
    ensures
        state.increment_block_number(max).0.block_number >= state.block_number,
        state.increment_block_number(max).0.nonces == state.nonces,
        state.increment_nonce(who, max).0.block_number == state.block_number,
        nonce_of(state.increment_nonce(who, max).0.nonces, other) >= nonce_of(state.nonces, other),
        other != who ==> nonce_of(state.increment_nonce(who, max).0.nonces, other) == nonce_of(
            state.nonces,
            other,
        ),
{
}

/// The system pallet.
#[derive(Debug)]
pub struct Pallet<T: Config> {
    /// The number of the last executed block.
    pub block_number: T::BlockNumber,
    /// The nonce of each account that has submitted an extrinsic.
    pub nonce: StorageMap<T::AccountId, T::Nonce>,
}

impl<T: Config> View for Pallet<T> {
    type V = State<<T::AccountId as View>::V>;

    open spec fn view(&self) -> Self::V {
        State {
            block_number: self.block_number.count(),
            nonces: self.nonce@.map_values(|n: T::Nonce| n.count()),
        }
    }
}

impl<T: Config> Pallet<T> {
    /// Creates the pallet before the first block: block number 0 and no
    /// nonce.
    pub fn new() -> (pallet: Self)
        ensures
            pallet@.block_number == 0,
            pallet@.nonces == Map::<<T::AccountId as View>::V, nat>::empty(),
    {
        Self { block_number: T::BlockNumber::zero(), nonce: StorageMap::new() }
    }

    /// Counts one more block. Fails with `Overflow`, and changes nothing,
    /// where the next number does not fit in the block number type.
    pub fn increment_block_number(&mut self) -> (result: DispatchResult)
        ensures
            (final(self)@, result) == old(self)@.increment_block_number(
                T::BlockNumber::max_count(),
            ),
    {
        match self.block_number.checked_add(&T::BlockNumber::one()) {
            Some(next) => {
                self.block_number = next;
                Ok(())
            },
            None => Err(DispatchError::Overflow),
        }
    }

    /// Counts one more extrinsic of `from`. Fails with `Overflow`, and
    /// changes nothing, where the next nonce does not fit in the nonce type.
    pub fn increment_nonce(&mut self, from: T::AccountId) -> (result: DispatchResult)
        ensures
            (final(self)@, result) == old(self)@.increment_nonce(from@, T::Nonce::max_count()),
    {
        let current = self.get_nonce(&from);
        match current.checked_add(&T::Nonce::one()) {
            Some(next) => {
                self.nonce.insert(from, next);
                assert(final(self)@.nonces =~= old(self)@.nonces.insert(from@, next.count()));
                Ok(())
            },
            None => Err(DispatchError::Overflow),
        }
    }

    /// The number of the last executed block.
    pub fn get_block_number(&self) -> (number: T::BlockNumber)
        ensures
            number == self.block_number,
            number.count() == self@.block_number,
    {
        self.block_number
    }

    /// The nonce of `from`: 0 for an account that has not submitted an
    /// extrinsic.
    pub fn get_nonce(&self, from: &T::AccountId) -> (nonce: T::Nonce)
        ensures
            nonce.count() == nonce_of(self@.nonces, from@),
    {
        match self.nonce.get(from) {
            Some(nonce) => *nonce,
            None => T::Nonce::zero(),
        }
    }
}

} // verus!
