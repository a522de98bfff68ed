//! The proof of existence pallet: accounts claim content, and each content
//! has at most one owner at a time.

use crate::storage::{Key, StorageMap};
use crate::support::{Dispatch, DispatchError, DispatchResult};
use vstd::prelude::*;

verus! {

/// The types of the proof of existence pallet: those of the system pallet
/// and the type of what can be claimed.
pub trait Config: crate::system::Config {
    /// The content that can be claimed: the content itself as bytes, or
    /// better a hash of it.
    type Content: Key;
}

/// The claims after an attempt of `caller` to claim `claim`, and how the
/// attempt ends.
pub open spec fn create_outcome<C, A>(claims: Map<C, A>, caller: A, claim: C) -> (
    Map<C, A>,
    DispatchResult,
) {
    if claims.contains_key(claim) {
        (claims, Err(DispatchError::ClaimAlreadyExists))
    } else {
        (claims.insert(claim, caller), Ok(()))
    }
}

/// The claims after an attempt of `caller` to give up `claim`, and how the
/// attempt ends.
pub open spec fn revoke_outcome<C, A>(claims: Map<C, A>, caller: A, claim: C) -> (
    Map<C, A>,
    DispatchResult,
) {
    if !claims.contains_key(claim) {
        (claims, Err(DispatchError::ClaimNotFound))
    } else if claims[claim] != caller {
        (claims, Err(DispatchError::NotClaimOwner))
    } else {
        (claims.remove(claim), Ok(()))
    }
}

/// Claiming content that nobody owns and revoking the claim as the same
/// account both succeed and leave the claims as they were.
pub proof fn lemma_create_then_revoke_restores<C, A>(claims: Map<C, A>, owner: A, claim: C)
    requires
        !claims.contains_key(claim),
    ensures
        create_outcome(claims, owner, claim).1 is Ok,
        revoke_outcome(create_outcome(claims, owner, claim).0, owner, claim) == (
            claims,
            Ok::<(), DispatchError>(()),
        ),
{
}

/// An account that does not own a claim cannot revoke it: the attempt fails
/// with `NotClaimOwner` and the claim stays with its owner.
pub proof fn lemma_revoke_by_other_fails<C, A>(claims: Map<C, A>, owner: A, other: A, claim: C)
    requires
        claims.contains_key(claim),
        claims[claim] == owner,
        other != owner,
    ensures
        revoke_outcome(claims, other, claim) == (
            claims,
            Err::<(), DispatchError>(DispatchError::NotClaimOwner),
        ),
{
}

/// The proof of existence pallet.
#[derive(Debug)]
pub struct Pallet<T: Config> {
    /// The owner of each claimed content.
    pub claims: StorageMap<T::Content, T::AccountId>,
}

/// The operations of the proof of existence pallet that an extrinsic can
/// ask for.
#[derive(Debug)]
pub enum Call<T: Config> {
    /// Claim `claim` for the caller.
    CreateClaim { claim: T::Content },
    /// Give up the caller's claim on `claim`.
    RevokeClaim { claim: T::Content },
}

impl<T: Config> View for Pallet<T> {
    type V = Map<<T::Content as View>::V, <T::AccountId as View>::V>;

    open spec fn view(&self) -> Self::V {
        self.claims@.map_values(|owner: T::AccountId| owner@)
    }
}

impl<T: Config> Pallet<T> {
    /// Creates the pallet with no claim.
    pub fn new() -> (pallet: Self)
        ensures
            pallet@ == Map::<<T::Content as View>::V, <T::AccountId as View>::V>::empty(),
    {
        Self { claims: StorageMap::new() }
    }

    /// The owner of `claim`, if it has one.
    pub fn get_claim(&self, claim: &T::Content) -> (owner: Option<&T::AccountId>)
        ensures
            match owner {
                Some(account) => self@.contains_key(claim@) && account@ == self@[claim@],
                None => !self@.contains_key(claim@),
            },
    {
        self.claims.get(claim)
    }

    /// Claims `claim` for `caller`. Fails with `ClaimAlreadyExists`, and
    /// changes nothing, where the content has an owner.
    pub fn create_claim(&mut self, caller: T::AccountId, claim: T::Content) -> (result:
        DispatchResult)
        ensures
            (final(self)@, result) == create_outcome(old(self)@, caller@, claim@),
    {
        match self.get_claim(&claim) {
            Some(_) => Err(DispatchError::ClaimAlreadyExists),
            None => {
                self.claims.insert(claim, caller);
                Ok(())
            },
        }
    }

    /// Gives up the claim of `caller` on `claim`. Fails with `ClaimNotFound`
    /// where the content has no owner and with `NotClaimOwner` where the
    /// owner is another account; a failed attempt changes nothing.
    pub fn revoke_claim(&mut self, caller: T::AccountId, claim: T::Content) -> (result:
        DispatchResult)
        ensures
            (final(self)@, result) == revoke_outcome(old(self)@, caller@, claim@),
    {
        let owned = match self.get_claim(&claim) {
            Some(owner) => Some(owner.same(&caller)),
            None => None,
        };
        match owned {
            Some(true) => {
                self.claims.remove(&claim);
                Ok(())
            },
            Some(false) => Err(DispatchError::NotClaimOwner),
            None => Err(DispatchError::ClaimNotFound),
        }
    }
}

impl<T: Config> Dispatch for Pallet<T> {
    type Caller = T::AccountId;

    type Call = Call<T>;

    /// Performs the operation that `call` names on behalf of `caller`.
    fn dispatch(&mut self, caller: Self::Caller, call: Self::Call) -> (result: DispatchResult)
        ensures
            match call {
                Call::CreateClaim { claim } => (final(self)@, result) == create_outcome(
                    old(self)@,
                    caller@,
                    claim@,
                ),
                Call::RevokeClaim { claim } => (final(self)@, result) == revoke_outcome(
                    old(self)@,
                    caller@,
                    claim@,
                ),
            },
    {
        match call {
            Call::CreateClaim { claim } => self.create_claim(caller, claim),
            Call::RevokeClaim { claim } => self.revoke_claim(caller, claim),
        }
    }
}

} // verus!
