//! The numbers that the pallets count and account with.
//!
//! A pallet is generic over its number types and needs checked arithmetic on
//! them with a known meaning. [`Counter`] and [`Currency`] give each value a
//! natural number to stand for and state the operations over it. The
//! implementations for the primitive unsigned integers take their arithmetic
//! from the `num` crate.

use vstd::prelude::*;

verus! {

/// A number that counts up from zero in steps of one: a block number or a
/// nonce.
pub trait Counter: Copy {
    /// The natural number that the value stands for.
    spec fn count(self) -> nat;

    /// The largest count that the type can hold.
    spec fn max_count() -> nat;

    /// The counter that stands for 0.
    fn zero() -> (z: Self)
        ensures
            z.count() == 0,
    ;

    /// The counter that stands for 1.
    fn one() -> (o: Self)
        ensures
            o.count() == 1,
    ;

    /// The sum of two counters, or `None` where the type cannot hold it.
    fn checked_add(&self, rhs: &Self) -> (sum: Option<Self>)
        ensures
            match sum {
                Some(s) => s.count() == self.count() + rhs.count() && s.count()
                    <= Self::max_count(),
                None => self.count() + rhs.count() > Self::max_count(),
            },
    ;
}

/// An amount of funds.
pub trait Currency: Copy {
    /// The natural number that the value stands for.
    spec fn amount(self) -> nat;

    /// The largest amount that the type can hold.
    spec fn max_amount() -> nat;

    /// The amount that stands for 0.
    fn zero() -> (z: Self)
        ensures
            z.amount() == 0,
    ;

    /// The sum of two amounts, or `None` where the type cannot hold it.
    fn checked_add(&self, rhs: &Self) -> (sum: Option<Self>)
        ensures
            match sum {
                Some(s) => s.amount() == self.amount() + rhs.amount() && s.amount()
                    <= Self::max_amount(),
                None => self.amount() + rhs.amount() > Self::max_amount(),
            },
    ;

    /// The difference of two amounts, or `None` where `rhs` is the larger.
    fn checked_sub(&self, rhs: &Self) -> (difference: Option<Self>)
        ensures
            match difference {
                Some(d) => d.amount() == self.amount() - rhs.amount(),
                None => self.amount() < rhs.amount(),
            },
    ;
}

/// `num::Zero::zero` for `u32`, which returns the number 0.
#[verifier::external_body]
fn zero_u32() -> (z: u32)
    ensures
        z == 0,
{
    num::Zero::zero()
}

/// `num::One::one` for `u32`, which returns the number 1.
#[verifier::external_body]
fn one_u32() -> (o: u32)
    ensures
        o == 1,
{
    num::One::one()
}

/// `num::CheckedAdd::checked_add` for `u32`, which returns the sum of the two
/// numbers where a `u32` can hold it and `None` where it cannot.
#[verifier::external_body]
fn checked_add_u32(a: &u32, b: &u32) -> (sum: Option<u32>)
    ensures
        sum == if *a + *b <= u32::MAX {
            Some((*a + *b) as u32)
        } else {
            None
        },
{
    num::CheckedAdd::checked_add(a, b)
}

/// `num::Zero::zero` for `u64`, which returns the number 0.
#[verifier::external_body]
fn zero_u64() -> (z: u64)
    ensures
        z == 0,
{
    num::Zero::zero()
}

/// `num::CheckedAdd::checked_add` for `u64`, which returns the sum of the two
/// numbers where a `u64` can hold it and `None` where it cannot.
#[verifier::external_body]
fn checked_add_u64(a: &u64, b: &u64) -> (sum: Option<u64>)
    ensures
        sum == if *a + *b <= u64::MAX {
            Some((*a + *b) as u64)
        } else {
            None
        },
{
    num::CheckedAdd::checked_add(a, b)
}

/// `num::CheckedSub::checked_sub` for `u64`, which returns the first number
/// less the second where that is not negative and `None` where it is.
#[verifier::external_body]
fn checked_sub_u64(a: &u64, b: &u64) -> (difference: Option<u64>)
    ensures
        difference == if *a >= *b {
            Some((*a - *b) as u64)
        } else {
            None
        },
{
    num::CheckedSub::checked_sub(a, b)
}

/// `num::Zero::zero` for `u128`, which returns the number 0.
#[verifier::external_body]
fn zero_u128() -> (z: u128)
    ensures
        z == 0,
{
    num::Zero::zero()
}

/// `num::CheckedAdd::checked_add` for `u128`, which returns the sum of the two
/// numbers where a `u128` can hold it and `None` where it cannot.
#[verifier::external_body]
fn checked_add_u128(a: &u128, b: &u128) -> (sum: Option<u128>)
    ensures
        sum == if *a + *b <= u128::MAX {
            Some((*a + *b) as u128)
        } else {
            None
        },
{
    num::CheckedAdd::checked_add(a, b)
}

/// `num::CheckedSub::checked_sub` for `u128`, which returns the first number
/// less the second where that is not negative and `None` where it is.
#[verifier::external_body]
fn checked_sub_u128(a: &u128, b: &u128) -> (difference: Option<u128>)
    ensures
        difference == if *a >= *b {
            Some((*a - *b) as u128)
        } else {
            None
        },
{
    num::CheckedSub::checked_sub(a, b)
}

impl Counter for u32 {
    open spec fn count(self) -> nat {
        self as nat
    }

    open spec fn max_count() -> nat {
        u32::MAX as nat
    }

    fn zero() -> (z: Self) {
        zero_u32()
    }

    fn one() -> (o: Self) {
        one_u32()
    }

    fn checked_add(&self, rhs: &Self) -> (sum: Option<Self>) {
        checked_add_u32(self, rhs)
    }
}

impl Currency for u64 {
    open spec fn amount(self) -> nat {
        self as nat
    }

    open spec fn max_amount() -> nat {
        u64::MAX as nat
    }

    fn zero() -> (z: Self) {
        zero_u64()
    }

    fn checked_add(&self, rhs: &Self) -> (sum: Option<Self>) {
        checked_add_u64(self, rhs)
    }

    fn checked_sub(&self, rhs: &Self) -> (difference: Option<Self>) {
        checked_sub_u64(self, rhs)
    }
}

impl Currency for u128 {
    open spec fn amount(self) -> nat {
        self as nat
    }

    open spec fn max_amount() -> nat {
        u128::MAX as nat
    }

    fn zero() -> (z: Self) {
        zero_u128()
    }

    fn checked_add(&self, rhs: &Self) -> (sum: Option<Self>) {
        checked_add_u128(self, rhs)
    }

    fn checked_sub(&self, rhs: &Self) -> (difference: Option<Self>) {
        checked_sub_u128(self, rhs)
    }
}

} // verus!
