//! The concrete types of the runtime.

use crate::runtime::RuntimeCall;
use crate::support;
use vstd::prelude::*;

verus! {

/// Accounts are identified by name.
pub type AccountId = String;

/// Blocks are numbered with 32 bits.
pub type BlockNumber = u32;

/// Extrinsics of an account are counted with 32 bits.
pub type Nonce = u32;

/// Funds are measured with 128 bits.
pub type Balance = u128;

/// Content is claimed by its text.
pub type Content = String;

/// An extrinsic of the runtime.
pub type Extrinsic = support::Extrinsic<AccountId, RuntimeCall>;

/// The header of a block of the runtime.
pub type Header = support::Header<BlockNumber>;

/// A block of the runtime.
pub type Block = support::Block<Header, Extrinsic>;

/// The record of an extrinsic of the runtime that failed.
pub type ExtrinsicFailure = support::ExtrinsicFailure<BlockNumber>;

} // verus!
