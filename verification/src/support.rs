//! What the pallets and the runtime share: the shape of a block, the failures
//! an operation can end in, and the capability to dispatch a call.

use vstd::prelude::*;

verus! {

/// Why a pallet refused an operation. The state is left as it was.
#[derive(Debug, Clone, Copy, PartialEq, Eq, Structural)]
pub enum DispatchError {
    /// The sender's balance is smaller than the amount to transfer.
    InsufficientBalance,
    /// The result of an addition does not fit in its number type.
    Overflow,
    /// The content has been claimed already.
    ClaimAlreadyExists,
    /// The claim belongs to another account than the caller.
    NotClaimOwner,
    /// Nobody has claimed the content.
    ClaimNotFound,
}

impl DispatchError {
    /// The text of the message, as a sequence of characters.
    pub open spec fn text(self) -> Seq<char> {
        match self {
            DispatchError::InsufficientBalance => "Insufficient Balance"@,
            DispatchError::Overflow => "Overflow"@,
            DispatchError::ClaimAlreadyExists => "Claim already exists"@,
            DispatchError::NotClaimOwner => "Caller is not the owner of the claim"@,
            DispatchError::ClaimNotFound => "Claim does not exist"@,
        }
    }

    /// A message for the operator.
    pub fn message(&self) -> (message: String)
        ensures
            message@ == self.text(),
    {
        match self {
            DispatchError::InsufficientBalance => "Insufficient Balance".to_string(),
            DispatchError::Overflow => "Overflow".to_string(),
            DispatchError::ClaimAlreadyExists => "Claim already exists".to_string(),
            DispatchError::NotClaimOwner => "Caller is not the owner of the claim".to_string(),
            DispatchError::ClaimNotFound => "Claim does not exist".to_string(),
        }
    }
}

/// How an operation of a pallet ends.
pub type DispatchResult = Result<(), DispatchError>;

/// Why a whole block was rejected. No extrinsic of it was applied.
#[derive(Debug, Clone, Copy, PartialEq, Eq, Structural)]
pub enum BlockError {
    /// The header does not carry the number that follows the last executed
    /// block's.
    NumberMismatch,
}

impl BlockError {
    /// The text of the message, as a sequence of characters.
    pub open spec fn text(self) -> Seq<char> {
        "Block number mismatch"@
    }

    /// A message for the operator.
    pub fn message(&self) -> (message: String)
        ensures
            message@ == self.text(),
    {
        "Block number mismatch".to_string()
    }
}

/// The header of a block.
#[derive(Debug)]
pub struct Header<BlockNumber> {
    /// The number that the block claims for itself.
    pub block_number: BlockNumber,
}

/// An operation that a caller asks the runtime to perform.
#[derive(Debug)]
pub struct Extrinsic<Caller, Call> {
    /// Who asks.
    pub caller: Caller,
    /// What is asked for.
    pub call: Call,
}

/// A header and the extrinsics to apply, in order.
#[derive(Debug)]
pub struct Block<Header, Extrinsic> {
    pub header: Header,
    pub extrinsics: Vec<Extrinsic>,
}

/// The record of an extrinsic that failed while its block went on.
#[derive(Debug, Clone, PartialEq, Eq)]
pub struct ExtrinsicFailure<BlockNumber> {
    /// The number of the block that held the extrinsic.
    pub block_number: BlockNumber,
    /// The position of the extrinsic in its block.
    pub index: usize,
    /// Why the operation was refused.
    pub error: DispatchError,
}

/// The capability to perform a call on behalf of a caller.
///
/// An implementation routes the call to the one operation that it names and
/// hands that operation's result back.
pub trait Dispatch {
    /// Who may ask for a call.
    type Caller;

    /// The calls that can be asked for.
    type Call;

    /// Performs `call` on behalf of `caller`.
    fn dispatch(&mut self, caller: Self::Caller, call: Self::Call) -> DispatchResult;
}

} // verus!
