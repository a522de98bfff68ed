//! The runtime: one instance of each pallet, the routing of calls to the
//! pallet that owns them, and the execution of blocks.

use crate::balances;
use crate::numeric::Counter;
use crate::proof_of_existance;
use crate::support::{BlockError, Dispatch, DispatchResult};
use crate::system;
use crate::types;
use vstd::prelude::*;

verus! {

/// The configuration of the runtime: the one choice of types that all its
/// pallets share.
#[derive(Debug)]
pub struct RuntimeConfig;

impl system::Config for RuntimeConfig {
    type AccountId = types::AccountId;

    type BlockNumber = types::BlockNumber;

    type Nonce = types::Nonce;
}

impl balances::Config for RuntimeConfig {
    type Balance = types::Balance;
}

impl proof_of_existance::Config for RuntimeConfig {
    type Content = types::Content;
}

/// Every operation that an extrinsic can ask the runtime for, each with the
/// arguments of the pallet operation that it names.
#[derive(Debug)]
pub enum RuntimeCall {
    /// An operation of the balances pallet.
    Balances(balances::Call<RuntimeConfig>),
    /// An operation of the proof of existence pallet.
    ProofOfExistence(proof_of_existance::Call<RuntimeConfig>),
}

/// What the runtime holds, as mathematics. Accounts and content are the
/// character sequences of their names.
pub struct State {
    /// The block number and the nonces.
    pub system: system::State<Seq<char>>,
    /// The balance of each account that has one.
    pub balances: Map<Seq<char>, nat>,
    /// The owner of each claimed content.
    pub claims: Map<Seq<char>, Seq<char>>,
}

/// The largest block number and the largest nonce.
pub open spec fn max_counter() -> nat {
    u32::MAX as nat
}

/// The largest balance.
pub open spec fn max_balance() -> nat {
    u128::MAX as nat
}

impl State {
    /// The state after `call` was routed to its pallet on behalf of
    /// `caller`, and the result of the pallet's operation.
    pub open spec fn dispatch(self, caller: Seq<char>, call: RuntimeCall) -> (State, DispatchResult) {
        match call {
            RuntimeCall::Balances(balances::Call::Transfer { to, amount }) => {
                let (ledger, result) = balances::transfer_outcome(
                    self.balances,
                    caller,
                    to@,
                    amount as nat,
                    max_balance(),
                );
                (State { balances: ledger, ..self }, result)
            },
            RuntimeCall::ProofOfExistence(proof_of_existance::Call::CreateClaim { claim }) => {
                let (claims, result) = proof_of_existance::create_outcome(
                    self.claims,
                    caller,
                    claim@,
                );
                (State { claims, ..self }, result)
            },
            RuntimeCall::ProofOfExistence(proof_of_existance::Call::RevokeClaim { claim }) => {
                let (claims, result) = proof_of_existance::revoke_outcome(
                    self.claims,
                    caller,
                    claim@,
                );
                (State { claims, ..self }, result)
            },
        }
    }

    /// The state after the caller's nonce was counted up, which happens
    /// whether or not the call then succeeds.
    pub open spec fn count_extrinsic(self, caller: Seq<char>) -> State {
        State { system: self.system.increment_nonce(caller, max_counter()).0, ..self }
    }

    /// The state after one extrinsic: the caller's nonce is counted up, then
    /// the call is dispatched.
    pub open spec fn apply_extrinsic(self, extrinsic: types::Extrinsic) -> State {
        self.count_extrinsic(extrinsic.caller@).dispatch(extrinsic.caller@, extrinsic.call).0
    }

    /// What one extrinsic, at position `index` of block `block_number`,
    /// leaves on record: the failure to count it, if its nonce is full, and
    /// the failure of its call, if it failed.
    pub open spec fn extrinsic_failures(
        self,
        extrinsic: types::Extrinsic,
        block_number: u32,
        index: usize,
    ) -> Seq<types::ExtrinsicFailure> {
        let counting = self.system.increment_nonce(extrinsic.caller@, max_counter()).1;
        let calling = self.count_extrinsic(extrinsic.caller@).dispatch(
            extrinsic.caller@,
            extrinsic.call,
        ).1;
        failure_record(counting, block_number, index) + failure_record(calling, block_number, index)
    }

    /// The state after the extrinsics were applied one after the other, in
    /// their order.
    pub open spec fn apply_extrinsics(self, extrinsics: Seq<types::Extrinsic>) -> State
        decreases extrinsics.len(),
    {
        if extrinsics.len() == 0 {
            self
        } else {
            self.apply_extrinsics(extrinsics.drop_last()).apply_extrinsic(extrinsics.last())
        }
    }

    /// The failures on record after the extrinsics of block `block_number`
    /// were applied, in the order in which they happened.
    pub open spec fn failures(self, extrinsics: Seq<types::Extrinsic>, block_number: u32) -> Seq<
        types::ExtrinsicFailure,
    >
        decreases extrinsics.len(),
    {
        if extrinsics.len() == 0 {
            Seq::empty()
        } else {
            let before = extrinsics.drop_last();
            self.failures(before, block_number) + self.apply_extrinsics(before).extrinsic_failures(
                extrinsics.last(),
                block_number,
                before.len() as usize,
            )
        }
    }

    /// Whether a block with `number` in its header is the next one.
    pub open spec fn accepts(self, number: u32) -> bool {
        number == self.system.block_number + 1
    }

    /// The state with the block number counted up by one.
    pub open spec fn count_block(self) -> State {
        State {
            system: system::State {
                block_number: self.system.block_number + 1,
                nonces: self.system.nonces,
            },
            ..self
        }
    }

    /// The state after `block` was executed: unchanged where the block is
    /// not the next one, else with the block counted and all its extrinsics
    /// applied.
    pub open spec fn execute_block(self, block: types::Block) -> State {
        if self.accepts(block.header.block_number) {
            self.count_block().apply_extrinsics(block.extrinsics@)
        } else {
            self
        }
    }
}

/// The record that a result leaves for the extrinsic at `index` of block
/// `block_number`: nothing for a success, one entry for a failure.
pub open spec fn failure_record(result: DispatchResult, block_number: u32, index: usize) -> Seq<
    types::ExtrinsicFailure,
> {
    match result {
        Ok(()) => Seq::empty(),
        Err(error) => seq![(types::ExtrinsicFailure { block_number, index, error })],
    }
}

/// The number of extrinsics among `extrinsics` that `who` submitted.
pub open spec fn submitted_by(extrinsics: Seq<types::Extrinsic>, who: Seq<char>) -> nat
    decreases extrinsics.len(),
{
    if extrinsics.len() == 0 {
        0
    } else {
        let earlier = submitted_by(extrinsics.drop_last(), who);
        if extrinsics.last().caller@ == who {
            earlier + 1
        } else {
            earlier
        }
    }
}

/// A dispatched call changes the state of the one pallet that owns the
/// operation and of no other, and never the block number or a nonce.
pub proof fn lemma_dispatch_touches_one_pallet(state: State, caller: Seq<char>, call: RuntimeCall)
    ensures
        state.dispatch(caller, call).0.system == state.system,
        call is Balances ==> state.dispatch(caller, call).0.claims == state.claims,
        call is ProofOfExistence ==> state.dispatch(caller, call).0.balances == state.balances,
{
}

/// A call that fails changes nothing at all.
pub proof fn lemma_failed_call_changes_nothing(state: State, caller: Seq<char>, call: RuntimeCall)
    requires
        state.dispatch(caller, call).1 is Err,
    ensures
        state.dispatch(caller, call).0 == state,
{
}

/// Applying extrinsics never changes the block number.
pub proof fn lemma_extrinsics_keep_block_number(state: State, extrinsics: Seq<types::Extrinsic>)
    ensures
        state.apply_extrinsics(extrinsics).system.block_number == state.system.block_number,
    decreases extrinsics.len(),
{
    if extrinsics.len() > 0 {
        lemma_extrinsics_keep_block_number(state, extrinsics.drop_last());
    }
}

/// After a sequence of extrinsics, the nonce of an account has grown by the
/// number of extrinsics that the account submitted, whether their calls
/// succeeded or failed, as long as that number fits in a nonce.
pub proof fn lemma_extrinsics_count_nonces(
    state: State,
    extrinsics: Seq<types::Extrinsic>,
    who: Seq<char>,
)
    requires
        system::nonce_of(state.system.nonces, who) + submitted_by(extrinsics, who) <= max_counter(),
    ensures
        system::nonce_of(state.apply_extrinsics(extrinsics).system.nonces, who) == system::nonce_of(
            state.system.nonces,
            who,
        ) + submitted_by(extrinsics, who),
    decreases extrinsics.len(),
{
    if extrinsics.len() > 0 {
        lemma_extrinsics_count_nonces(state, extrinsics.drop_last(), who);
    }
}

/// Conservation: after a sequence of extrinsics, whichever of them
/// succeeded, the sum of all balances is what it was.
pub proof fn lemma_extrinsics_conserve_total(state: State, extrinsics: Seq<types::Extrinsic>)
    requires
        state.balances.dom().finite(),
    ensures
        state.apply_extrinsics(extrinsics).balances.dom().finite(),
        balances::total_issuance(state.apply_extrinsics(extrinsics).balances)
            == balances::total_issuance(state.balances),
    decreases extrinsics.len(),
{
    if extrinsics.len() > 0 {
        lemma_extrinsics_conserve_total(state, extrinsics.drop_last());
        let before = state.apply_extrinsics(extrinsics.drop_last());
        let last = extrinsics.last();
        match last.call {
            RuntimeCall::Balances(balances::Call::Transfer { to, amount }) => {
                balances::lemma_transfer_conserves_total(
                    before.balances,
                    last.caller@,
                    to@,
                    amount as nat,
                    max_balance(),
                );
            },
            RuntimeCall::ProofOfExistence(_) => {},
        }
    }
}

/// A block that is not the next one changes nothing.
pub proof fn lemma_rejected_block_changes_nothing(state: State, block: types::Block)
    requires
        block.header.block_number != state.system.block_number + 1,
    ensures
        state.execute_block(block) == state,
{
}

/// What executing a block does to the counters and to the funds: an
/// accepted block raises the block number by exactly one and the nonce of
/// each account by the number of extrinsics that the account submitted in it
/// (as long as that fits in a nonce), a rejected block raises neither, and
/// no block changes the sum of all balances.
pub proof fn lemma_block_execution(state: State, block: types::Block, who: Seq<char>)
    requires
        state.balances.dom().finite(),
    ensures
        state.execute_block(block).system.block_number == if state.accepts(
            block.header.block_number,
        ) {
            state.system.block_number + 1
        } else {
            state.system.block_number
        },
        system::nonce_of(state.system.nonces, who) + submitted_by(block.extrinsics@, who)
            <= max_counter() ==> system::nonce_of(state.execute_block(block).system.nonces, who)
            == system::nonce_of(state.system.nonces, who) + if state.accepts(
            block.header.block_number,
        ) {
            submitted_by(block.extrinsics@, who)
        } else {
            0
        },
        state.execute_block(block).balances.dom().finite(),
        balances::total_issuance(state.execute_block(block).balances) == balances::total_issuance(
            state.balances,
        ),
{
    if state.accepts(block.header.block_number) {
        let counted = state.count_block();
        lemma_extrinsics_keep_block_number(counted, block.extrinsics@);
        lemma_extrinsics_conserve_total(counted, block.extrinsics@);
        if system::nonce_of(state.system.nonces, who) + submitted_by(block.extrinsics@, who)
            <= max_counter() {
            lemma_extrinsics_count_nonces(counted, block.extrinsics@, who);
        }
    }
}

/// The runtime: the state of every pallet.
#[derive(Debug)]
pub struct Runtime {
    pub system: system::Pallet<RuntimeConfig>,
    pub balances: balances::Pallet<RuntimeConfig>,
    pub proof_of_existence: proof_of_existance::Pallet<RuntimeConfig>,
}

impl View for Runtime {
    type V = State;

    open spec fn view(&self) -> State {
        State { system: self.system@, balances: self.balances@, claims: self.proof_of_existence@ }
    }
}

impl Runtime {
    /// Creates the runtime before the first block: block number 0, no
    /// nonce, no balance and no claim.
    pub fn new() -> (runtime: Self)
        ensures
            runtime@.system.block_number == 0,
            runtime@.system.nonces == Map::<Seq<char>, nat>::empty(),
            runtime@.balances == Map::<Seq<char>, nat>::empty(),
            runtime@.claims == Map::<Seq<char>, Seq<char>>::empty(),
    {
        Self {
            system: system::Pallet::new(),
            balances: balances::Pallet::new(),
            proof_of_existence: proof_of_existance::Pallet::new(),
        }
    }

    /// Executes `block` and hands back the failures of its extrinsics.
    ///
    /// A block whose header does not carry the number after the last
    /// executed block's is rejected with `NumberMismatch` and changes
    /// nothing. Otherwise the block is counted and each extrinsic is applied
    /// in order; one that fails is put on record and the next one follows.
    pub fn apply_block(&mut self, block: types::Block) -> (result: Result<
        Vec<types::ExtrinsicFailure>,
        BlockError,
    >)
        ensures
            final(self)@ == old(self)@.execute_block(block),
            match result {
                Ok(failures) => old(self)@.accepts(block.header.block_number) && failures@ == old(
                    self,
                )@.count_block().failures(block.extrinsics@, block.header.block_number),
                Err(error) => !old(self)@.accepts(block.header.block_number) && error
                    == BlockError::NumberMismatch && final(self)@ == old(self)@,
            },
            balances::total_issuance(final(self)@.balances) == balances::total_issuance(
                old(self)@.balances,
            ),
    {
        proof {
            self.balances.lemma_finite();
            lemma_block_execution(self@, block, Seq::empty());
        }
        let number = block.header.block_number;
        let current = self.system.get_block_number();
        let one: types::BlockNumber = Counter::one();
        match Counter::checked_add(&current, &one) {
            Some(next) => {
                if next != number {
                    return Err(BlockError::NumberMismatch);
                }
            },
            None => {
                return Err(BlockError::NumberMismatch);
            },
        }
        let _ = self.system.increment_block_number();
        let ghost start = self@;
        let ghost all = block.extrinsics@;
        let count = block.extrinsics.len();
        let mut failures: Vec<types::ExtrinsicFailure> = Vec::new();
        let mut index: usize = 0;
        for extrinsic in it: block.extrinsics
            invariant
                index == it.index(),
                it.seq() == all,
                all.len() == count,
                self@ == start.apply_extrinsics(all.take(index as int)),
                failures@ == start.failures(all.take(index as int), number),
        {
            proof {
                assert(all.take(index + 1).drop_last() =~= all.take(index as int));
            }
            let types::Extrinsic { caller, call } = extrinsic;
            if let Err(error) = self.system.increment_nonce(caller.clone()) {
                failures.push(types::ExtrinsicFailure { block_number: number, index, error });
            }
            if let Err(error) = self.dispatch(caller, call) {
                failures.push(types::ExtrinsicFailure { block_number: number, index, error });
            }
            index = index + 1;
        }
        assert(all.take(index as int) =~= all);
        Ok(failures)
    }

    /// Executes `block`.
    ///
    /// Succeeds where the header carries the number after the last executed
    /// block's, whatever becomes of the extrinsics; otherwise fails with
    /// `NumberMismatch` and changes nothing.
    pub fn execute_block(&mut self, block: types::Block) -> (result: Result<(), BlockError>)
        ensures
            final(self)@ == old(self)@.execute_block(block),
            result == if old(self)@.accepts(block.header.block_number) {
                Ok::<(), BlockError>(())
            } else {
                Err::<(), BlockError>(BlockError::NumberMismatch)
            },
            result is Err ==> final(self)@ == old(self)@,
            balances::total_issuance(final(self)@.balances) == balances::total_issuance(
                old(self)@.balances,
            ),
    {
        match self.apply_block(block) {
            Ok(_) => Ok(()),
            Err(error) => Err(error),
        }
    }
}

impl Dispatch for Runtime {
    type Caller = types::AccountId;

    type Call = RuntimeCall;

    /// Routes `call` to the pallet that owns the operation and hands back
    /// that operation's result.
    fn dispatch(&mut self, caller: Self::Caller, call: Self::Call) -> (result: DispatchResult)
        ensures
            (final(self)@, result) == old(self)@.dispatch(caller@, call),
    {
        match call {
            RuntimeCall::Balances(call) => self.balances.dispatch(caller, call),
            RuntimeCall::ProofOfExistence(call) => self.proof_of_existence.dispatch(caller, call),
        }
    }
}

} // verus!
