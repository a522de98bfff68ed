use state_machine::balances;
use state_machine::proof_of_existance;
use state_machine::support::{self, BlockError, Dispatch, DispatchError};
use state_machine::types;
use state_machine::{Runtime, RuntimeCall};

fn transfer(from: &str, to: &str, amount: u128) -> types::Extrinsic {
    support::Extrinsic {
        caller: from.to_string(),
        call: RuntimeCall::Balances(balances::Call::Transfer { to: to.to_string(), amount }),
    }
}

fn create_claim(caller: &str, claim: &str) -> types::Extrinsic {
    support::Extrinsic {
        caller: caller.to_string(),
        call: RuntimeCall::ProofOfExistence(proof_of_existance::Call::CreateClaim {
            claim: claim.to_string(),
        }),
    }
}

fn revoke_claim(caller: &str, claim: &str) -> types::Extrinsic {
    support::Extrinsic {
        caller: caller.to_string(),
        call: RuntimeCall::ProofOfExistence(proof_of_existance::Call::RevokeClaim {
            claim: claim.to_string(),
        }),
    }
}

fn block(number: u32, extrinsics: Vec<types::Extrinsic>) -> types::Block {
    support::Block { header: support::Header { block_number: number }, extrinsics }
}

fn genesis() -> Runtime {
    let mut runtime = Runtime::new();
    runtime.balances.set_balances(&"Alice".to_string(), 10000).unwrap();
    runtime
}

fn balance(runtime: &Runtime, who: &str) -> u128 {
    runtime.balances.get_balance(&who.to_string())
}

fn nonce(runtime: &Runtime, who: &str) -> u32 {
    runtime.system.get_nonce(&who.to_string())
}

#[test]
fn new_runtime_is_empty() {
    let runtime = Runtime::new();
    assert_eq!(runtime.system.get_block_number(), 0);
    assert!(runtime.system.nonce.is_empty());
    assert!(runtime.balances.balances.is_empty());
    assert!(runtime.proof_of_existence.claims.is_empty());
}

#[test]
fn block_of_two_transfers() {
    let mut runtime = genesis();
    assert_eq!(nonce(&runtime, "Alice"), 0);
    assert_eq!(runtime.system.get_block_number(), 0);

    let result = runtime
        .execute_block(block(1, vec![transfer("Alice", "Bob", 1000), transfer("Alice", "Charlie", 1000)]));

    assert_eq!(result, Ok(()));
    assert_eq!(balance(&runtime, "Alice"), 8000);
    assert_eq!(balance(&runtime, "Bob"), 1000);
    assert_eq!(balance(&runtime, "Charlie"), 1000);
    assert_eq!(nonce(&runtime, "Alice"), 2);
    assert_eq!(runtime.system.get_block_number(), 1);
}

#[test]
fn block_with_a_failing_transfer() {
    let mut runtime = genesis();

    let result = runtime
        .execute_block(block(1, vec![transfer("Alice", "Bob", 9000), transfer("Alice", "Charlie", 2000)]));

    assert_eq!(result, Ok(()));
    assert_eq!(balance(&runtime, "Alice"), 1000);
    assert_eq!(balance(&runtime, "Bob"), 9000);
    assert_eq!(balance(&runtime, "Charlie"), 0);
    assert_eq!(nonce(&runtime, "Alice"), 2);
    assert_eq!(runtime.system.get_block_number(), 1);
}

#[test]
fn failures_are_reported_with_block_and_index() {
    let mut runtime = genesis();

    let report = runtime.apply_block(block(
        1,
        vec![
            transfer("Alice", "Bob", 9000),
            transfer("Alice", "Charlie", 2000),
            create_claim("Bob", "deed"),
            create_claim("Alice", "deed"),
            revoke_claim("Alice", "deed"),
            revoke_claim("Alice", "will"),
            transfer("Bob", "Alice", 500),
        ],
    ));

    let failure = |index: usize, error: DispatchError| support::ExtrinsicFailure {
        block_number: 1u32,
        index,
        error,
    };
    assert_eq!(
        report,
        Ok(vec![
            failure(1, DispatchError::InsufficientBalance),
            failure(3, DispatchError::ClaimAlreadyExists),
            failure(4, DispatchError::NotClaimOwner),
            failure(5, DispatchError::ClaimNotFound),
        ])
    );
    assert_eq!(balance(&runtime, "Alice"), 1500);
    assert_eq!(balance(&runtime, "Bob"), 8500);
    assert_eq!(balance(&runtime, "Charlie"), 0);
    assert_eq!(nonce(&runtime, "Alice"), 5);
    assert_eq!(nonce(&runtime, "Bob"), 2);
    assert_eq!(nonce(&runtime, "Charlie"), 0);
    assert_eq!(runtime.proof_of_existence.get_claim(&"deed".to_string()), Some(&"Bob".to_string()));
    assert_eq!(runtime.proof_of_existence.get_claim(&"will".to_string()), None);
}

#[test]
fn block_with_the_wrong_number_changes_nothing() {
    let mut runtime = genesis();

    for number in [0u32, 2, 7, u32::MAX] {
        let result = runtime.execute_block(block(number, vec![transfer("Alice", "Bob", 1000)]));
        assert_eq!(result, Err(BlockError::NumberMismatch));
        assert_eq!(runtime.system.get_block_number(), 0);
        assert_eq!(nonce(&runtime, "Alice"), 0);
        assert_eq!(balance(&runtime, "Alice"), 10000);
        assert_eq!(balance(&runtime, "Bob"), 0);
    }
    assert_eq!(
        runtime.apply_block(block(3, vec![create_claim("Alice", "deed")])),
        Err(BlockError::NumberMismatch)
    );
    assert!(runtime.proof_of_existence.claims.is_empty());
    assert_eq!(BlockError::NumberMismatch.message(), "Block number mismatch");

    assert_eq!(runtime.execute_block(block(1, vec![transfer("Alice", "Bob", 1000)])), Ok(()));
    assert_eq!(runtime.system.get_block_number(), 1);
    assert_eq!(balance(&runtime, "Bob"), 1000);
}

#[test]
fn blocks_are_numbered_in_sequence() {
    let mut runtime = genesis();
    assert_eq!(runtime.execute_block(block(1, vec![])), Ok(()));
    assert_eq!(runtime.execute_block(block(1, vec![])), Err(BlockError::NumberMismatch));
    assert_eq!(runtime.execute_block(block(3, vec![])), Err(BlockError::NumberMismatch));
    assert_eq!(runtime.execute_block(block(2, vec![])), Ok(()));
    assert_eq!(runtime.execute_block(block(3, vec![])), Ok(()));
    assert_eq!(runtime.system.get_block_number(), 3);
}

#[test]
fn no_block_follows_the_last_number() {
    let mut runtime = genesis();
    runtime.system.block_number = u32::MAX - 1;
    assert_eq!(runtime.execute_block(block(u32::MAX, vec![])), Ok(()));
    assert_eq!(runtime.system.get_block_number(), u32::MAX);
    assert_eq!(runtime.execute_block(block(0, vec![])), Err(BlockError::NumberMismatch));
    assert_eq!(runtime.execute_block(block(u32::MAX, vec![])), Err(BlockError::NumberMismatch));
    assert_eq!(runtime.system.get_block_number(), u32::MAX);
}

#[test]
fn nonce_grows_by_the_number_of_extrinsics() {
    let mut runtime = genesis();
    runtime.system.nonce.insert("Alice".to_string(), 40);
    let extrinsics = vec![
        transfer("Alice", "Bob", 1),
        transfer("Bob", "Alice", 5),
        transfer("Alice", "Bob", 20000),
        create_claim("Alice", "deed"),
        transfer("Charlie", "Alice", 0),
        revoke_claim("Bob", "deed"),
    ];
    assert_eq!(runtime.execute_block(block(1, extrinsics)), Ok(()));
    assert_eq!(nonce(&runtime, "Alice"), 43);
    assert_eq!(nonce(&runtime, "Bob"), 2);
    assert_eq!(nonce(&runtime, "Charlie"), 1);
    assert_eq!(nonce(&runtime, "Dave"), 0);
}

#[test]
fn extrinsic_with_a_full_nonce_is_reported_and_still_dispatched() {
    let mut runtime = genesis();
    runtime.system.nonce.insert("Alice".to_string(), u32::MAX);

    let report = runtime.apply_block(block(1, vec![transfer("Alice", "Bob", 100)]));

    assert_eq!(
        report,
        Ok(vec![support::ExtrinsicFailure {
            block_number: 1u32,
            index: 0,
            error: DispatchError::Overflow,
        }])
    );
    assert_eq!(nonce(&runtime, "Alice"), u32::MAX);
    assert_eq!(balance(&runtime, "Alice"), 9900);
    assert_eq!(balance(&runtime, "Bob"), 100);
}

#[test]
fn blocks_conserve_the_total() {
    let mut runtime = genesis();
    runtime.balances.set_balances(&"Bob".to_string(), 500).unwrap();
    let total = |r: &Runtime| -> u128 {
        ["Alice", "Bob", "Charlie", "Dave"].iter().map(|who| balance(r, who)).sum()
    };
    assert_eq!(total(&runtime), 10500);
    let extrinsics = vec![
        transfer("Alice", "Bob", 2500),
        transfer("Bob", "Charlie", 3000),
        transfer("Charlie", "Dave", 3001),
        transfer("Charlie", "Charlie", 10),
        transfer("Dave", "Alice", 1),
        transfer("Charlie", "Dave", 1234),
    ];
    assert_eq!(runtime.execute_block(block(1, extrinsics)), Ok(()));
    assert_eq!(balance(&runtime, "Alice"), 7500);
    assert_eq!(balance(&runtime, "Bob"), 0);
    assert_eq!(balance(&runtime, "Charlie"), 1766);
    assert_eq!(balance(&runtime, "Dave"), 1234);
    assert_eq!(total(&runtime), 10500);
}

#[test]
fn dispatch_routes_each_call_to_its_pallet() {
    let mut runtime = genesis();
    let alice = "Alice".to_string();

    let call = RuntimeCall::Balances(balances::Call::Transfer { to: "Bob".to_string(), amount: 1 });
    assert_eq!(runtime.dispatch(alice.clone(), call), Ok(()));
    assert_eq!(balance(&runtime, "Bob"), 1);
    assert!(runtime.proof_of_existence.claims.is_empty());

    let call = RuntimeCall::ProofOfExistence(proof_of_existance::Call::CreateClaim {
        claim: "deed".to_string(),
    });
    assert_eq!(runtime.dispatch(alice.clone(), call), Ok(()));
    assert_eq!(runtime.proof_of_existence.get_claim(&"deed".to_string()), Some(&alice));
    assert_eq!(balance(&runtime, "Alice"), 9999);

    let call = RuntimeCall::ProofOfExistence(proof_of_existance::Call::RevokeClaim {
        claim: "deed".to_string(),
    });
    assert_eq!(runtime.dispatch("Bob".to_string(), call), Err(DispatchError::NotClaimOwner));
    let call = RuntimeCall::Balances(balances::Call::Transfer {
        to: "Bob".to_string(),
        amount: u128::MAX,
    });
    assert_eq!(runtime.dispatch(alice.clone(), call), Err(DispatchError::InsufficientBalance));

    assert_eq!(nonce(&runtime, "Alice"), 0);
    assert_eq!(runtime.system.get_block_number(), 0);
}

#[test]
fn messages_of_the_errors() {
    assert_eq!(DispatchError::InsufficientBalance.message(), "Insufficient Balance");
    assert_eq!(DispatchError::Overflow.message(), "Overflow");
    assert_eq!(DispatchError::ClaimAlreadyExists.message(), "Claim already exists");
    assert_eq!(DispatchError::NotClaimOwner.message(), "Caller is not the owner of the claim");
    assert_eq!(DispatchError::ClaimNotFound.message(), "Claim does not exist");
}
