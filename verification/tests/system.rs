use state_machine::support::DispatchError;
use state_machine::system::{Config, Pallet};

struct TestConfig;

impl Config for TestConfig {
    type BlockNumber = u32;
    type AccountId = String;
    type Nonce = u32;
}

#[test]
fn test_creation_new_system() {
    let pallet: Pallet<TestConfig> = Pallet::new();
    assert_eq!(pallet.block_number, 0);
    assert!(pallet.nonce.is_empty());
}

#[test]
fn test_increment_block_number() {
    let mut pallet: Pallet<TestConfig> = Pallet::new();
    assert_eq!(pallet.block_number, 0);
    pallet.increment_block_number().unwrap();
    assert_eq!(pallet.block_number, 1);
}

#[test]
fn test_increment_nonce() {
    let mut pallet: Pallet<TestConfig> = Pallet::new();
    let user = String::from("user1");
    assert_eq!(*pallet.nonce.get(&user).unwrap_or(&0), 0);
    pallet.increment_nonce(user.clone()).unwrap();
    assert_eq!(*pallet.nonce.get(&user).unwrap_or(&0), 1);
}

#[test]
fn test_increment_nonce_overflow() {
    let mut pallet: Pallet<TestConfig> = Pallet::new();
    let user = String::from("user1");
    pallet.nonce.insert(user.clone(), u32::MAX);
    let result = pallet.increment_nonce(user.clone());
    assert!(result.is_err());
    assert_eq!(result.unwrap_err().message(), "Overflow");
}

#[test]
fn test_get_block_number() {
    let mut pallet: Pallet<TestConfig> = Pallet::new();
    assert_eq!(pallet.get_block_number(), 0);
    pallet.increment_block_number().unwrap();
    assert_eq!(pallet.get_block_number(), 1);
}

#[test]
fn test_get_nonce() {
    let mut pallet: Pallet<TestConfig> = Pallet::new();
    let user = String::from("user1");
    assert_eq!(pallet.get_nonce(&user), 0);
    pallet.increment_nonce(user.clone()).unwrap();
    assert_eq!(pallet.get_nonce(&user), 1);
}

#[test]
fn nonce_overflow_leaves_the_nonce() {
    let mut pallet: Pallet<TestConfig> = Pallet::new();
    let user = String::from("user1");
    pallet.nonce.insert(user.clone(), u32::MAX - 1);
    assert_eq!(pallet.increment_nonce(user.clone()), Ok(()));
    assert_eq!(pallet.get_nonce(&user), u32::MAX);
    assert_eq!(pallet.increment_nonce(user.clone()), Err(DispatchError::Overflow));
    assert_eq!(pallet.get_nonce(&user), u32::MAX);
    assert_eq!(pallet.get_block_number(), 0);
}

#[test]
fn block_number_overflow_leaves_the_number() {
    let mut pallet: Pallet<TestConfig> = Pallet::new();
    pallet.block_number = u32::MAX - 1;
    assert_eq!(pallet.increment_block_number(), Ok(()));
    assert_eq!(pallet.get_block_number(), u32::MAX);
    assert_eq!(pallet.increment_block_number(), Err(DispatchError::Overflow));
    assert_eq!(pallet.get_block_number(), u32::MAX);
}

#[test]
fn nonces_of_accounts_are_independent() {
    let mut pallet: Pallet<TestConfig> = Pallet::new();
    let alice = String::from("alice");
    let bob = String::from("bob");
    for _ in 0..3 {
        pallet.increment_nonce(alice.clone()).unwrap();
    }
    pallet.increment_nonce(bob.clone()).unwrap();
    assert_eq!(pallet.get_nonce(&alice), 3);
    assert_eq!(pallet.get_nonce(&bob), 1);
    assert_eq!(pallet.get_nonce(&String::from("carol")), 0);
    assert_eq!(pallet.get_block_number(), 0);
}
