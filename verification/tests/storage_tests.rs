use civicchain::simple_storage::{Error, SimpleStorage};

const ALICE: u64 = 1;
const BOB: u64 = 2;
const BALANCE: u128 = 1_000_000;

#[test]
fn default_works() {
    let contract = SimpleStorage::new(ALICE);
    assert_eq!(contract.get(), 0);
}

#[test]
fn it_works() {
    let mut contract = SimpleStorage::new(ALICE);
    assert_eq!(contract.get(), 0);
    assert_eq!(contract.set(ALICE, BALANCE, 1, 42), Ok(()));
    assert_eq!(contract.get(), 42);
}

#[test]
fn value_too_large_fails() {
    let mut contract = SimpleStorage::new(ALICE);
    assert_eq!(contract.set(ALICE, BALANCE, 1, 2_000_000), Err(Error::ValueTooLarge));
    assert_eq!(contract.get(), 0);
}

#[test]
fn pause_works() {
    let mut contract = SimpleStorage::new(ALICE);

    assert_eq!(contract.pause(ALICE), Ok(()));
    assert!(contract.is_paused());

    assert_eq!(contract.set(ALICE, BALANCE, 1, 42), Err(Error::ContractPaused));

    assert_eq!(contract.unpause(ALICE), Ok(()));
    assert!(!contract.is_paused());

    assert_eq!(contract.set(ALICE, BALANCE, 1, 42), Ok(()));
    assert_eq!(contract.get(), 42);
}

#[test]
fn only_owner_can_pause() {
    let mut contract = SimpleStorage::new(ALICE);
    assert_eq!(contract.pause(BOB), Err(Error::NotOwner));
    assert_eq!(contract.pause(ALICE), Ok(()));
}

#[test]
fn account_specific_values_work() {
    let mut contract = SimpleStorage::new(ALICE);

    assert_eq!(contract.set(ALICE, BALANCE, 1, 42), Ok(()));
    assert_eq!(contract.set(BOB, BALANCE, 1, 84), Ok(()));

    assert_eq!(contract.get_for_account(ALICE), 42);
    assert_eq!(contract.get_for_account(BOB), 84);

    assert_eq!(contract.get(), 84);
}

#[test]
fn timelock_works() {
    let mut contract = SimpleStorage::new(ALICE);

    assert_eq!(contract.set_timelock(ALICE, 0, BOB, 100), Ok(()));

    assert_eq!(contract.set(BOB, BALANCE, 1, 42), Err(Error::ContractPaused));

    assert_eq!(contract.set(BOB, BALANCE, 101, 42), Ok(()));
    assert_eq!(contract.get(), 42);
}

#[test]
fn owner_is_recorded() {
    let contract = SimpleStorage::with_value(ALICE, 7);
    assert_eq!(contract.get_owner(), ALICE);
    assert_eq!(contract.get(), 7);
}

#[test]
fn balance_guard_rejects_poor_caller() {
    let mut contract = SimpleStorage::new(ALICE);
    assert_eq!(contract.set(BOB, 0, 1, 5), Err(Error::InsufficientBalance));
    assert_eq!(contract.get(), 0);
}
