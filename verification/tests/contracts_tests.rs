use civicchain::gateway::{ContractGateway, Error, GatewayConfig};

fn test_gateway() -> ContractGateway {
    ContractGateway::new(GatewayConfig { min_contract_fee: 1, max_transactions_per_block: 1000 })
}

#[test]
fn transaction_count_resets_on_new_block() {
    let mut gateway = test_gateway();
    assert_eq!(gateway.transaction_count(), 0);
    gateway.on_initialize();
    assert_eq!(gateway.transaction_count(), 0);
}

#[test]
fn deploy_contract_works() {
    let mut gateway = test_gateway();
    let contract_code = vec![1, 2, 3, 4];
    assert!(gateway.deploy_contract(1, &contract_code, 1, 0).is_ok());
    assert_eq!(gateway.transaction_count(), 1);
}

#[test]
fn call_contract_works() {
    let mut gateway = test_gateway();
    assert!(gateway.call_contract(1, 2, 10).is_ok());
    assert_eq!(gateway.transaction_count(), 1);
}

#[test]
fn fee_too_low_is_rejected() {
    let mut gateway = test_gateway();
    assert_eq!(gateway.call_contract(1, 2, 0), Err(Error::FeeTooLow));
    assert_eq!(gateway.transaction_count(), 0);
}

#[test]
fn transaction_limit_is_enforced() {
    let mut gateway = test_gateway();
    gateway.transaction_count = 1000;
    assert_eq!(
        gateway.deploy_contract(1, &vec![1, 2, 3, 4], 1, 0).map(|_| ()),
        Err(Error::TransactionLimitExceeded)
    );
    assert_eq!(gateway.call_contract(1, 2, 10), Err(Error::TransactionLimitExceeded));
}

#[test]
fn multiple_transactions_in_same_block() {
    let mut gateway = test_gateway();
    assert!(gateway.call_contract(1, 2, 10).is_ok());
    assert_eq!(gateway.transaction_count(), 1);
    assert!(gateway.call_contract(1, 2, 10).is_ok());
    assert_eq!(gateway.transaction_count(), 2);
}

#[test]
fn deploy_addresses_are_distinct() {
    let mut gateway = test_gateway();
    let code = vec![0, 1, 2];
    let first = gateway.deploy_contract(9, &code, 5, 0).unwrap();
    let second = gateway.deploy_contract(9, &code, 5, 0).unwrap();
    assert_eq!(first.code_hash, second.code_hash);
    assert_ne!(first.address, second.address);
}
