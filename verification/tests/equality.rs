use contracts_config::primitives::{optional_address_eq, optional_hash_eq};
use contracts_config::{ContractsConfig, EcosystemContracts};
use zksync_basic_types::{Address, H256};

fn other_address() -> Address {
    Address::repeat_byte(0xee)
}

#[test]
fn ecosystem_equality_sees_each_required_slot() {
    let base = EcosystemContracts::for_tests();

    let mut changed = base.clone();
    changed.bridgehub_proxy_addr = other_address();
    assert_ne!(changed, base);

    let mut changed = base.clone();
    changed.state_transition_proxy_addr = other_address();
    assert_ne!(changed, base);

    let mut changed = base.clone();
    changed.transparent_proxy_admin_addr = other_address();
    assert_ne!(changed, base);
}

#[test]
fn ecosystem_equality_sees_the_optional_slot() {
    let base = EcosystemContracts::for_tests();

    let mut changed = base.clone();
    changed.l1_bytecodes_supplier_addr = Some(other_address());
    assert_ne!(changed, base);

    let mut changed = base.clone();
    changed.l1_bytecodes_supplier_addr = None;
    assert_ne!(changed, base);
    assert_eq!(changed, changed.clone());
}

#[test]
fn ecosystem_equality_sees_a_single_byte() {
    let base = EcosystemContracts::for_tests();
    let mut bytes = [0x14u8; 20];
    bytes[19] = 0x15;
    let mut changed = base.clone();
    changed.bridgehub_proxy_addr = Address::from(bytes);
    assert_ne!(changed, base);
    changed.bridgehub_proxy_addr = Address::from([0x14u8; 20]);
    assert_eq!(changed, base);
}

#[test]
fn config_equality_sees_each_required_slot() {
    let base = ContractsConfig::for_tests();

    let mut changed = base.clone();
    changed.governance_addr = other_address();
    assert_ne!(changed, base);

    let mut changed = base.clone();
    changed.verifier_addr = other_address();
    assert_ne!(changed, base);

    let mut changed = base.clone();
    changed.default_upgrade_addr = other_address();
    assert_ne!(changed, base);

    let mut changed = base.clone();
    changed.diamond_proxy_addr = other_address();
    assert_ne!(changed, base);

    let mut changed = base.clone();
    changed.validator_timelock_addr = other_address();
    assert_ne!(changed, base);

    let mut changed = base.clone();
    changed.l1_multicall3_addr = other_address();
    assert_ne!(changed, base);
}

#[test]
fn config_equality_sees_each_bridge_slot() {
    let base = ContractsConfig::for_tests();

    let mut changed = base.clone();
    changed.l1_shared_bridge_proxy_addr = Some(other_address());
    assert_ne!(changed, base);

    let mut changed = base.clone();
    changed.l2_shared_bridge_addr = Some(other_address());
    assert_ne!(changed, base);

    let mut changed = base.clone();
    changed.l2_legacy_shared_bridge_addr = Some(other_address());
    assert_ne!(changed, base);

    let mut changed = base.clone();
    changed.l1_erc20_bridge_proxy_addr = Some(other_address());
    assert_ne!(changed, base);

    let mut changed = base.clone();
    changed.l2_erc20_bridge_addr = Some(other_address());
    assert_ne!(changed, base);

    let mut changed = base.clone();
    changed.l1_weth_bridge_proxy_addr = Some(other_address());
    assert_ne!(changed, base);

    let mut changed = base.clone();
    changed.l2_weth_bridge_addr = Some(other_address());
    assert_ne!(changed, base);
}

#[test]
fn config_equality_sees_each_other_optional_slot() {
    let base = ContractsConfig::for_tests();

    let mut changed = base.clone();
    changed.l2_testnet_paymaster_addr = Some(other_address());
    assert_ne!(changed, base);

    let mut changed = base.clone();
    changed.l2_timestamp_asserter_addr = Some(other_address());
    assert_ne!(changed, base);

    let mut changed = base.clone();
    changed.base_token_addr = Some(other_address());
    assert_ne!(changed, base);

    let mut changed = base.clone();
    changed.l1_base_token_asset_id = Some(H256::repeat_byte(0xee));
    assert_ne!(changed, base);

    let mut changed = base.clone();
    changed.l2_predeployed_wrapped_base_token_address = Some(other_address());
    assert_ne!(changed, base);

    let mut changed = base.clone();
    changed.chain_admin_addr = Some(other_address());
    assert_ne!(changed, base);

    let mut changed = base.clone();
    changed.l2_da_validator_addr = Some(other_address());
    assert_ne!(changed, base);
}

#[test]
fn config_equality_sees_the_ecosystem_contracts() {
    let base = ContractsConfig::for_tests();

    let mut changed = base.clone();
    changed.ecosystem_contracts = None;
    assert_ne!(changed, base);
    assert_eq!(changed, changed.clone());

    let mut ecosystem = EcosystemContracts::for_tests();
    ecosystem.l1_bytecodes_supplier_addr = None;
    let mut changed = base.clone();
    changed.ecosystem_contracts = Some(ecosystem);
    assert_ne!(changed, base);
}

#[test]
fn config_equality_sees_each_absent_slot() {
    let base = ContractsConfig::for_tests();

    let mut changed = base.clone();
    changed.l1_shared_bridge_proxy_addr = None;
    assert_ne!(changed, base);

    let mut changed = base.clone();
    changed.l2_legacy_shared_bridge_addr = None;
    assert_ne!(changed, base);

    let mut changed = base.clone();
    changed.l1_base_token_asset_id = None;
    assert_ne!(changed, base);

    let mut changed = base.clone();
    changed.l2_da_validator_addr = None;
    assert_ne!(changed, base);
}

#[test]
fn absent_slot_differs_from_the_zero_address() {
    let mut absent = ContractsConfig::for_tests();
    absent.base_token_addr = None;
    let mut zero = ContractsConfig::for_tests();
    zero.base_token_addr = Some(Address::zero());
    assert_ne!(absent, zero);
    assert!(absent.base_token_addr.is_none());

    let mut absent = EcosystemContracts::for_tests();
    absent.l1_bytecodes_supplier_addr = None;
    let mut zero = EcosystemContracts::for_tests();
    zero.l1_bytecodes_supplier_addr = Some(Address::zero());
    assert_ne!(absent, zero);
}

#[test]
fn absent_asset_id_differs_from_the_zero_hash() {
    let mut absent = ContractsConfig::for_tests();
    absent.l1_base_token_asset_id = None;
    let mut zero = ContractsConfig::for_tests();
    zero.l1_base_token_asset_id = Some(H256::zero());
    assert_ne!(absent, zero);
}

#[test]
fn clone_equals_its_source() {
    let config = ContractsConfig::for_tests();
    let copy = config.clone();
    assert_eq!(copy, config);
    assert_eq!(copy.ecosystem_contracts, Some(EcosystemContracts::for_tests()));
    assert_eq!(copy.l1_base_token_asset_id, Some(H256::repeat_byte(0x15)));

    let ecosystem = EcosystemContracts::for_tests();
    assert_eq!(ecosystem.clone(), ecosystem);
}

#[test]
fn clone_keeps_absent_slots_absent() {
    let mut config = ContractsConfig::for_tests();
    config.ecosystem_contracts = None;
    config.chain_admin_addr = None;
    let copy = config.clone();
    assert!(copy.ecosystem_contracts.is_none());
    assert!(copy.chain_admin_addr.is_none());
    assert_eq!(copy, config);
}

#[test]
fn optional_address_eq_compares_presence_and_bytes() {
    let a = Some(Address::repeat_byte(0x01));
    let b = Some(Address::repeat_byte(0x02));
    assert!(optional_address_eq(&a, &a));
    assert!(optional_address_eq(&a, &Some(Address::from([0x01u8; 20]))));
    assert!(!optional_address_eq(&a, &b));
    assert!(!optional_address_eq(&a, &None));
    assert!(!optional_address_eq(&None, &b));
    assert!(!optional_address_eq(&None, &Some(Address::zero())));
    assert!(optional_address_eq(&None, &None));
}

#[test]
fn optional_hash_eq_compares_presence_and_bytes() {
    let a = Some(H256::repeat_byte(0x01));
    let b = Some(H256::repeat_byte(0x02));
    assert!(optional_hash_eq(&a, &a));
    assert!(optional_hash_eq(&a, &Some(H256::from([0x01u8; 32]))));
    assert!(!optional_hash_eq(&a, &b));
    assert!(!optional_hash_eq(&a, &None));
    assert!(!optional_hash_eq(&None, &b));
    assert!(!optional_hash_eq(&None, &Some(H256::zero())));
    assert!(optional_hash_eq(&None, &None));
}

#[test]
fn debug_output_names_the_slots() {
    let text = format!("{:?}", EcosystemContracts::for_tests());
    assert!(text.contains("bridgehub_proxy_addr"));
    assert!(text.contains("0x1414141414141414141414141414141414141414"));
}
