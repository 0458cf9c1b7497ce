//! The contract addresses that a node is configured with.
//!
//! Both records are plain values: every slot is public, nothing is checked
//! when one is built, and nothing changes afterwards. A required slot is an
//! address; an optional slot is an `Option`, so that an absent address is
//! never confused with the all-zero address. Contracts speak of a record
//! through its view, which gives the bytes of every slot.

use vstd::prelude::*;
use vstd::std_specs::cmp::PartialEqSpec;
use zksync_basic_types::{Address, H256};

use crate::primitives::{
    address_bytes, lemma_repeated_differs, optional_address_bytes, optional_address_eq,
    optional_hash_bytes, optional_hash_eq, repeated,
};

verus! {

/// Addresses of the contracts that all chains of an ecosystem share.
#[derive(Debug)]
pub struct EcosystemContracts {
    /// Entry point that routes messages and assets between chains.
    pub bridgehub_proxy_addr: Address,
    /// Proxy of the state transition contract.
    pub state_transition_proxy_addr: Address,
    /// Admin of the upgradeable proxies.
    pub transparent_proxy_admin_addr: Address,
    /// Supplier of L1 bytecodes; absent where the deployment has none.
    pub l1_bytecodes_supplier_addr: Option<Address>,
}

/// What an [`EcosystemContracts`] holds, slot by slot, as bytes.
#[verifier::ext_equal]
pub struct EcosystemContractsView {
    pub bridgehub_proxy_addr: Seq<u8>,
    pub state_transition_proxy_addr: Seq<u8>,
    pub transparent_proxy_admin_addr: Seq<u8>,
    pub l1_bytecodes_supplier_addr: Option<Seq<u8>>,
}

impl View for EcosystemContracts {
    type V = EcosystemContractsView;

    open spec fn view(&self) -> EcosystemContractsView {
        EcosystemContractsView {
            bridgehub_proxy_addr: address_bytes(self.bridgehub_proxy_addr),
            state_transition_proxy_addr: address_bytes(self.state_transition_proxy_addr),
            transparent_proxy_admin_addr: address_bytes(self.transparent_proxy_admin_addr),
            l1_bytecodes_supplier_addr: optional_address_bytes(self.l1_bytecodes_supplier_addr),
        }
    }
}

impl EcosystemContracts {
    /// The value that [`EcosystemContracts::for_tests`] returns: every slot is
    /// filled with one repeated byte. The state transition proxy and the proxy
    /// admin share the byte `0x15`.
    pub open spec fn fixture() -> EcosystemContractsView {
        EcosystemContractsView {
            bridgehub_proxy_addr: repeated(0x14, 20),
            state_transition_proxy_addr: repeated(0x15, 20),
            transparent_proxy_admin_addr: repeated(0x15, 20),
            l1_bytecodes_supplier_addr: Some(repeated(0x16, 20)),
        }
    }

    /// A fully populated value for use in tests, the same on every call.
    pub fn for_tests() -> (contracts: Self)
        ensures
            contracts@ == Self::fixture(),
    {
        Self {
            bridgehub_proxy_addr: Address::repeat_byte(0x14),
            state_transition_proxy_addr: Address::repeat_byte(0x15),
            transparent_proxy_admin_addr: Address::repeat_byte(0x15),
            l1_bytecodes_supplier_addr: Some(Address::repeat_byte(0x16)),
        }
    }
}

impl Clone for EcosystemContracts {
    /// A copy that holds the same address in every slot.
    fn clone(&self) -> (copy: Self)
        ensures
            copy == *self,
    {
        Self {
            bridgehub_proxy_addr: self.bridgehub_proxy_addr,
            state_transition_proxy_addr: self.state_transition_proxy_addr,
            transparent_proxy_admin_addr: self.transparent_proxy_admin_addr,
            l1_bytecodes_supplier_addr: self.l1_bytecodes_supplier_addr,
        }
    }
}

impl PartialEq for EcosystemContracts {
    /// Compares slot by slot; what `==` means is said by `eq_spec` below.
    fn eq(&self, other: &Self) -> (equal: bool) {
        self.bridgehub_proxy_addr == other.bridgehub_proxy_addr
            && self.state_transition_proxy_addr == other.state_transition_proxy_addr
            && self.transparent_proxy_admin_addr == other.transparent_proxy_admin_addr
            && optional_address_eq(
                &self.l1_bytecodes_supplier_addr,
                &other.l1_bytecodes_supplier_addr,
            )
    }
}

impl vstd::std_specs::cmp::PartialEqSpecImpl for EcosystemContracts {
    open spec fn obeys_eq_spec() -> bool {
        true
    }

    /// Two values are equal when every slot holds the same bytes, or is absent
    /// in both.
    open spec fn eq_spec(&self, other: &Self) -> bool {
        self@ == other@
    }
}

/// Addresses of the contracts that were deployed for one chain.
#[derive(Debug)]
pub struct ContractsConfig {
    /// Governance contract of the chain.
    pub governance_addr: Address,
    /// Verifier of the proofs that the chain submits.
    pub verifier_addr: Address,
    /// Contract that carries out the default upgrade.
    pub default_upgrade_addr: Address,
    /// Diamond proxy of the chain: one address in front of its facets.
    pub diamond_proxy_addr: Address,
    /// Timelock through which validators commit and execute batches.
    pub validator_timelock_addr: Address,
    /// Proxy of the shared bridge on L1.
    pub l1_shared_bridge_proxy_addr: Option<Address>,
    /// Contract that serves as the shared bridge on L2: `L2SharedBridge` before
    /// the gateway upgrade, `L2AssetRouter` after it. The slot does not say
    /// which of the two it holds.
    pub l2_shared_bridge_addr: Option<Address>,
    /// The `L2SharedBridge` that was in use before the gateway upgrade. Absent
    /// where the chain's genesis already used a later protocol version; where
    /// present, it is the address that deploys tokens on L2.
    pub l2_legacy_shared_bridge_addr: Option<Address>,
    /// Proxy of the ERC20 bridge on L1.
    pub l1_erc20_bridge_proxy_addr: Option<Address>,
    /// ERC20 bridge on L2.
    pub l2_erc20_bridge_addr: Option<Address>,
    /// Proxy of the WETH bridge on L1.
    pub l1_weth_bridge_proxy_addr: Option<Address>,
    /// WETH bridge on L2.
    pub l2_weth_bridge_addr: Option<Address>,
    /// Paymaster of a test network on L2.
    pub l2_testnet_paymaster_addr: Option<Address>,
    /// Timestamp asserter on L2.
    pub l2_timestamp_asserter_addr: Option<Address>,
    /// Multicall3 contract on L1.
    pub l1_multicall3_addr: Address,
    /// Contracts of the ecosystem that the chain belongs to, held by value;
    /// absent where the deployment knows of no ecosystem.
    pub ecosystem_contracts: Option<EcosystemContracts>,
    /// Base token of the chain, as the RPC API and the base token ratio
    /// provider need it.
    pub base_token_addr: Option<Address>,
    /// Asset identifier of the base token on L1: a hash, not an address.
    pub l1_base_token_asset_id: Option<H256>,
    /// Wrapped base token that is predeployed on L2.
    pub l2_predeployed_wrapped_base_token_address: Option<Address>,
    /// Admin of the chain.
    pub chain_admin_addr: Option<Address>,
    /// Validator of data availability on L2.
    pub l2_da_validator_addr: Option<Address>,
}

/// What a [`ContractsConfig`] holds, slot by slot, as bytes.
#[verifier::ext_equal]
pub struct ContractsConfigView {
    pub governance_addr: Seq<u8>,
    pub verifier_addr: Seq<u8>,
    pub default_upgrade_addr: Seq<u8>,
    pub diamond_proxy_addr: Seq<u8>,
    pub validator_timelock_addr: Seq<u8>,
    pub l1_shared_bridge_proxy_addr: Option<Seq<u8>>,
    pub l2_shared_bridge_addr: Option<Seq<u8>>,
    pub l2_legacy_shared_bridge_addr: Option<Seq<u8>>,
    pub l1_erc20_bridge_proxy_addr: Option<Seq<u8>>,
    pub l2_erc20_bridge_addr: Option<Seq<u8>>,
    pub l1_weth_bridge_proxy_addr: Option<Seq<u8>>,
    pub l2_weth_bridge_addr: Option<Seq<u8>>,
    pub l2_testnet_paymaster_addr: Option<Seq<u8>>,
    pub l2_timestamp_asserter_addr: Option<Seq<u8>>,
    pub l1_multicall3_addr: Seq<u8>,
    pub ecosystem_contracts: Option<EcosystemContractsView>,
    pub base_token_addr: Option<Seq<u8>>,
    pub l1_base_token_asset_id: Option<Seq<u8>>,
    pub l2_predeployed_wrapped_base_token_address: Option<Seq<u8>>,
    pub chain_admin_addr: Option<Seq<u8>>,
    pub l2_da_validator_addr: Option<Seq<u8>>,
}

impl ContractsConfigView {
    /// The 19 address slots in the order of their declaration. A required slot
    /// counts as present; the asset identifier and the ecosystem contracts are
    /// no address slots and stay out.
    pub open spec fn address_slots(self) -> Seq<Option<Seq<u8>>> {
        seq![
            Some(self.governance_addr),
            Some(self.verifier_addr),
            Some(self.default_upgrade_addr),
            Some(self.diamond_proxy_addr),
            Some(self.validator_timelock_addr),
            self.l1_shared_bridge_proxy_addr,
            self.l2_shared_bridge_addr,
            self.l2_legacy_shared_bridge_addr,
            self.l1_erc20_bridge_proxy_addr,
            self.l2_erc20_bridge_addr,
            self.l1_weth_bridge_proxy_addr,
            self.l2_weth_bridge_addr,
            self.l2_testnet_paymaster_addr,
            self.l2_timestamp_asserter_addr,
            Some(self.l1_multicall3_addr),
            self.base_token_addr,
            self.l2_predeployed_wrapped_base_token_address,
            self.chain_admin_addr,
            self.l2_da_validator_addr,
        ]
    }
}

/// What an optional [`EcosystemContracts`] holds: nothing, or the view of the
/// value.
pub open spec fn optional_ecosystem_view(
    contracts: Option<EcosystemContracts>,
) -> Option<EcosystemContractsView> {
    match contracts {
        Some(ecosystem) => Some(ecosystem@),
        None => None,
    }
}

impl View for ContractsConfig {
    type V = ContractsConfigView;

    open spec fn view(&self) -> ContractsConfigView {
        ContractsConfigView {
            governance_addr: address_bytes(self.governance_addr),
            verifier_addr: address_bytes(self.verifier_addr),
            default_upgrade_addr: address_bytes(self.default_upgrade_addr),
            diamond_proxy_addr: address_bytes(self.diamond_proxy_addr),
            validator_timelock_addr: address_bytes(self.validator_timelock_addr),
            l1_shared_bridge_proxy_addr: optional_address_bytes(self.l1_shared_bridge_proxy_addr),
            l2_shared_bridge_addr: optional_address_bytes(self.l2_shared_bridge_addr),
            l2_legacy_shared_bridge_addr: optional_address_bytes(self.l2_legacy_shared_bridge_addr),
            l1_erc20_bridge_proxy_addr: optional_address_bytes(self.l1_erc20_bridge_proxy_addr),
            l2_erc20_bridge_addr: optional_address_bytes(self.l2_erc20_bridge_addr),
            l1_weth_bridge_proxy_addr: optional_address_bytes(self.l1_weth_bridge_proxy_addr),
            l2_weth_bridge_addr: optional_address_bytes(self.l2_weth_bridge_addr),
            l2_testnet_paymaster_addr: optional_address_bytes(self.l2_testnet_paymaster_addr),
            l2_timestamp_asserter_addr: optional_address_bytes(self.l2_timestamp_asserter_addr),
            l1_multicall3_addr: address_bytes(self.l1_multicall3_addr),
            ecosystem_contracts: optional_ecosystem_view(self.ecosystem_contracts),
            base_token_addr: optional_address_bytes(self.base_token_addr),
            l1_base_token_asset_id: optional_hash_bytes(self.l1_base_token_asset_id),
            l2_predeployed_wrapped_base_token_address: optional_address_bytes(
                self.l2_predeployed_wrapped_base_token_address,
            ),
            chain_admin_addr: optional_address_bytes(self.chain_admin_addr),
            l2_da_validator_addr: optional_address_bytes(self.l2_da_validator_addr),
        }
    }
}

impl ContractsConfig {
    /// The value that [`ContractsConfig::for_tests`] returns: every slot is
    /// present and filled with one repeated byte, and the ecosystem contracts
    /// are [`EcosystemContracts::fixture`]. Each of the 19 address slots has a
    /// byte of its own, so that two slots that were swapped never go unnoticed.
    pub open spec fn fixture() -> ContractsConfigView {
        ContractsConfigView {
            governance_addr: repeated(0x13, 20),
            verifier_addr: repeated(0x06, 20),
            default_upgrade_addr: repeated(0x07, 20),
            diamond_proxy_addr: repeated(0x09, 20),
            validator_timelock_addr: repeated(0x0a, 20),
            l1_shared_bridge_proxy_addr: Some(repeated(0x0e, 20)),
            l2_shared_bridge_addr: Some(repeated(0x0f, 20)),
            l2_legacy_shared_bridge_addr: Some(repeated(0x19, 20)),
            l1_erc20_bridge_proxy_addr: Some(repeated(0x0b, 20)),
            l2_erc20_bridge_addr: Some(repeated(0x0c, 20)),
            l1_weth_bridge_proxy_addr: Some(repeated(0x0d, 20)),
            l2_weth_bridge_addr: Some(repeated(0x10, 20)),
            l2_testnet_paymaster_addr: Some(repeated(0x11, 20)),
            l2_timestamp_asserter_addr: Some(repeated(0x17, 20)),
            l1_multicall3_addr: repeated(0x12, 20),
            ecosystem_contracts: Some(EcosystemContracts::fixture()),
            base_token_addr: Some(repeated(0x14, 20)),
            l1_base_token_asset_id: Some(repeated(0x15, 32)),
            l2_predeployed_wrapped_base_token_address: Some(repeated(0x1b, 20)),
            chain_admin_addr: Some(repeated(0x18, 20)),
            l2_da_validator_addr: Some(repeated(0x1a, 20)),
        }
    }

    /// A fully populated value for use in tests, the same on every call.
    pub fn for_tests() -> (config: Self)
        ensures
            config@ == Self::fixture(),
    {
        Self {
            governance_addr: Address::repeat_byte(0x13),
            verifier_addr: Address::repeat_byte(0x06),
            default_upgrade_addr: Address::repeat_byte(0x07),
            diamond_proxy_addr: Address::repeat_byte(0x09),
            validator_timelock_addr: Address::repeat_byte(0x0a),
            l1_shared_bridge_proxy_addr: Some(Address::repeat_byte(0x0e)),
            l2_shared_bridge_addr: Some(Address::repeat_byte(0x0f)),
            l2_legacy_shared_bridge_addr: Some(Address::repeat_byte(0x19)),
            l1_erc20_bridge_proxy_addr: Some(Address::repeat_byte(0x0b)),
            l2_erc20_bridge_addr: Some(Address::repeat_byte(0x0c)),
            l1_weth_bridge_proxy_addr: Some(Address::repeat_byte(0x0d)),
            l2_weth_bridge_addr: Some(Address::repeat_byte(0x10)),
            l2_testnet_paymaster_addr: Some(Address::repeat_byte(0x11)),
            l2_timestamp_asserter_addr: Some(Address::repeat_byte(0x17)),
            l1_multicall3_addr: Address::repeat_byte(0x12),
            ecosystem_contracts: Some(EcosystemContracts::for_tests()),
            base_token_addr: Some(Address::repeat_byte(0x14)),
            l1_base_token_asset_id: Some(H256::repeat_byte(0x15)),
            l2_predeployed_wrapped_base_token_address: Some(Address::repeat_byte(0x1b)),
            chain_admin_addr: Some(Address::repeat_byte(0x18)),
            l2_da_validator_addr: Some(Address::repeat_byte(0x1a)),
        }
    }
}

impl Clone for ContractsConfig {
    /// A copy that holds the same value in every slot, the ecosystem contracts
    /// included.
    fn clone(&self) -> (copy: Self)
        ensures
            copy == *self,
    {
        let ecosystem_contracts = match &self.ecosystem_contracts {
            Some(ecosystem) => Some(ecosystem.clone()),
            None => None,
        };
        Self {
            governance_addr: self.governance_addr,
            verifier_addr: self.verifier_addr,
            default_upgrade_addr: self.default_upgrade_addr,
            diamond_proxy_addr: self.diamond_proxy_addr,
            validator_timelock_addr: self.validator_timelock_addr,
            l1_shared_bridge_proxy_addr: self.l1_shared_bridge_proxy_addr,
            l2_shared_bridge_addr: self.l2_shared_bridge_addr,
            l2_legacy_shared_bridge_addr: self.l2_legacy_shared_bridge_addr,
            l1_erc20_bridge_proxy_addr: self.l1_erc20_bridge_proxy_addr,
            l2_erc20_bridge_addr: self.l2_erc20_bridge_addr,
            l1_weth_bridge_proxy_addr: self.l1_weth_bridge_proxy_addr,
            l2_weth_bridge_addr: self.l2_weth_bridge_addr,
            l2_testnet_paymaster_addr: self.l2_testnet_paymaster_addr,
            l2_timestamp_asserter_addr: self.l2_timestamp_asserter_addr,
            l1_multicall3_addr: self.l1_multicall3_addr,
            ecosystem_contracts,
            base_token_addr: self.base_token_addr,
            l1_base_token_asset_id: self.l1_base_token_asset_id,
            l2_predeployed_wrapped_base_token_address: self
                .l2_predeployed_wrapped_base_token_address,
            chain_admin_addr: self.chain_admin_addr,
            l2_da_validator_addr: self.l2_da_validator_addr,
        }
    }
}

/// Whether two optional [`EcosystemContracts`] are both absent, or both present
/// and equal.
fn optional_ecosystem_eq(
    a: &Option<EcosystemContracts>,
    b: &Option<EcosystemContracts>,
) -> (equal: bool)
    ensures
        equal == (optional_ecosystem_view(*a) == optional_ecosystem_view(*b)),
{
    match (a, b) {
        (Some(x), Some(y)) => *x == *y,
        (None, None) => true,
        _ => false,
    }
}

impl PartialEq for ContractsConfig {
    /// Compares slot by slot; what `==` means is said by `eq_spec` below.
    fn eq(&self, other: &Self) -> (equal: bool) {
        self.governance_addr == other.governance_addr
            && self.verifier_addr == other.verifier_addr
            && self.default_upgrade_addr == other.default_upgrade_addr
            && self.diamond_proxy_addr == other.diamond_proxy_addr
            && self.validator_timelock_addr == other.validator_timelock_addr
            && optional_address_eq(
                &self.l1_shared_bridge_proxy_addr,
                &other.l1_shared_bridge_proxy_addr,
            )
            && optional_address_eq(&self.l2_shared_bridge_addr, &other.l2_shared_bridge_addr)
            && optional_address_eq(
                &self.l2_legacy_shared_bridge_addr,
                &other.l2_legacy_shared_bridge_addr,
            )
            && optional_address_eq(
                &self.l1_erc20_bridge_proxy_addr,
                &other.l1_erc20_bridge_proxy_addr,
            )
            && optional_address_eq(&self.l2_erc20_bridge_addr, &other.l2_erc20_bridge_addr)
            && optional_address_eq(
                &self.l1_weth_bridge_proxy_addr,
                &other.l1_weth_bridge_proxy_addr,
            )
            && optional_address_eq(&self.l2_weth_bridge_addr, &other.l2_weth_bridge_addr)
            && optional_address_eq(
                &self.l2_testnet_paymaster_addr,
                &other.l2_testnet_paymaster_addr,
            )
            && optional_address_eq(
                &self.l2_timestamp_asserter_addr,
                &other.l2_timestamp_asserter_addr,
            )
            && self.l1_multicall3_addr == other.l1_multicall3_addr
            && optional_ecosystem_eq(&self.ecosystem_contracts, &other.ecosystem_contracts)
            && optional_address_eq(&self.base_token_addr, &other.base_token_addr)
            && optional_hash_eq(&self.l1_base_token_asset_id, &other.l1_base_token_asset_id)
            && optional_address_eq(
                &self.l2_predeployed_wrapped_base_token_address,
                &other.l2_predeployed_wrapped_base_token_address,
            )
            && optional_address_eq(&self.chain_admin_addr, &other.chain_admin_addr)
            && optional_address_eq(&self.l2_da_validator_addr, &other.l2_da_validator_addr)
    }
}

impl vstd::std_specs::cmp::PartialEqSpecImpl for ContractsConfig {
    open spec fn obeys_eq_spec() -> bool {
        true
    }

    /// Two values are equal when every slot holds the same bytes, or is absent
    /// in both.
    open spec fn eq_spec(&self, other: &Self) -> bool {
        self@ == other@
    }
}

/// In the value that [`EcosystemContracts::for_tests`] returns, the bridgehub,
/// the state transition proxy and the bytecodes supplier hold three different
/// addresses, and the proxy admin holds the address of the state transition
/// proxy.
pub proof fn lemma_ecosystem_fixture_slots()
    ensures
        EcosystemContracts::fixture().bridgehub_proxy_addr
            != EcosystemContracts::fixture().state_transition_proxy_addr,
        EcosystemContracts::fixture().l1_bytecodes_supplier_addr
            != Some(EcosystemContracts::fixture().bridgehub_proxy_addr),
        EcosystemContracts::fixture().l1_bytecodes_supplier_addr
            != Some(EcosystemContracts::fixture().state_transition_proxy_addr),
        EcosystemContracts::fixture().transparent_proxy_admin_addr
            == EcosystemContracts::fixture().state_transition_proxy_addr,
{
    lemma_repeated_differs(0x14, 0x15, 20);
    lemma_repeated_differs(0x16, 0x14, 20);
    lemma_repeated_differs(0x16, 0x15, 20);
}

/// In the value that [`ContractsConfig::for_tests`] returns, the 19 address
/// slots are all present and differ pairwise: no two of them hold the same
/// address.
pub proof fn lemma_fixture_slots_differ()
    ensures
        ContractsConfig::fixture().address_slots().len() == 19,
        forall|i: int|
            0 <= i < 19 ==> (#[trigger] ContractsConfig::fixture().address_slots()[i]) is Some,
        forall|i: int, j: int|
            0 <= i < j < 19 ==> ContractsConfig::fixture().address_slots()[i]
                != ContractsConfig::fixture().address_slots()[j],
{
    let slots = ContractsConfig::fixture().address_slots();
    let bytes: Seq<u8> = seq![
        0x13u8, 0x06u8, 0x07u8, 0x09u8, 0x0au8, 0x0eu8, 0x0fu8, 0x19u8, 0x0bu8, 0x0cu8,
        0x0du8, 0x10u8, 0x11u8, 0x17u8, 0x12u8, 0x14u8, 0x1bu8, 0x18u8, 0x1au8,
    ];
    assert(slots =~= Seq::new(19, |k: int| Some(repeated(bytes[k], 20))));
    assert forall|i: int, j: int| 0 <= i < j < 19 implies slots[i] != slots[j] by {
        assert(bytes[i] != bytes[j]);
        lemma_repeated_differs(bytes[i], bytes[j], 20);
    }
}

/// Any two values that [`EcosystemContracts::for_tests`] returns are equal.
pub proof fn lemma_ecosystem_for_tests_deterministic(
    first: EcosystemContracts,
    second: EcosystemContracts,
)
    requires
        first@ == EcosystemContracts::fixture(),
        second@ == EcosystemContracts::fixture(),
    ensures
        first@ == second@,
        first.eq_spec(&second),
{
}

/// Any two values that [`ContractsConfig::for_tests`] returns are equal.
pub proof fn lemma_for_tests_deterministic(first: ContractsConfig, second: ContractsConfig)
    requires
        first@ == ContractsConfig::fixture(),
        second@ == ContractsConfig::fixture(),
    ensures
        first@ == second@,
        first.eq_spec(&second),
{
}

} // verus!
