use chain_harness::bridge::{get_accounts, handle_setup_chain, mine_block, set_tx_sender};
use chain_harness::chain::{AccountConfig, ChainConfig, ContractConfig, MainConfig};
use chain_harness::errors::HarnessError;
use chain_harness::registry::SessionRegistry;
use chain_harness::sim::is_valid_address;

const WALLET_ADDRESS: &str = "ST1PQHQKV0RJXZFY1DGX8MNSNYVE3VGZJSRTPGZGM";
const OTHER_ADDRESS: &str = "ST1D0XTBR7WVNSYBJ7M26XSJAXMDJGJQKNEXAM6JH";

fn counter_project() -> MainConfig {
    MainConfig {
        contracts: vec![ContractConfig {
            name: "counter".to_string(),
            path: "contracts/counter.clar".to_string(),
            source: Some("(define-data-var count int 0)".to_string()),
            deployer: None,
        }],
    }
}

fn wallet_chain() -> ChainConfig {
    ChainConfig {
        accounts: vec![AccountConfig {
            name: "wallet_1".to_string(),
            address: WALLET_ADDRESS.to_string(),
            balance: 1_000_000,
            mnemonic: "twice kind fence tip hidden tilt action fragile skin nothing glory cousin green tomorrow spring wrist shed math olympic multiply hip blue scout claw".to_string(),
            derivation: "m/44'/5757'/0'/0/0".to_string(),
        }],
    }
}

#[test]
fn setup_chain_yields_session_zero_with_account_snapshot() {
    let mut reg = SessionRegistry::new();
    let (id, accounts) = handle_setup_chain(&mut reg, &counter_project(), &wallet_chain()).unwrap();
    assert_eq!(id, 0);
    assert_eq!(accounts.len(), 1);
    assert_eq!(accounts[0].name, "wallet_1");
    assert_eq!(accounts[0].address, WALLET_ADDRESS);
    assert_eq!(accounts[0].balance, 1_000_000);

    // A fresh registry — as in a fresh process — issues session id 0 again.
    let mut fresh = SessionRegistry::new();
    let (fresh_id, _) = handle_setup_chain(&mut fresh, &counter_project(), &wallet_chain()).unwrap();
    assert_eq!(fresh_id, 0);
}

#[test]
fn two_serialized_creations_issue_distinct_ids() {
    let mut reg = SessionRegistry::new();
    let (first, _) = handle_setup_chain(&mut reg, &counter_project(), &wallet_chain()).unwrap();
    let (second, _) = handle_setup_chain(&mut reg, &counter_project(), &wallet_chain()).unwrap();
    assert_ne!(first, second);
    assert_eq!(first, 0);
    assert_eq!(second, 1);
}

#[test]
fn get_accounts_returns_creation_snapshot_in_order() {
    let mut chain = wallet_chain();
    chain.accounts.push(AccountConfig {
        name: "wallet_2".to_string(),
        address: OTHER_ADDRESS.to_string(),
        balance: 42,
        mnemonic: String::new(),
        derivation: String::new(),
    });
    let mut reg = SessionRegistry::new();
    let (id, created) = handle_setup_chain(&mut reg, &counter_project(), &chain).unwrap();
    let fetched = get_accounts(&reg, id).unwrap();
    assert_eq!(fetched.len(), 2);
    assert_eq!(fetched[0].name, created[0].name);
    assert_eq!(fetched[0].address, WALLET_ADDRESS);
    assert_eq!(fetched[0].balance, 1_000_000);
    assert_eq!(fetched[1].name, "wallet_2");
    assert_eq!(fetched[1].address, OTHER_ADDRESS);
    assert_eq!(fetched[1].balance, 42);
}

#[test]
fn get_accounts_unknown_id_fails() {
    let reg = SessionRegistry::new();
    let r = get_accounts(&reg, 0);
    assert!(matches!(r, Err(HarnessError::SessionNotFound(0))));
}

#[test]
fn set_tx_sender_unknown_id_leaves_registry_unmodified() {
    let mut reg = SessionRegistry::new();
    let (id, _) = handle_setup_chain(&mut reg, &counter_project(), &wallet_chain()).unwrap();
    let before = reg.get_session(id).unwrap().current_sender();
    let r = set_tx_sender(&mut reg, 5, WALLET_ADDRESS);
    assert!(matches!(r, Err(HarnessError::SessionNotFound(5))));
    assert_eq!(reg.session_count(), 1);
    assert_eq!(reg.get_session(id).unwrap().current_sender(), before);
    assert_eq!(reg.get_session(id).unwrap().height, 0);
}

#[test]
fn set_tx_sender_stores_the_sender() {
    let mut reg = SessionRegistry::new();
    let (id, _) = handle_setup_chain(&mut reg, &counter_project(), &wallet_chain()).unwrap();
    let before = reg.get_session(id).unwrap().current_sender();
    assert_ne!(before, WALLET_ADDRESS);
    set_tx_sender(&mut reg, id, WALLET_ADDRESS).unwrap();
    assert_eq!(reg.get_session(id).unwrap().current_sender(), WALLET_ADDRESS);
    assert_eq!(reg.get_session(id).unwrap().height, 0);
}

#[test]
fn set_tx_sender_rejects_malformed_address() {
    let mut reg = SessionRegistry::new();
    let (id, _) = handle_setup_chain(&mut reg, &counter_project(), &wallet_chain()).unwrap();
    let r = set_tx_sender(&mut reg, id, "not an address");
    assert!(matches!(r, Err(HarnessError::ArgumentError(_))));
}

#[test]
fn set_tx_sender_rejects_non_ascii_address() {
    let mut reg = SessionRegistry::new();
    let (id, _) = handle_setup_chain(&mut reg, &counter_project(), &wallet_chain()).unwrap();
    // The principal alphabet is ASCII; a multi-byte literal is rejected
    // as a malformed argument, never handed to the simulator.
    let r = set_tx_sender(&mut reg, id, "ST1ÉÉÉ");
    assert!(matches!(r, Err(HarnessError::ArgumentError(_))));
    assert_eq!(reg.get_session(id).unwrap().height, 0);
}

#[test]
fn create_session_rejects_non_ascii_account_address() {
    let chain = ChainConfig {
        accounts: vec![AccountConfig {
            name: "wallet_1".to_string(),
            address: "ééé".to_string(),
            balance: 1,
            mnemonic: String::new(),
            derivation: String::new(),
        }],
    };
    let mut reg = SessionRegistry::new();
    let r = handle_setup_chain(&mut reg, &counter_project(), &chain);
    assert!(matches!(r, Err(HarnessError::ConfigError(_))));
    assert_eq!(reg.session_count(), 0);
}

#[test]
fn address_validation_accepts_and_rejects() {
    assert!(is_valid_address(WALLET_ADDRESS));
    assert!(is_valid_address(OTHER_ADDRESS));
    assert!(!is_valid_address(""));
    assert!(!is_valid_address("not an address"));
    assert!(!is_valid_address("ST1PQHQKV0RJXZFY1DGX8MNSNYVE3VGZJSRTPGZG"));
}

#[test]
fn mine_block_five_times_raises_height_by_five() {
    let mut reg = SessionRegistry::new();
    let (id, _) = handle_setup_chain(&mut reg, &counter_project(), &wallet_chain()).unwrap();
    assert_eq!(reg.get_session(id).unwrap().height, 0);
    for expected in 1..=5u32 {
        let h = mine_block(&mut reg, id).unwrap();
        assert_eq!(h, expected);
    }
    assert_eq!(reg.get_session(id).unwrap().height, 5);
}

#[test]
fn mine_block_unknown_session_fails_and_others_are_unaffected() {
    let mut reg = SessionRegistry::new();
    let (id, _) = handle_setup_chain(&mut reg, &counter_project(), &wallet_chain()).unwrap();
    let r = mine_block(&mut reg, 99);
    assert!(matches!(r, Err(HarnessError::SessionNotFound(99))));
    // Subsequent valid calls on other sessions still work.
    assert_eq!(mine_block(&mut reg, id).unwrap(), 1);
}

#[test]
fn mine_block_touches_only_its_session() {
    let mut reg = SessionRegistry::new();
    let (a, _) = handle_setup_chain(&mut reg, &counter_project(), &wallet_chain()).unwrap();
    let (b, _) = handle_setup_chain(&mut reg, &counter_project(), &wallet_chain()).unwrap();
    mine_block(&mut reg, a).unwrap();
    mine_block(&mut reg, a).unwrap();
    assert_eq!(reg.get_session(a).unwrap().height, 2);
    assert_eq!(reg.get_session(b).unwrap().height, 0);
}

#[test]
fn create_session_rejects_unreadable_contract_source() {
    let project = MainConfig {
        contracts: vec![ContractConfig {
            name: "counter".to_string(),
            path: "contracts/counter.clar".to_string(),
            source: None,
            deployer: None,
        }],
    };
    let mut reg = SessionRegistry::new();
    let r = handle_setup_chain(&mut reg, &project, &wallet_chain());
    assert!(matches!(r, Err(HarnessError::ConfigError(_))));
    assert_eq!(reg.session_count(), 0);
}

#[test]
fn create_session_rejects_malformed_account_address() {
    let chain = ChainConfig {
        accounts: vec![AccountConfig {
            name: "wallet_1".to_string(),
            address: "garbage".to_string(),
            balance: 1,
            mnemonic: String::new(),
            derivation: String::new(),
        }],
    };
    let mut reg = SessionRegistry::new();
    let r = handle_setup_chain(&mut reg, &counter_project(), &chain);
    assert!(matches!(r, Err(HarnessError::ConfigError(_))));
    assert_eq!(reg.session_count(), 0);
}

#[test]
fn contract_deployer_defaults_to_the_well_known_address() {
    let mut reg = SessionRegistry::new();
    let (id, _) = handle_setup_chain(&mut reg, &counter_project(), &wallet_chain()).unwrap();
    let session = reg.get_session(id).unwrap();
    assert_eq!(session.contracts.len(), 1);
    assert_eq!(session.contracts[0].name, "counter");
    assert_eq!(session.contracts[0].deployer, chain_harness::chain::DEFAULT_DEPLOYER);
}

#[test]
fn get_session_unknown_id_fails() {
    let reg = SessionRegistry::new();
    assert!(matches!(reg.get_session(7), Err(HarnessError::SessionNotFound(7))));
}

#[test]
fn error_class_names_follow_the_taxonomy() {
    assert_eq!(HarnessError::ConfigError(String::new()).class_name(), "ConfigError");
    assert_eq!(HarnessError::SessionNotFound(1).class_name(), "SessionNotFound");
    assert_eq!(HarnessError::ArgumentError(String::new()).class_name(), "ArgumentError");
    assert_eq!(HarnessError::SimulatorError(String::new()).class_name(), "SimulatorError");
    assert_eq!(HarnessError::ScriptError(String::new()).class_name(), "ScriptError");
}
