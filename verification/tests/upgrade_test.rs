//! The initialization flag and the two-state upgrade gate.

use smart_account::account::SmartAccount;
use smart_account::error::Error;
use smart_account::host::{Address, Context, HostEnv, SmartAccountPlugin, SmartAccountPolicy};
use smart_account::policy::SignerRole;
use smart_account::signer::{Ed25519Signer, Signer};
use smart_account::upgrade::{can_complete_migration, ensure_can_complete_migration};

struct MockHost;

impl HostEnv for MockHost {
    fn require_auth(&self, _source: &Address) {}

    fn sha256(&self, _data: &Vec<u8>) -> Vec<u8> {
        unreachable!()
    }

    fn ed25519_verify(&self, _public_key: &Vec<u8>, _message: &Vec<u8>, _signature: &Vec<u8>) {
        unreachable!()
    }

    fn secp256r1_verify(&self, _public_key: &Vec<u8>, _digest: &Vec<u8>, _signature: &Vec<u8>) {
        unreachable!()
    }

    fn update_current_contract_wasm(&self, _new_wasm_hash: &Vec<u8>) {}
}

impl SmartAccountPolicy for MockHost {
    fn on_add(&mut self, _policy: &Address, _source: &Address) -> bool {
        true
    }

    fn on_revoke(&mut self, _policy: &Address, _source: &Address) -> bool {
        true
    }

    fn is_authorized(&mut self, _policy: &Address, _source: &Address, _contexts: &Vec<Context>) -> bool {
        true
    }
}

impl SmartAccountPlugin for MockHost {
    fn on_install(&mut self, _plugin: &Address, _source: &Address) -> bool {
        true
    }

    fn on_uninstall(&mut self, _plugin: &Address, _source: &Address) -> bool {
        true
    }

    fn on_auth(&mut self, _plugin: &Address, _source: &Address, _contexts: &Vec<Context>) -> bool {
        true
    }
}

fn new_account() -> (SmartAccount, MockHost) {
    let mut host = MockHost;
    let account = SmartAccount::__constructor(
        &mut host,
        Address { id: 900 },
        vec![Signer::Ed25519(Ed25519Signer::new(vec![1u8; 32]), SignerRole::Admin)],
        Vec::new(),
        0,
    )
    .unwrap();
    (account, host)
}

#[test]
fn test_migrate_without_upgrade_fails() {
    let (mut account, host) = new_account();
    assert!(!can_complete_migration(&account));
    assert_eq!(
        ensure_can_complete_migration(&account).unwrap_err(),
        Error::MigrationNotAllowed
    );
    assert_eq!(account.migrate(&host).unwrap_err(), Error::MigrationNotAllowed);
}

#[test]
fn test_upgrade_then_migrate_round_trip() {
    let (mut account, host) = new_account();

    account.upgrade(&host, &vec![7u8; 32]);
    assert!(can_complete_migration(&account));
    assert!(ensure_can_complete_migration(&account).is_ok());

    account.migrate(&host).unwrap();
    assert!(!can_complete_migration(&account));
    assert_eq!(account.migrate(&host).unwrap_err(), Error::MigrationNotAllowed);
}

#[test]
fn test_constructor_marks_account_initialized() {
    let (mut account, _host) = new_account();
    assert!(account.is_initialized());
    assert!(account.get_initialization_value());
    assert!(account.ensure_initialized().is_ok());
    assert_eq!(account.ensure_not_initialized().unwrap_err(), Error::AlreadyInitialized);
    assert_eq!(account.initialize().unwrap_err(), Error::AlreadyInitialized);
    assert!(account.is_deployed());
}

#[test]
fn test_initialization_flag_round_trip() {
    let (mut account, _host) = new_account();
    account.set_initialization_value(false);
    assert!(!account.is_initialized());
    assert_eq!(account.ensure_initialized().unwrap_err(), Error::NotInitialized);
    assert!(account.mark_initialized().is_ok());
    assert!(account.is_initialized());
    assert_eq!(account.mark_initialized().unwrap_err(), Error::AlreadyInitialized);
}
