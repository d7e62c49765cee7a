//! Signer lifecycle: registration, role updates under the admin-floor
//! guard, revocation, and lookups.

use smart_account::account::SmartAccount;
use smart_account::events::AccountEvent;
use smart_account::error::Error;
use smart_account::host::{Address, Context, HostEnv, SmartAccountPlugin, SmartAccountPolicy};
use smart_account::policy::SignerRole;
use smart_account::signer::{Ed25519Signer, Signer, SignerKey};

struct MockHost;

impl HostEnv for MockHost {
    fn require_auth(&self, _source: &Address) {}

    fn sha256(&self, _data: &Vec<u8>) -> Vec<u8> {
        unreachable!()
    }

    fn ed25519_verify(&self, _public_key: &Vec<u8>, _message: &Vec<u8>, _signature: &Vec<u8>) {
        unreachable!()
    }

    fn secp256r1_verify(&self, _public_key: &Vec<u8>, _digest: &Vec<u8>, _signature: &Vec<u8>) {
        unreachable!()
    }

    fn update_current_contract_wasm(&self, _new_wasm_hash: &Vec<u8>) {}
}

impl SmartAccountPolicy for MockHost {
    fn on_add(&mut self, _policy: &Address, _source: &Address) -> bool {
        true
    }

    fn on_revoke(&mut self, _policy: &Address, _source: &Address) -> bool {
        true
    }

    fn is_authorized(&mut self, _policy: &Address, _source: &Address, _contexts: &Vec<Context>) -> bool {
        true
    }
}

impl SmartAccountPlugin for MockHost {
    fn on_install(&mut self, _plugin: &Address, _source: &Address) -> bool {
        true
    }

    fn on_uninstall(&mut self, _plugin: &Address, _source: &Address) -> bool {
        true
    }

    fn on_auth(&mut self, _plugin: &Address, _source: &Address, _contexts: &Vec<Context>) -> bool {
        true
    }
}

fn ed_signer(seed: u8, role: SignerRole) -> Signer {
    Signer::Ed25519(Ed25519Signer::new(vec![seed; 32]), role)
}

fn ed_key(seed: u8) -> SignerKey {
    SignerKey::Ed25519(vec![seed; 32])
}

fn new_account(signers: Vec<Signer>) -> (SmartAccount, MockHost) {
    let mut host = MockHost;
    let account = SmartAccount::__constructor(
        &mut host,
        Address { id: 900 },
        signers,
        Vec::new(),
        0,
    )
    .unwrap();
    (account, host)
}

#[test]
fn test_revoke_admin_signer_prevented() {
    let (mut account, mut host) = new_account(vec![
        ed_signer(1, SignerRole::Admin),
        ed_signer(2, SignerRole::Standard(vec![])),
    ]);

    let result = account.revoke_signer(&mut host, ed_key(1));
    assert_eq!(result.unwrap_err(), Error::CannotRevokeAdminSigner);
}

#[test]
fn test_revoke_standard_signer_allowed() {
    let (mut account, mut host) = new_account(vec![
        ed_signer(1, SignerRole::Admin),
        ed_signer(2, SignerRole::Standard(vec![])),
    ]);

    let result = account.revoke_signer(&mut host, ed_key(2));
    assert!(result.is_ok());
}

#[test]
fn test_add_multiple_admin_signers_success() {
    let (mut account, mut host) = new_account(vec![ed_signer(1, SignerRole::Admin)]);

    let result = account.add_signer(&mut host, ed_signer(2, SignerRole::Admin), 0);
    assert!(result.is_ok(), "Adding second admin should succeed");

    let result2 = account.add_signer(&mut host, ed_signer(3, SignerRole::Admin), 0);
    assert!(result2.is_ok(), "Adding third admin should also succeed");
}

#[test]
fn test_admin_count_underflow_protection() {
    let (mut account, mut host) = new_account(vec![
        ed_signer(1, SignerRole::Admin),
        ed_signer(2, SignerRole::Admin),
    ]);

    let result = account.update_signer(&mut host, ed_signer(1, SignerRole::Standard(vec![])), 0);
    assert!(
        result.is_ok(),
        "Downgrading first admin should succeed when there are 2 admins"
    );

    let result2 = account.update_signer(&mut host, ed_signer(2, SignerRole::Standard(vec![])), 0);
    assert_eq!(
        result2.unwrap_err(),
        Error::CannotDowngradeLastAdmin,
        "Should prevent downgrading the last admin"
    );
}

#[test]
fn test_has_signer_returns_true_when_signer_exists() {
    let (account, _host) = new_account(vec![
        ed_signer(1, SignerRole::Admin),
        ed_signer(2, SignerRole::Standard(vec![])),
    ]);

    let admin_result = account.has_signer(&ed_key(1));
    let standard_result = account.has_signer(&ed_key(2));

    assert!(admin_result.is_ok());
    assert!(admin_result.unwrap());
    assert!(standard_result.is_ok());
    assert!(standard_result.unwrap());
}

#[test]
fn test_has_signer_returns_false_when_signer_does_not_exist() {
    let (account, _host) = new_account(vec![ed_signer(1, SignerRole::Admin)]);

    let result = account.has_signer(&ed_key(5));
    assert!(result.is_ok());
    assert!(!result.unwrap());
}

#[test]
fn test_get_signer_returns_signer_when_exists() {
    let (account, _host) = new_account(vec![
        ed_signer(1, SignerRole::Admin),
        ed_signer(2, SignerRole::Standard(vec![])),
    ]);

    let expected_admin_signer = ed_signer(1, SignerRole::Admin);
    let expected_standard_signer = ed_signer(2, SignerRole::Standard(vec![]));

    let admin_result = account.get_signer(&ed_key(1));
    let standard_result = account.get_signer(&ed_key(2));

    assert!(admin_result.is_ok());
    assert_eq!(admin_result.unwrap(), expected_admin_signer);
    assert!(standard_result.is_ok());
    assert_eq!(standard_result.unwrap(), expected_standard_signer);
}

#[test]
fn test_get_signer_returns_error_when_signer_does_not_exist() {
    let (account, _host) = new_account(vec![ed_signer(1, SignerRole::Admin)]);

    let result = account.get_signer(&ed_key(5));
    assert!(result.is_err());
    assert_eq!(result.unwrap_err(), Error::SignerNotFound);
}

#[test]
fn test_cannot_downgrade_last_admin() {
    let (mut account, mut host) = new_account(vec![ed_signer(1, SignerRole::Admin)]);

    let res = account.update_signer(&mut host, ed_signer(1, SignerRole::Standard(vec![])), 0);
    assert_eq!(res.unwrap_err(), Error::CannotDowngradeLastAdmin);
}

#[test]
fn test_can_downgrade_admin_if_another_admin_exists() {
    let (mut account, mut host) = new_account(vec![
        ed_signer(1, SignerRole::Admin),
        ed_signer(2, SignerRole::Admin),
    ]);

    let res = account.update_signer(&mut host, ed_signer(2, SignerRole::Standard(vec![])), 0);
    assert!(res.is_ok());
}

#[test]
fn test_add_duplicate_signer_rejected_and_state_unchanged() {
    let (mut account, mut host) = new_account(vec![ed_signer(1, SignerRole::Admin)]);

    let result = account.add_signer(&mut host, ed_signer(1, SignerRole::Standard(vec![])), 0);
    assert_eq!(result.unwrap_err(), Error::SignerAlreadyExists);
    assert_eq!(account.get_signer(&ed_key(1)).unwrap(), ed_signer(1, SignerRole::Admin));
    assert_eq!(account.signers.len(), 1);
}

#[test]
fn test_lifecycle_events_are_recorded() {
    let (mut account, mut host) = new_account(vec![ed_signer(1, SignerRole::Admin)]);

    account.add_signer(&mut host, ed_signer(2, SignerRole::Standard(vec![])), 0).unwrap();
    assert!(matches!(account.events.last(), Some(AccountEvent::SignerAdded(_))));

    account.update_signer(&mut host, ed_signer(2, SignerRole::Standard(vec![])), 0).unwrap();
    assert!(matches!(account.events.last(), Some(AccountEvent::SignerUpdated(_))));

    account.revoke_signer(&mut host, ed_key(2)).unwrap();
    assert!(matches!(account.events.last(), Some(AccountEvent::SignerRevoked(_))));
}

#[test]
fn test_update_missing_signer_fails() {
    let (mut account, mut host) = new_account(vec![ed_signer(1, SignerRole::Admin)]);

    let result = account.update_signer(&mut host, ed_signer(9, SignerRole::Admin), 0);
    assert_eq!(result.unwrap_err(), Error::SignerNotFound);
}

#[test]
fn test_revoke_missing_signer_fails() {
    let (mut account, mut host) = new_account(vec![ed_signer(1, SignerRole::Admin)]);

    let result = account.revoke_signer(&mut host, ed_key(9));
    assert_eq!(result.unwrap_err(), Error::SignerNotFound);
}
