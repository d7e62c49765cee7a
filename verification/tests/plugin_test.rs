//! Plugin lifecycle: installation with a mandatory initialization hook,
//! vetoes during authorization, and removal that no hook failure can
//! block.

use ed25519_dalek::Signer as _;
use ed25519_dalek::Verifier as _;
use ed25519_dalek::{Signature, SigningKey, VerifyingKey};
use sha2::Digest as _;
use smart_account::account::SmartAccount;
use smart_account::error::Error;
use smart_account::host::{
    Address, Context, ContractContext, HostEnv, SmartAccountPlugin, SmartAccountPolicy,
};
use smart_account::policy::{ExternalPolicy, SignerPolicy, SignerRole};
use smart_account::proofs::{SignatureProofs, SignerProof};
use smart_account::signer::{Ed25519Signer, Signer, SignerKey};

struct PluginHost {
    on_auth_calls: Vec<u64>,
    on_install_calls: Vec<u64>,
    on_uninstall_calls: Vec<u64>,
    policy_decision_calls: Vec<u64>,
    fail_on_install: bool,
    fail_on_uninstall: bool,
}

impl PluginHost {
    fn new() -> PluginHost {
        PluginHost {
            on_auth_calls: Vec::new(),
            on_install_calls: Vec::new(),
            on_uninstall_calls: Vec::new(),
            policy_decision_calls: Vec::new(),
            fail_on_install: false,
            fail_on_uninstall: false,
        }
    }
}

impl HostEnv for PluginHost {
    fn require_auth(&self, _source: &Address) {}

    fn sha256(&self, data: &Vec<u8>) -> Vec<u8> {
        sha2::Sha256::digest(data.as_slice()).to_vec()
    }

    fn ed25519_verify(&self, public_key: &Vec<u8>, message: &Vec<u8>, signature: &Vec<u8>) {
        let vk = VerifyingKey::from_bytes(public_key.as_slice().try_into().expect("key length"))
            .expect("valid key");
        let sig = Signature::from_bytes(signature.as_slice().try_into().expect("sig length"));
        vk.verify(message.as_slice(), &sig).expect("invalid Ed25519 signature");
    }

    fn secp256r1_verify(&self, _public_key: &Vec<u8>, _digest: &Vec<u8>, _signature: &Vec<u8>) {
        unreachable!()
    }

    fn update_current_contract_wasm(&self, _new_wasm_hash: &Vec<u8>) {}
}

impl SmartAccountPolicy for PluginHost {
    fn on_add(&mut self, _policy: &Address, _source: &Address) -> bool {
        true
    }

    fn on_revoke(&mut self, _policy: &Address, _source: &Address) -> bool {
        true
    }

    fn is_authorized(&mut self, policy: &Address, _source: &Address, _contexts: &Vec<Context>) -> bool {
        self.policy_decision_calls.push(policy.id);
        true
    }
}

impl SmartAccountPlugin for PluginHost {
    fn on_install(&mut self, plugin: &Address, _source: &Address) -> bool {
        self.on_install_calls.push(plugin.id);
        !self.fail_on_install
    }

    fn on_uninstall(&mut self, plugin: &Address, _source: &Address) -> bool {
        self.on_uninstall_calls.push(plugin.id);
        !self.fail_on_uninstall
    }

    fn on_auth(&mut self, plugin: &Address, _source: &Address, _contexts: &Vec<Context>) -> bool {
        self.on_auth_calls.push(plugin.id);
        true
    }
}

const ACCOUNT_ADDRESS: Address = Address { id: 900 };
const PLUGIN: Address = Address { id: 42 };

fn keypair(seed: u8) -> SigningKey {
    SigningKey::from_bytes(&[seed; 32])
}

fn into_signer(sk: &SigningKey, role: SignerRole) -> Signer {
    Signer::Ed25519(Ed25519Signer::new(sk.verifying_key().to_bytes().to_vec()), role)
}

fn sign(sk: &SigningKey, payload: &Vec<u8>) -> (SignerKey, SignerProof) {
    let key = SignerKey::Ed25519(sk.verifying_key().to_bytes().to_vec());
    let sig = sk.sign(payload.as_slice());
    (key, SignerProof::Ed25519(sig.to_bytes().to_vec()))
}

fn token_context() -> Context {
    Context::Contract(ContractContext {
        contract: Address { id: 7777 },
        fn_name: b"transfer".to_vec(),
        args: Vec::new(),
    })
}

#[test]
fn test_uninstall_plugin_persists_removal() {
    let admin = keypair(1);
    let mut host = PluginHost::new();
    let mut account = SmartAccount::__constructor(
        &mut host,
        ACCOUNT_ADDRESS,
        vec![into_signer(&admin, SignerRole::Admin)],
        Vec::new(),
        0,
    )
    .unwrap();

    account.install_plugin(&mut host, PLUGIN).unwrap();

    let payload = vec![41u8; 32];
    let bundle = SignatureProofs(vec![sign(&admin, &payload)]);
    account
        .__check_auth(&mut host, &payload, &bundle, &vec![token_context()], 0)
        .unwrap();

    assert!(account.is_plugin_installed(&PLUGIN));
    assert_eq!(
        host.on_auth_calls.iter().filter(|id| **id == PLUGIN.id).count(),
        1,
        "Plugin should have received on_auth call"
    );

    account.uninstall_plugin(&mut host, PLUGIN).unwrap();
    assert!(!account.is_plugin_installed(&PLUGIN));

    account
        .__check_auth(&mut host, &payload, &bundle, &vec![token_context()], 0)
        .unwrap();
    assert_eq!(
        host.on_auth_calls.iter().filter(|id| **id == PLUGIN.id).count(),
        1,
        "Plugin should NOT receive on_auth after uninstall"
    );
}

#[test]
fn test_uninstall_removes_even_when_hook_fails() {
    let admin = keypair(1);
    let mut host = PluginHost::new();
    let mut account = SmartAccount::__constructor(
        &mut host,
        ACCOUNT_ADDRESS,
        vec![into_signer(&admin, SignerRole::Admin)],
        Vec::new(),
        0,
    )
    .unwrap();

    account.install_plugin(&mut host, PLUGIN).unwrap();
    host.fail_on_uninstall = true;

    let result = account.uninstall_plugin(&mut host, PLUGIN);
    assert!(result.is_ok());
    assert!(!account.is_plugin_installed(&PLUGIN));
    assert_eq!(host.on_uninstall_calls, vec![PLUGIN.id]);

    let payload = vec![41u8; 32];
    let bundle = SignatureProofs(vec![sign(&admin, &payload)]);
    account
        .__check_auth(&mut host, &payload, &bundle, &vec![token_context()], 0)
        .unwrap();
    assert!(host.on_auth_calls.is_empty());
}

#[test]
fn test_install_plugin_hook_failure_leaves_no_trace() {
    let admin = keypair(1);
    let mut host = PluginHost::new();
    let mut account = SmartAccount::__constructor(
        &mut host,
        ACCOUNT_ADDRESS,
        vec![into_signer(&admin, SignerRole::Admin)],
        Vec::new(),
        0,
    )
    .unwrap();

    host.fail_on_install = true;
    let result = account.install_plugin(&mut host, PLUGIN);
    assert_eq!(result.unwrap_err(), Error::PluginInitializationFailed);
    assert!(!account.is_plugin_installed(&PLUGIN));
}

#[test]
fn test_install_duplicate_plugin_rejected() {
    let admin = keypair(1);
    let mut host = PluginHost::new();
    let mut account = SmartAccount::__constructor(
        &mut host,
        ACCOUNT_ADDRESS,
        vec![into_signer(&admin, SignerRole::Admin)],
        Vec::new(),
        0,
    )
    .unwrap();

    account.install_plugin(&mut host, PLUGIN).unwrap();
    let result = account.install_plugin(&mut host, PLUGIN);
    assert_eq!(result.unwrap_err(), Error::PluginAlreadyInstalled);
    assert_eq!(host.on_install_calls, vec![PLUGIN.id]);

    let missing = account.uninstall_plugin(&mut host, Address { id: 43 });
    assert_eq!(missing.unwrap_err(), Error::PluginNotFound);
}

#[test]
fn test_admin_approval_short_circuits_policy_evaluation() {
    let admin = keypair(1);
    let standard = keypair(2);
    let delegate = SignerPolicy::ExternalValidatorPolicy(ExternalPolicy {
        policy_address: Address { id: 55 },
    });
    let mut host = PluginHost::new();
    let account = SmartAccount::__constructor(
        &mut host,
        ACCOUNT_ADDRESS,
        vec![
            into_signer(&standard, SignerRole::Standard(vec![delegate])),
            into_signer(&admin, SignerRole::Admin),
        ],
        Vec::new(),
        0,
    )
    .unwrap();

    let payload = vec![41u8; 32];
    let bundle = SignatureProofs(vec![sign(&standard, &payload), sign(&admin, &payload)]);
    account
        .__check_auth(&mut host, &payload, &bundle, &vec![token_context()], 0)
        .unwrap();
    assert!(
        host.policy_decision_calls.is_empty(),
        "an approving admin signer must short-circuit policy evaluation"
    );
}

#[test]
fn test_end_to_end_account_lifecycle() {
    let admin = keypair(1);
    let mut host = PluginHost::new();
    let mut account = SmartAccount::__constructor(
        &mut host,
        ACCOUNT_ADDRESS,
        vec![into_signer(&admin, SignerRole::Admin)],
        Vec::new(),
        0,
    )
    .unwrap();

    let payload = vec![41u8; 32];
    let bundle = SignatureProofs(vec![sign(&admin, &payload)]);
    account
        .__check_auth(&mut host, &payload, &bundle, &vec![token_context()], 0)
        .unwrap();

    account.install_plugin(&mut host, PLUGIN).unwrap();
    account
        .__check_auth(&mut host, &payload, &bundle, &vec![token_context()], 0)
        .unwrap();
    assert_eq!(
        host.on_auth_calls.iter().filter(|id| **id == PLUGIN.id).count(),
        1,
        "plugin's on_auth must have run exactly once"
    );

    let downgrade =
        account.update_signer(&mut host, into_signer(&admin, SignerRole::Standard(vec![])), 0);
    assert_eq!(downgrade.unwrap_err(), Error::CannotDowngradeLastAdmin);
}
