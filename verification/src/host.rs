//! The account's view of the host chain: contract addresses, operation
//! contexts, and the interfaces through which the host performs cryptography
//! and routes synchronous calls into other contracts.

use vstd::prelude::*;

verus! {

/// Identifies a contract (the account itself, a plugin, a policy delegate,
/// or the target of a requested operation).  The engine only ever compares
/// addresses for equality, so an opaque numeric identifier suffices.
#[derive(Clone, Copy, Debug, PartialEq, Eq, Structural)]
pub struct Address {
    pub id: u64,
}

/// One requested sub-operation on a contract: the callee, the function to
/// invoke and its serialized arguments.  Only the callee address takes part
/// in authorization decisions.
pub struct ContractContext {
    pub contract: Address,
    pub fn_name: Vec<u8>,
    pub args: Vec<u8>,
}

/// An externally supplied description of one requested sub-operation.
/// A context is self-administrative when it targets the account itself.
pub enum Context {
    Contract(ContractContext),
    CreateContractHostFn,
}

/// Host facilities that the engine consumes but never reproduces: signature
/// verification primitives, hashing, authorization of the current call, and
/// code replacement.  No method carries an `ensures` clause — nothing is
/// assumed about the host beyond the shape of each call.  The verification
/// primitives follow the host convention of aborting the whole call (never
/// returning) when the signature is invalid.
pub trait HostEnv {
    /// Demands the host's authorization for `source`; aborts the call when
    /// it is not given.
    fn require_auth(&self, source: &Address);

    /// SHA-256 digest of `data`.
    fn sha256(&self, data: &Vec<u8>) -> Vec<u8>;

    /// Verifies an Ed25519 signature; aborts the call when invalid.
    fn ed25519_verify(&self, public_key: &Vec<u8>, message: &Vec<u8>, signature: &Vec<u8>);

    /// Verifies a secp256r1 ECDSA signature over a 32-byte digest; aborts
    /// the call when invalid.
    fn secp256r1_verify(&self, public_key: &Vec<u8>, digest: &Vec<u8>, signature: &Vec<u8>);

    /// Replaces the code that the account executes.
    fn update_current_contract_wasm(&self, new_wasm_hash: &Vec<u8>);
}

/// The lifecycle and decision entry points of an external policy contract.
/// The receiver stands for the host's call-routing state; `policy` names the
/// delegate contract being invoked and `source` is the account making the
/// call.  Each hook reports success as `true`; `is_authorized` returns the
/// delegate's decision, with any call failure already folded into `false`.
pub trait SmartAccountPolicy {
    fn on_add(&mut self, policy: &Address, source: &Address) -> bool;

    fn on_revoke(&mut self, policy: &Address, source: &Address) -> bool;

    fn is_authorized(&mut self, policy: &Address, source: &Address, contexts: &Vec<Context>) -> bool;
}

/// The hook entry points of a plugin contract, routed by plugin address just
/// as [`SmartAccountPolicy`] routes by delegate address.  Each hook reports
/// success as `true`, with call failures folded into `false`.
pub trait SmartAccountPlugin {
    fn on_install(&mut self, plugin: &Address, source: &Address) -> bool;

    fn on_uninstall(&mut self, plugin: &Address, source: &Address) -> bool;

    fn on_auth(&mut self, plugin: &Address, source: &Address, contexts: &Vec<Context>) -> bool;
}

} // verus!
