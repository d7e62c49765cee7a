//! A multi-signature smart-account authorization engine.
//!
//! The crate models an account that holds a set of registered signers, each
//! tagged with a role (`Admin` or `Standard`) and, for standard signers, a
//! list of fine-grained policies.  Given a bundle of signature proofs and a
//! list of operation contexts it decides whether the requested operations are
//! authorized, and it manages the lifecycle of signers, policies and plugins.
//!
//! Everything the host chain provides — cryptographic primitives, the ledger
//! clock, and synchronous calls into plugin or policy contracts — is reached
//! through narrow interfaces declared in [`host`], so the decision logic
//! itself is ordinary data manipulation and is verified.

pub mod account;
pub mod authorizer;
pub mod bytes;
pub mod error;
pub mod events;
pub mod host;
pub mod policy;
pub mod proofs;
pub mod signer;
pub mod storage;
pub mod upgrade;
pub mod webauthn;
