//! Signature proofs: the per-scheme evidence a signer supplies, and the
//! bundle mapping signer keys to proofs that accompanies an authorization
//! request.

use vstd::prelude::*;

use crate::signer::SignerKey;

verus! {

/// A WebAuthn-style assertion: the authenticator data, the client data the
/// challenge is checked inside, and a 64-byte ECDSA signature.
#[derive(Debug)]
pub struct Secp256r1Signature {
    pub authenticator_data: Vec<u8>,
    pub client_data_json: Vec<u8>,
    pub signature: Vec<u8>,
}

/// Evidence that a signer approved a payload, mirroring the verification
/// schemes.
#[derive(Debug)]
pub enum SignerProof {
    Ed25519(Vec<u8>),
    Secp256r1(Secp256r1Signature),
}

/// The authorization bundle: signer keys paired with their proofs, in
/// bundle order.  A bundle must be non-empty to authorize anything.
#[derive(Debug)]
pub struct SignatureProofs(pub Vec<(SignerKey, SignerProof)>);

} // verus!
