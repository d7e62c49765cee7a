//! Signer identities: scheme-specific key material tagged with a role, and
//! the derived storage key that names a signer uniquely.

use vstd::prelude::*;

use crate::bytes::{bytes_eq, clone_bytes};
use crate::error::Error;
use crate::host::{Address, Context, HostEnv, SmartAccountPolicy};
use crate::policy::{role_denies, role_grants, SignerPolicy, SignerRole, SignerRoleV};
use crate::proofs::SignerProof;
use crate::webauthn;

verus! {

/// An Ed25519 signer: a raw 32-byte public key.
#[derive(Debug)]
pub struct Ed25519Signer {
    pub public_key: Vec<u8>,
}

/// A WebAuthn-style secp256r1 signer: the authenticator's credential id and
/// a 65-byte uncompressed public key.
#[derive(Debug)]
pub struct Secp256r1Signer {
    pub key_id: Vec<u8>,
    pub public_key: Vec<u8>,
}

/// The unique, immutable identity of a signer; used as the storage key.
#[derive(Debug)]
pub enum SignerKey {
    Ed25519(Vec<u8>),
    Secp256r1(Vec<u8>),
}

/// A registered signer: scheme-specific key material plus a role.
#[derive(Debug)]
pub enum Signer {
    Ed25519(Ed25519Signer, SignerRole),
    Secp256r1(Secp256r1Signer, SignerRole),
}

/// The mathematical shape of a signer key.
pub enum SignerKeyV {
    Ed25519(Seq<u8>),
    Secp256r1(Seq<u8>),
}

/// The mathematical shape of a signer: its identity, the public key proofs
/// are verified against, and its role.
pub struct SignerV {
    pub key: SignerKeyV,
    pub public_key: Seq<u8>,
    pub role: SignerRoleV,
}

impl View for SignerKey {
    type V = SignerKeyV;

    open spec fn view(&self) -> SignerKeyV {
        match self {
            SignerKey::Ed25519(pk) => SignerKeyV::Ed25519(pk@),
            SignerKey::Secp256r1(id) => SignerKeyV::Secp256r1(id@),
        }
    }
}

impl View for Signer {
    type V = SignerV;

    open spec fn view(&self) -> SignerV {
        match self {
            Signer::Ed25519(s, role) => SignerV {
                key: SignerKeyV::Ed25519(s.public_key@),
                public_key: s.public_key@,
                role: role@,
            },
            Signer::Secp256r1(s, role) => SignerV {
                key: SignerKeyV::Secp256r1(s.key_id@),
                public_key: s.public_key@,
                role: role@,
            },
        }
    }
}

impl PartialEq for SignerKey {
    fn eq(&self, other: &SignerKey) -> bool {
        match (self, other) {
            (SignerKey::Ed25519(a), SignerKey::Ed25519(b)) => bytes_eq(a, b),
            (SignerKey::Secp256r1(a), SignerKey::Secp256r1(b)) => bytes_eq(a, b),
            _ => false,
        }
    }
}

impl vstd::std_specs::cmp::PartialEqSpecImpl for SignerKey {
    open spec fn obeys_eq_spec() -> bool {
        true
    }

    open spec fn eq_spec(&self, other: &SignerKey) -> bool {
        self@ == other@
    }
}

impl PartialEq for Signer {
    fn eq(&self, other: &Signer) -> bool {
        match (self, other) {
            (Signer::Ed25519(a, ra), Signer::Ed25519(b, rb)) => bytes_eq(
                &a.public_key,
                &b.public_key,
            ) && ra == rb,
            (Signer::Secp256r1(a, ra), Signer::Secp256r1(b, rb)) => bytes_eq(&a.key_id, &b.key_id)
                && bytes_eq(&a.public_key, &b.public_key) && ra == rb,
            _ => false,
        }
    }
}

impl vstd::std_specs::cmp::PartialEqSpecImpl for Signer {
    open spec fn obeys_eq_spec() -> bool {
        true
    }

    open spec fn eq_spec(&self, other: &Signer) -> bool {
        self@ == other@
    }
}

impl Ed25519Signer {
    /// A new Ed25519 signer over the given public key.
    pub fn new(public_key: Vec<u8>) -> (r: Ed25519Signer)
        ensures
            r.public_key@ == public_key@,
    {
        Ed25519Signer { public_key }
    }
}

impl Secp256r1Signer {
    /// A new WebAuthn-style signer over the given credential id and public
    /// key.
    pub fn new(key_id: Vec<u8>, public_key: Vec<u8>) -> (r: Secp256r1Signer)
        ensures
            r.key_id@ == key_id@,
            r.public_key@ == public_key@,
    {
        Secp256r1Signer { key_id, public_key }
    }
}

impl From<Ed25519Signer> for SignerKey {
    fn from(s: Ed25519Signer) -> SignerKey {
        SignerKey::Ed25519(s.public_key)
    }
}

impl vstd::std_specs::convert::FromSpecImpl<Ed25519Signer> for SignerKey {
    open spec fn obeys_from_spec() -> bool {
        true
    }

    open spec fn from_spec(s: Ed25519Signer) -> SignerKey {
        SignerKey::Ed25519(s.public_key)
    }
}

impl From<Secp256r1Signer> for SignerKey {
    fn from(s: Secp256r1Signer) -> SignerKey {
        SignerKey::Secp256r1(s.key_id)
    }
}

impl vstd::std_specs::convert::FromSpecImpl<Secp256r1Signer> for SignerKey {
    open spec fn obeys_from_spec() -> bool {
        true
    }

    open spec fn from_spec(s: Secp256r1Signer) -> SignerKey {
        SignerKey::Secp256r1(s.key_id)
    }
}

impl From<Signer> for SignerKey {
    fn from(s: Signer) -> SignerKey {
        match s {
            Signer::Ed25519(e, _) => SignerKey::Ed25519(e.public_key),
            Signer::Secp256r1(se, _) => SignerKey::Secp256r1(se.key_id),
        }
    }
}

impl vstd::std_specs::convert::FromSpecImpl<Signer> for SignerKey {
    open spec fn obeys_from_spec() -> bool {
        true
    }

    open spec fn from_spec(s: Signer) -> SignerKey {
        match s {
            Signer::Ed25519(e, _) => SignerKey::Ed25519(e.public_key),
            Signer::Secp256r1(se, _) => SignerKey::Secp256r1(se.key_id),
        }
    }
}

/// Copies a policy list.
pub fn clone_policies(ps: &Vec<SignerPolicy>) -> (r: Vec<SignerPolicy>)
    ensures
        r@ == ps@,
{
    let mut r: Vec<SignerPolicy> = Vec::new();
    let mut i: usize = 0;
    while i < ps.len()
        invariant
            i <= ps@.len(),
            r@ == ps@.take(i as int),
        decreases ps@.len() - i,
    {
        r.push(ps[i]);
        i = i + 1;
        proof {
            assert(r@ =~= ps@.take(i as int));
        }
    }
    proof {
        assert(ps@.take(ps@.len() as int) =~= ps@);
    }
    r
}

/// Copies a role.
pub fn clone_role(role: &SignerRole) -> (r: SignerRole)
    ensures
        r@ == role@,
{
    match role {
        SignerRole::Admin => SignerRole::Admin,
        SignerRole::Standard(ps) => SignerRole::Standard(clone_policies(ps)),
    }
}

/// Copies a signer.
pub fn clone_signer(s: &Signer) -> (r: Signer)
    ensures
        r@ == s@,
        r is Ed25519 <==> s is Ed25519,
{
    match s {
        Signer::Ed25519(e, role) => Signer::Ed25519(
            Ed25519Signer { public_key: clone_bytes(&e.public_key) },
            clone_role(role),
        ),
        Signer::Secp256r1(se, role) => Signer::Secp256r1(
            Secp256r1Signer {
                key_id: clone_bytes(&se.key_id),
                public_key: clone_bytes(&se.public_key),
            },
            clone_role(role),
        ),
    }
}

/// True when the proof would pass this signer's verification: its variant
/// matches the signer's scheme and, for a WebAuthn assertion, the
/// recoverable client-data checks succeed.  The cryptographic check itself
/// has no recoverable failure — the host aborts the call instead.
pub open spec fn checkable_v(s: SignerV, p: SignerProof, payload: Seq<u8>) -> bool {
    match s.key {
        SignerKeyV::Ed25519(_) => p is Ed25519,
        SignerKeyV::Secp256r1(_) => p matches SignerProof::Secp256r1(sig)
            && webauthn::secp_verify_outcome(sig.client_data_json@, payload) is Ok,
    }
}

/// The exact typed outcome of verifying `p` against a signer of shape `s`:
/// a wrong-scheme proof is `InvalidProofType`, a WebAuthn assertion gets
/// the recoverable client-data checks, and everything else succeeds —
/// cryptographically invalid material aborts the call instead of
/// returning.
pub open spec fn verify_outcome(s: SignerV, p: SignerProof, payload: Seq<u8>) -> Result<
    (),
    Error,
> {
    match s.key {
        SignerKeyV::Ed25519(_) => match p {
            SignerProof::Ed25519(_) => Ok(()),
            SignerProof::Secp256r1(_) => Err(Error::InvalidProofType),
        },
        SignerKeyV::Secp256r1(_) => match p {
            SignerProof::Secp256r1(sig) => webauthn::secp_verify_outcome(
                sig.client_data_json@,
                payload,
            ),
            SignerProof::Ed25519(_) => Err(Error::InvalidProofType),
        },
    }
}

impl Ed25519Signer {
    /// Verifies an Ed25519 proof against the 32-byte payload.  A proof of
    /// the wrong variant is rejected with a typed error; an invalid
    /// signature aborts the whole call inside the host primitive.
    pub fn verify<E: HostEnv>(&self, env: &E, payload: &Vec<u8>, prf: &SignerProof) -> (r:
        Result<(), Error>)
        ensures
            prf is Ed25519 ==> r == Ok::<(), Error>(()),
            prf is Secp256r1 ==> r == Err::<(), Error>(Error::InvalidProofType),
    {
        match prf {
            SignerProof::Ed25519(signature) => {
                env.ed25519_verify(&self.public_key, payload, signature);
                Ok(())
            },
            SignerProof::Secp256r1(_) => Err(Error::InvalidProofType),
        }
    }
}

impl Secp256r1Signer {
    /// Verifies a WebAuthn assertion: the signed message is the
    /// authenticator data followed by the hash of the client data; after
    /// cryptographic success (which otherwise aborts the call), the client
    /// data's challenge must equal the re-encoded payload.
    pub fn verify<E: HostEnv>(&self, env: &E, payload: &Vec<u8>, prf: &SignerProof) -> (r:
        Result<(), Error>)
        requires
            payload@.len() == 32,
        ensures
            prf matches SignerProof::Secp256r1(sig) ==> r == webauthn::secp_verify_outcome(
                sig.client_data_json@,
                payload@,
            ),
            prf is Ed25519 ==> r == Err::<(), Error>(Error::InvalidProofType),
    {
        match prf {
            SignerProof::Secp256r1(sig) => {
                let client_data_hash = env.sha256(&sig.client_data_json);
                let mut signed: Vec<u8> = clone_bytes(&sig.authenticator_data);
                let mut k: usize = 0;
                while k < client_data_hash.len()
                    decreases client_data_hash@.len() - k,
                {
                    signed.push(client_data_hash[k]);
                    k = k + 1;
                }
                let digest = env.sha256(&signed);
                env.secp256r1_verify(&self.public_key, &digest, &sig.signature);
                if sig.client_data_json.len() > 1024 {
                    Err(Error::InvalidWebauthnClientDataJson)
                } else {
                    match webauthn::extract_challenge(&sig.client_data_json) {
                        None => Err(Error::InvalidWebauthnClientDataJson),
                        Some(challenge) => {
                            let expected = webauthn::b64url_encode(payload);
                            if bytes_eq(&challenge, &expected) {
                                Ok(())
                            } else {
                                Err(Error::ClientDataJsonIncorrectChallenge)
                            }
                        },
                    }
                }
            },
            SignerProof::Ed25519(_) => Err(Error::InvalidProofType),
        }
    }
}

impl Signer {
    /// Verifies `proof` against the 32-byte payload under this signer's
    /// scheme.  Success is exactly [`proof_checkable`]; cryptographically
    /// invalid material never returns at all.
    pub fn verify<E: HostEnv>(&self, env: &E, payload: &Vec<u8>, prf: &SignerProof) -> (r:
        Result<(), Error>)
        requires
            payload@.len() == 32,
        ensures
            r == verify_outcome(self@, *prf, payload@),
            r is Ok <==> checkable_v(self@, *prf, payload@),
    {
        match self {
            Signer::Ed25519(s, _) => s.verify(env, payload, prf),
            Signer::Secp256r1(s, _) => s.verify(env, payload, prf),
        }
    }

    /// Whether this signer approves the requested contexts, by its role.
    pub fn is_authorized<E: SmartAccountPolicy>(
        &self,
        env: &mut E,
        me: &Address,
        contexts: &Vec<Context>,
        now: u64,
    ) -> (r: bool)
        ensures
            role_grants(self@.role, contexts@, *me, now) ==> r,
            role_denies(self@.role, contexts@, *me, now) ==> !r,
    {
        match self {
            Signer::Ed25519(_, role) => role.is_authorized(env, me, contexts, now),
            Signer::Secp256r1(_, role) => role.is_authorized(env, me, contexts, now),
        }
    }

    /// The signer's role.
    pub fn role(&self) -> (r: SignerRole)
        ensures
            r@ == self@.role,
    {
        match self {
            Signer::Ed25519(_, role) => clone_role(role),
            Signer::Secp256r1(_, role) => clone_role(role),
        }
    }

    /// The signer's storage key, without consuming the signer.
    pub fn key(&self) -> (r: SignerKey)
        ensures
            r@ == self@.key,
    {
        match self {
            Signer::Ed25519(e, _) => SignerKey::Ed25519(clone_bytes(&e.public_key)),
            Signer::Secp256r1(se, _) => SignerKey::Secp256r1(clone_bytes(&se.key_id)),
        }
    }

    /// True when `key` is this signer's identity.
    pub fn matches_key(&self, key: &SignerKey) -> (r: bool)
        ensures
            r == (self@.key == key@),
    {
        match (self, key) {
            (Signer::Ed25519(s, _), SignerKey::Ed25519(k)) => bytes_eq(&s.public_key, k),
            (Signer::Secp256r1(s, _), SignerKey::Secp256r1(k)) => bytes_eq(&s.key_id, k),
            _ => false,
        }
    }
}

} // verus!
