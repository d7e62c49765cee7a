//! The authorizer: verifies every proof of a bundle against the registered
//! signers, then asks the signers — admins first — whether they authorize
//! the requested contexts, and finally notifies the installed plugins.

use vstd::prelude::*;

use crate::account::{seq_key_index, SmartAccount};
use crate::error::Error;
use crate::host::{Address, Context, HostEnv, SmartAccountPlugin, SmartAccountPolicy};
use crate::policy::{role_denies, role_grants, SignerRole};
use crate::signer::{checkable_v, verify_outcome, Signer};
use crate::proofs::{SignatureProofs, SignerProof};
use crate::signer::SignerKey;

verus! {

/// Authorization service over an account's signer registry.
pub struct Authorizer;

/// True when one bundle pair names a registered signer and its proof
/// passes that signer's verification checks.
pub open spec fn pair_resolves(
    a: SmartAccount,
    pair: (SignerKey, SignerProof),
    payload: Seq<u8>,
) -> bool {
    a.spec_has_signer(pair.0@) && checkable_v(a.signer_at(pair.0@), pair.1, payload)
}

/// True when every pair of the bundle names a registered signer and its
/// proof passes that signer's verification checks.
pub open spec fn bundle_resolves(
    a: SmartAccount,
    b: SignatureProofs,
    payload: Seq<u8>,
) -> bool {
    forall|k: int| 0 <= k < b.0@.len() ==> pair_resolves(a, #[trigger] b.0@[k], payload)
}

/// True when some pair's signer authorizes the contexts no matter how any
/// external delegate answers.
pub open spec fn some_pair_grants(
    a: SmartAccount,
    b: SignatureProofs,
    contexts: Seq<Context>,
    now: u64,
) -> bool {
    exists|k: int|
        0 <= k < b.0@.len() && role_grants(
            a.signer_at((#[trigger] b.0@[k]).0@).role,
            contexts,
            a.address,
            now,
        )
}

/// True when every pair's signer rejects the contexts no matter how any
/// external delegate answers.
pub open spec fn all_pairs_deny(
    a: SmartAccount,
    b: SignatureProofs,
    contexts: Seq<Context>,
    now: u64,
) -> bool {
    forall|k: int|
        0 <= k < b.0@.len() ==> role_denies(
            a.signer_at((#[trigger] b.0@[k]).0@).role,
            contexts,
            a.address,
            now,
        )
}

/// When the pairs before `i` all resolve and pair `i` does not, `i` is
/// the only index whose whole prefix resolves while it itself fails.
proof fn lemma_first_unresolved(a: SmartAccount, b: SignatureProofs, payload: Seq<u8>, i: int)
    requires
        0 <= i < b.0@.len(),
        forall|k: int| 0 <= k < i ==> pair_resolves(a, #[trigger] b.0@[k], payload),
        !pair_resolves(a, b.0@[i], payload),
    ensures
        forall|k: int|
            (0 <= k < b.0@.len() && (forall|j: int|
                0 <= j < k ==> pair_resolves(a, #[trigger] b.0@[j], payload)) && !pair_resolves(
                a,
                #[trigger] b.0@[k],
                payload,
            )) ==> k == i,
{
    assert forall|k: int|
        (0 <= k < b.0@.len() && (forall|j: int|
            0 <= j < k ==> pair_resolves(a, #[trigger] b.0@[j], payload)) && !pair_resolves(
            a,
            #[trigger] b.0@[k],
            payload,
        )) implies k == i by {
        if k < i {
            assert(pair_resolves(a, b.0@[k], payload));
        } else if k > i {
            assert(pair_resolves(a, b.0@[i], payload));
        }
    }
}

impl Authorizer {
    /// Decides a bundle: an empty bundle is rejected outright; every proof
    /// must name a registered signer and verify (a cryptographically
    /// invalid signature aborts the whole call inside the host); then
    /// admin signers are consulted first, standard signers second, in
    /// bundle order, and the first approval suffices.  A single admin
    /// signer in the bundle therefore always authorizes; a bundle whose
    /// signers all reject deterministically — every standard signer facing
    /// a self-administrative context, or carrying a failed time window —
    /// is always refused with `InsufficientPermissions`.
    pub fn check<E: HostEnv + SmartAccountPolicy>(
        account: &SmartAccount,
        env: &mut E,
        signature_payload: &Vec<u8>,
        auth_payloads: &SignatureProofs,
        auth_contexts: &Vec<Context>,
        now: u64,
    ) -> (r: Result<(), Error>)
        requires
            account.wf(),
            signature_payload@.len() == 32,
        ensures
            auth_payloads.0@.len() == 0 <==> r == Err::<(), Error>(Error::NoProofsInAuthEntry),
            r is Ok ==> bundle_resolves(*account, *auth_payloads, signature_payload@),
            (auth_payloads.0@.len() > 0 && bundle_resolves(
                *account,
                *auth_payloads,
                signature_payload@,
            ) && some_pair_grants(*account, *auth_payloads, auth_contexts@, now)) ==> r is Ok,
            (auth_payloads.0@.len() > 0 && bundle_resolves(
                *account,
                *auth_payloads,
                signature_payload@,
            ) && all_pairs_deny(*account, *auth_payloads, auth_contexts@, now)) ==> r == Err::<
                (),
                Error,
            >(Error::InsufficientPermissions),
            auth_payloads.0@.len() == 0 ==> *final(env) == *old(env),
            forall|k: int|
                (0 <= k < auth_payloads.0@.len() && (forall|j: int|
                    0 <= j < k ==> pair_resolves(
                        *account,
                        #[trigger] auth_payloads.0@[j],
                        signature_payload@,
                    )) && !pair_resolves(
                    *account,
                    #[trigger] auth_payloads.0@[k],
                    signature_payload@,
                )) ==> (if !account.spec_has_signer(auth_payloads.0@[k].0@) {
                    r == Err::<(), Error>(Error::SignerNotFound)
                } else {
                    r == verify_outcome(
                        account.signer_at(auth_payloads.0@[k].0@),
                        auth_payloads.0@[k].1,
                        signature_payload@,
                    )
                }),
    {
        if auth_payloads.0.len() == 0 {
            return Err(Error::NoProofsInAuthEntry);
        }
        let n = auth_payloads.0.len();
        let nsig = account.signers.len();
        let mut admin_idxs: Vec<usize> = Vec::new();
        let mut std_idxs: Vec<usize> = Vec::new();
        let ghost mut resolved_idx: Seq<int> = Seq::empty();
        let mut i: usize = 0;
        while i < n
            invariant
                account.wf(),
                signature_payload@.len() == 32,
                n == auth_payloads.0@.len(),
                0 < n,
                i <= n,
                resolved_idx.len() == i as int,
                forall|k: int|
                    0 <= k < i ==> #[trigger] resolved_idx[k] == seq_key_index(
                        account.signers@,
                        auth_payloads.0@[k].0@,
                    ),
                forall|k: int|
                    0 <= k < i ==> 0 <= #[trigger] resolved_idx[k] < account.signers@.len(),
                forall|k: int|
                    0 <= k < i ==> pair_resolves(
                        *account,
                        #[trigger] auth_payloads.0@[k],
                        signature_payload@,
                    ),
                forall|k: int|
                    0 <= k < i ==> (admin_idxs@.contains((#[trigger] resolved_idx[k]) as usize)
                        || std_idxs@.contains(resolved_idx[k] as usize)),
                forall|t: int|
                    0 <= t < admin_idxs@.len() ==> (#[trigger] admin_idxs@[t])
                        < account.signers@.len() && account.signers@[admin_idxs@[t] as int]@.role
                        is Admin,
                forall|t: int|
                    0 <= t < std_idxs@.len() ==> (#[trigger] std_idxs@[t])
                        < account.signers@.len() && account.signers@[std_idxs@[t] as int]@.role
                        is Standard,
                all_pairs_deny(*account, *auth_payloads, auth_contexts@, now) ==> forall|v: int|
                    0 <= v < admin_idxs@.len() ==> role_denies(
                        account.signers@[(#[trigger] admin_idxs@[v]) as int]@.role,
                        auth_contexts@,
                        account.address,
                        now,
                    ),
                all_pairs_deny(*account, *auth_payloads, auth_contexts@, now) ==> forall|v: int|
                    0 <= v < std_idxs@.len() ==> role_denies(
                        account.signers@[(#[trigger] std_idxs@[v]) as int]@.role,
                        auth_contexts@,
                        account.address,
                        now,
                    ),
            decreases n - i,
        {
            let pair = &auth_payloads.0[i];
            let j = match account.find_signer(&pair.0) {
                None => {
                    proof {
                        assert(!pair_resolves(
                            *account,
                            auth_payloads.0@[i as int],
                            signature_payload@,
                        ));
                        lemma_first_unresolved(*account, *auth_payloads, signature_payload@, i as int);
                    }
                    return Err(Error::SignerNotFound);
                },
                Some(j) => j,
            };
            proof {
                crate::account::lemma_key_index_is(account.signers@, j as int);
            }
            match account.signers[j].verify(env, signature_payload, &pair.1) {
                Ok(_) => {},
                Err(e) => {
                    proof {
                        assert(account.signer_at(auth_payloads.0@[i as int].0@)
                            == account.signers@[j as int]@);
                        assert(!pair_resolves(
                            *account,
                            auth_payloads.0@[i as int],
                            signature_payload@,
                        ));
                        lemma_first_unresolved(*account, *auth_payloads, signature_payload@, i as int);
                    }
                    return Err(e);
                },
            }
            let ghost old_admin = admin_idxs@;
            let ghost old_std = std_idxs@;
            let ghost old_resolved = resolved_idx;
            let is_admin = match &account.signers[j] {
                Signer::Ed25519(_, SignerRole::Admin) => true,
                Signer::Secp256r1(_, SignerRole::Admin) => true,
                _ => false,
            };
            if is_admin {
                admin_idxs.push(j);
            } else {
                std_idxs.push(j);
            }
            proof {
                resolved_idx = resolved_idx.push(j as int);
            }
            i = i + 1;
            proof {
                assert(resolved_idx[(i - 1) as int] == j as int);
                assert(forall|k: int| 0 <= k < i - 1 ==> #[trigger] resolved_idx[k]
                    == old_resolved[k]);
                if is_admin {
                    assert(admin_idxs@[old_admin.len() as int] == j);
                    assert(admin_idxs@.contains(j));
                    assert forall|x: usize| old_admin.contains(x) implies admin_idxs@.contains(
                        x,
                    ) by {
                        let t = choose|t: int| 0 <= t < old_admin.len() && old_admin[t] == x;
                        assert(admin_idxs@[t] == x);
                    }
                } else {
                    assert(std_idxs@[old_std.len() as int] == j);
                    assert(std_idxs@.contains(j));
                    assert forall|x: usize| old_std.contains(x) implies std_idxs@.contains(x) by {
                        let t = choose|t: int| 0 <= t < old_std.len() && old_std[t] == x;
                        assert(std_idxs@[t] == x);
                    }
                }
                if all_pairs_deny(*account, *auth_payloads, auth_contexts@, now) {
                    assert(role_denies(
                        account.signer_at((auth_payloads.0@[(i - 1) as int]).0@).role,
                        auth_contexts@,
                        account.address,
                        now,
                    ));
                    assert(account.signer_at(auth_payloads.0@[(i - 1) as int].0@)
                        == account.signers@[j as int]@);
                }
                assert forall|k: int| 0 <= k < i implies (admin_idxs@.contains(
                    (#[trigger] resolved_idx[k]) as usize,
                ) || std_idxs@.contains(resolved_idx[k] as usize)) by {
                    if k < i - 1 {
                        assert(old_admin.contains(old_resolved[k] as usize) || old_std.contains(
                            old_resolved[k] as usize,
                        ));
                        assert(resolved_idx[k] == old_resolved[k]);
                    } else {
                        assert(resolved_idx[k] == j as int);
                    }
                }
            }
        }
        proof {
            assert(bundle_resolves(*account, *auth_payloads, signature_payload@));
        }
        let mut t: usize = 0;
        while t < admin_idxs.len()
            invariant
                account.wf(),
                n == auth_payloads.0@.len(),
                0 < n,
                t <= admin_idxs@.len(),
                bundle_resolves(*account, *auth_payloads, signature_payload@),
                resolved_idx.len() == n as int,
                forall|k: int|
                    0 <= k < n ==> #[trigger] resolved_idx[k] == seq_key_index(
                        account.signers@,
                        auth_payloads.0@[k].0@,
                    ),
                forall|k: int|
                    0 <= k < n ==> 0 <= #[trigger] resolved_idx[k] < account.signers@.len(),
                forall|k: int|
                    0 <= k < n ==> (admin_idxs@.contains((#[trigger] resolved_idx[k]) as usize)
                        || std_idxs@.contains(resolved_idx[k] as usize)),
                forall|v: int|
                    0 <= v < admin_idxs@.len() ==> (#[trigger] admin_idxs@[v])
                        < account.signers@.len() && account.signers@[admin_idxs@[v] as int]@.role
                        is Admin,
                forall|v: int|
                    0 <= v < std_idxs@.len() ==> (#[trigger] std_idxs@[v])
                        < account.signers@.len() && account.signers@[std_idxs@[v] as int]@.role
                        is Standard,
                all_pairs_deny(*account, *auth_payloads, auth_contexts@, now) ==> forall|v: int|
                    0 <= v < admin_idxs@.len() ==> role_denies(
                        account.signers@[(#[trigger] admin_idxs@[v]) as int]@.role,
                        auth_contexts@,
                        account.address,
                        now,
                    ),
                all_pairs_deny(*account, *auth_payloads, auth_contexts@, now) ==> forall|v: int|
                    0 <= v < std_idxs@.len() ==> role_denies(
                        account.signers@[(#[trigger] std_idxs@[v]) as int]@.role,
                        auth_contexts@,
                        account.address,
                        now,
                    ),
                forall|u: int|
                    0 <= u < t ==> !role_grants(
                        account.signers@[(#[trigger] admin_idxs@[u]) as int]@.role,
                        auth_contexts@,
                        account.address,
                        now,
                    ),
            decreases admin_idxs@.len() - t,
        {
            let idx = admin_idxs[t];
            let authorized = account.signers[idx].is_authorized(
                env,
                &account.address,
                auth_contexts,
                now,
            );
            if authorized {
                proof {
                    if all_pairs_deny(*account, *auth_payloads, auth_contexts@, now) {
                        assert(role_denies(
                            account.signers@[(admin_idxs@[t as int]) as int]@.role,
                            auth_contexts@,
                            account.address,
                            now,
                        ));
                    }
                }
                return Ok(());
            }
            t = t + 1;
        }
        let mut u: usize = 0;
        while u < std_idxs.len()
            invariant
                account.wf(),
                n == auth_payloads.0@.len(),
                0 < n,
                u <= std_idxs@.len(),
                bundle_resolves(*account, *auth_payloads, signature_payload@),
                resolved_idx.len() == n as int,
                forall|k: int|
                    0 <= k < n ==> #[trigger] resolved_idx[k] == seq_key_index(
                        account.signers@,
                        auth_payloads.0@[k].0@,
                    ),
                forall|k: int|
                    0 <= k < n ==> 0 <= #[trigger] resolved_idx[k] < account.signers@.len(),
                forall|k: int|
                    0 <= k < n ==> (admin_idxs@.contains((#[trigger] resolved_idx[k]) as usize)
                        || std_idxs@.contains(resolved_idx[k] as usize)),
                forall|v: int|
                    0 <= v < admin_idxs@.len() ==> (#[trigger] admin_idxs@[v])
                        < account.signers@.len() && !role_grants(
                        account.signers@[admin_idxs@[v] as int]@.role,
                        auth_contexts@,
                        account.address,
                        now,
                    ),
                forall|v: int|
                    0 <= v < std_idxs@.len() ==> (#[trigger] std_idxs@[v])
                        < account.signers@.len() && account.signers@[std_idxs@[v] as int]@.role
                        is Standard,
                all_pairs_deny(*account, *auth_payloads, auth_contexts@, now) ==> forall|v: int|
                    0 <= v < std_idxs@.len() ==> role_denies(
                        account.signers@[(#[trigger] std_idxs@[v]) as int]@.role,
                        auth_contexts@,
                        account.address,
                        now,
                    ),
                forall|v: int|
                    0 <= v < u ==> !role_grants(
                        account.signers@[(#[trigger] std_idxs@[v]) as int]@.role,
                        auth_contexts@,
                        account.address,
                        now,
                    ),
            decreases std_idxs@.len() - u,
        {
            let idx = std_idxs[u];
            let authorized = account.signers[idx].is_authorized(
                env,
                &account.address,
                auth_contexts,
                now,
            );
            if authorized {
                proof {
                    if all_pairs_deny(*account, *auth_payloads, auth_contexts@, now) {
                        assert(role_denies(
                            account.signers@[(std_idxs@[u as int]) as int]@.role,
                            auth_contexts@,
                            account.address,
                            now,
                        ));
                    }
                }
                return Ok(());
            }
            u = u + 1;
        }
        proof {
            if some_pair_grants(*account, *auth_payloads, auth_contexts@, now) {
                let k = choose|k: int|
                    0 <= k < auth_payloads.0@.len() && role_grants(
                        account.signer_at((#[trigger] auth_payloads.0@[k]).0@).role,
                        auth_contexts@,
                        account.address,
                        now,
                    );
                let idx = resolved_idx[k];
                assert(0 <= idx < account.signers@.len());
                assert(account.signers@.len() == nsig as int);
                assert(idx == (idx as usize) as int);
                assert(account.signer_at(auth_payloads.0@[k].0@) == account.signers@[idx]@);
                if admin_idxs@.contains(idx as usize) {
                    let v = choose|v: int|
                        0 <= v < admin_idxs@.len() && admin_idxs@[v] == idx as usize;
                    assert(!role_grants(
                        account.signers@[admin_idxs@[v] as int]@.role,
                        auth_contexts@,
                        account.address,
                        now,
                    ));
                } else {
                    assert(std_idxs@.contains(idx as usize));
                    let v = choose|v: int| 0 <= v < std_idxs@.len() && std_idxs@[v] == idx as usize;
                    assert(!role_grants(
                        account.signers@[std_idxs@[v] as int]@.role,
                        auth_contexts@,
                        account.address,
                        now,
                    ));
                }
            }
        }
        Err(Error::InsufficientPermissions)
    }

    /// Invokes every installed plugin's `on_auth` hook, in installation
    /// order; the first rejection vetoes the whole authorization.
    pub fn call_plugins_on_auth<E: SmartAccountPlugin>(
        account: &SmartAccount,
        env: &mut E,
        auth_contexts: &Vec<Context>,
    ) -> (r: Result<(), Error>)
        ensures
            r is Err ==> r == Err::<(), Error>(Error::PluginOnAuthFailed),
            account.plugins@.len() == 0 ==> r is Ok && *final(env) == *old(env),
    {
        let mut i: usize = 0;
        while i < account.plugins.len()
            invariant
                i <= account.plugins@.len(),
                account.plugins@.len() == 0 ==> *env == *old(env),
            decreases account.plugins@.len() - i,
        {
            let hook_ok = env.on_auth(&account.plugins[i], &account.address, auth_contexts);
            if !hook_ok {
                return Err(Error::PluginOnAuthFailed);
            }
            i = i + 1;
        }
        Ok(())
    }
}

impl SmartAccount {
    /// The host's authorization entry point: verifies the bundle and
    /// resolves authorization, then gives every installed plugin's
    /// `on_auth` hook a veto.
    pub fn __check_auth<E: HostEnv + SmartAccountPolicy + SmartAccountPlugin>(
        &self,
        env: &mut E,
        signature_payload: &Vec<u8>,
        auth_payloads: &SignatureProofs,
        auth_contexts: &Vec<Context>,
        now: u64,
    ) -> (r: Result<(), Error>)
        requires
            self.wf(),
            signature_payload@.len() == 32,
        ensures
            auth_payloads.0@.len() == 0 ==> r == Err::<(), Error>(Error::NoProofsInAuthEntry),
            r is Ok ==> bundle_resolves(*self, *auth_payloads, signature_payload@),
            (auth_payloads.0@.len() > 0 && bundle_resolves(*self, *auth_payloads, signature_payload@)
                && all_pairs_deny(*self, *auth_payloads, auth_contexts@, now)) ==> r == Err::<
                (),
                Error,
            >(Error::InsufficientPermissions),
            (auth_payloads.0@.len() > 0 && bundle_resolves(*self, *auth_payloads, signature_payload@)
                && some_pair_grants(*self, *auth_payloads, auth_contexts@, now)
                && self.plugins@.len() == 0) ==> r is Ok,
            auth_payloads.0@.len() == 0 ==> *final(env) == *old(env),
            forall|k: int|
                (0 <= k < auth_payloads.0@.len() && (forall|j: int|
                    0 <= j < k ==> pair_resolves(
                        *self,
                        #[trigger] auth_payloads.0@[j],
                        signature_payload@,
                    )) && !pair_resolves(
                    *self,
                    #[trigger] auth_payloads.0@[k],
                    signature_payload@,
                )) ==> (if !self.spec_has_signer(auth_payloads.0@[k].0@) {
                    r == Err::<(), Error>(Error::SignerNotFound)
                } else {
                    r == verify_outcome(
                        self.signer_at(auth_payloads.0@[k].0@),
                        auth_payloads.0@[k].1,
                        signature_payload@,
                    )
                }),
    {
        match Authorizer::check(self, env, signature_payload, auth_payloads, auth_contexts, now) {
            Ok(_) => {},
            Err(e) => {
                return Err(e);
            },
        }
        match Authorizer::call_plugins_on_auth(self, env, auth_contexts) {
            Ok(_) => {},
            Err(e) => {
                return Err(e);
            },
        }
        Ok(())
    }
}

} // verus!
