//! Signer roles and the policies a standard signer can carry: a pure
//! time-window predicate over the ledger clock, and delegation to an
//! external policy contract.

use vstd::prelude::*;

use crate::error::Error;
use crate::host::{Address, Context, SmartAccountPolicy};

verus! {

/// Authorizes exactly while the ledger time lies inside the closed window
/// `[not_before, not_after]`.
#[derive(Clone, Copy, Debug, PartialEq, Eq, Structural)]
pub struct TimeBasedPolicy {
    pub not_before: u64,
    pub not_after: u64,
}

/// Defers the authorization decision and the lifecycle callbacks to the
/// contract at `policy_address`.
#[derive(Clone, Copy, Debug, PartialEq, Eq, Structural)]
pub struct ExternalPolicy {
    pub policy_address: Address,
}

/// A policy attached to a standard signer.  Policies are value types
/// compared by structural equality.
#[derive(Clone, Copy, Debug, PartialEq, Eq, Structural)]
pub enum SignerPolicy {
    TimeWindowPolicy(TimeBasedPolicy),
    ExternalValidatorPolicy(ExternalPolicy),
}

/// The role of a registered signer: unrestricted, or restricted by a list
/// of policies.
#[derive(Debug)]
pub enum SignerRole {
    Admin,
    Standard(Vec<SignerPolicy>),
}

/// The mathematical shape of a role: the policy list as a sequence.
pub enum SignerRoleV {
    Admin,
    Standard(Seq<SignerPolicy>),
}

impl View for SignerRole {
    type V = SignerRoleV;

    open spec fn view(&self) -> SignerRoleV {
        match self {
            SignerRole::Admin => SignerRoleV::Admin,
            SignerRole::Standard(ps) => SignerRoleV::Standard(ps@),
        }
    }
}

/// True when the ledger time `now` lies inside the closed window of `p`.
pub open spec fn time_window_passes(p: TimeBasedPolicy, now: u64) -> bool {
    p.not_before <= now <= p.not_after
}

/// The outcome of attaching a time-window policy at ledger time `now`:
/// a window that already ended is rejected, then an empty window.
pub open spec fn time_window_on_add(p: TimeBasedPolicy, now: u64) -> Result<(), Error> {
    if p.not_after < now {
        Err(Error::InvalidNotAfterTime)
    } else if p.not_before > p.not_after {
        Err(Error::InvalidTimeRange)
    } else {
        Ok(())
    }
}

/// True when the context is a contract call targeting `me`.
pub open spec fn context_targets(c: Context, me: Address) -> bool {
    c matches Context::Contract(cc) && cc.contract == me
}

/// True when some context targets the account itself, making the requested
/// batch self-administrative.
pub open spec fn is_self_targeting(contexts: Seq<Context>, me: Address) -> bool {
    exists|i: int| 0 <= i < contexts.len() && context_targets(#[trigger] contexts[i], me)
}

/// True when `p` authorizes independently of any external contract:
/// it is a time window containing `now`.
pub open spec fn policy_grants(p: SignerPolicy, now: u64) -> bool {
    p matches SignerPolicy::TimeWindowPolicy(t) && time_window_passes(t, now)
}

/// True when `p` rejects independently of any external contract:
/// it is a time window not containing `now`.
pub open spec fn policy_denies(p: SignerPolicy, now: u64) -> bool {
    p matches SignerPolicy::TimeWindowPolicy(t) && !time_window_passes(t, now)
}

/// True when every policy in the list grants independently of any
/// external contract.
pub open spec fn all_policies_grant(ps: Seq<SignerPolicy>, now: u64) -> bool {
    forall|i: int| 0 <= i < ps.len() ==> policy_grants(#[trigger] ps[i], now)
}

/// True when some policy in the list rejects independently of any
/// external contract.
pub open spec fn some_policy_denies(ps: Seq<SignerPolicy>, now: u64) -> bool {
    exists|i: int| 0 <= i < ps.len() && policy_denies(#[trigger] ps[i], now)
}

/// True when a signer with role `role` authorizes `contexts` no matter how
/// any external delegate answers.
pub open spec fn role_grants(role: SignerRoleV, contexts: Seq<Context>, me: Address, now: u64) -> bool {
    match role {
        SignerRoleV::Admin => true,
        SignerRoleV::Standard(ps) => !is_self_targeting(contexts, me) && all_policies_grant(
            ps,
            now,
        ),
    }
}

/// True when a signer with role `role` rejects `contexts` no matter how any
/// external delegate answers.
pub open spec fn role_denies(role: SignerRoleV, contexts: Seq<Context>, me: Address, now: u64) -> bool {
    match role {
        SignerRoleV::Admin => false,
        SignerRoleV::Standard(ps) => is_self_targeting(contexts, me) || some_policy_denies(
            ps,
            now,
        ),
    }
}

/// True when every policy in the list is a time window whose attachment
/// would be accepted at ledger time `now`; attaching such a list involves
/// no external contract and cannot fail.
pub open spec fn all_windows_valid(ps: Seq<SignerPolicy>, now: u64) -> bool {
    forall|i: int|
        0 <= i < ps.len() ==> ((#[trigger] ps[i]) matches SignerPolicy::TimeWindowPolicy(t)
            && time_window_on_add(t, now) is Ok)
}

/// True when some policy in the list is a time window whose attachment
/// would be rejected at ledger time `now`; attaching such a list always
/// fails, whatever any delegate answers.
pub open spec fn some_window_invalid(ps: Seq<SignerPolicy>, now: u64) -> bool {
    exists|i: int|
        0 <= i < ps.len() && ((#[trigger] ps[i]) matches SignerPolicy::TimeWindowPolicy(t)
            && time_window_on_add(t, now) is Err)
}

/// True when every policy newly introduced by `new` (absent from `old`) is
/// a time window whose attachment would be accepted at ledger time `now`:
/// the policy diff then involves no aborting hook.
pub open spec fn added_policies_ok(old: Seq<SignerPolicy>, new: Seq<SignerPolicy>, now: u64) -> bool {
    forall|i: int|
        0 <= i < new.len() ==> (old.contains(#[trigger] new[i]) || (new[i]
            matches SignerPolicy::TimeWindowPolicy(t) && time_window_on_add(t, now) is Ok))
}

/// Compares two policy lists element by element.
pub fn policies_eq(a: &Vec<SignerPolicy>, b: &Vec<SignerPolicy>) -> (r: bool)
    ensures
        r == (a@ == b@),
{
    if a.len() != b.len() {
        proof {
            assert(a@ != b@);
        }
        return false;
    }
    let mut i: usize = 0;
    while i < a.len()
        invariant
            i <= a@.len(),
            a@.len() == b@.len(),
            forall|j: int| 0 <= j < i ==> a@[j] == b@[j],
        decreases a@.len() - i,
    {
        if !(a[i] == b[i]) {
            proof {
                assert(a@[i as int] != b@[i as int]);
            }
            return false;
        }
        i = i + 1;
    }
    proof {
        assert(a@ =~= b@);
    }
    true
}

/// True when the list holds a policy structurally equal to `p`.
pub fn policy_list_contains(ps: &Vec<SignerPolicy>, p: SignerPolicy) -> (r: bool)
    ensures
        r == ps@.contains(p),
{
    let mut i: usize = 0;
    while i < ps.len()
        invariant
            i <= ps@.len(),
            forall|j: int| 0 <= j < i ==> ps@[j] != p,
        decreases ps@.len() - i,
    {
        if ps[i] == p {
            return true;
        }
        i = i + 1;
    }
    false
}

impl PartialEq for SignerRole {
    fn eq(&self, other: &SignerRole) -> bool {
        match (self, other) {
            (SignerRole::Admin, SignerRole::Admin) => true,
            (SignerRole::Standard(a), SignerRole::Standard(b)) => policies_eq(a, b),
            _ => false,
        }
    }
}

impl vstd::std_specs::cmp::PartialEqSpecImpl for SignerRole {
    open spec fn obeys_eq_spec() -> bool {
        true
    }

    open spec fn eq_spec(&self, other: &SignerRole) -> bool {
        self@ == other@
    }
}

impl TimeBasedPolicy {
    /// Authorizes iff `now` lies inside the closed window, independent of
    /// the contexts' content.
    pub fn is_authorized(&self, now: u64) -> (r: bool)
        ensures
            r == time_window_passes(*self, now),
    {
        now >= self.not_before && now <= self.not_after
    }

    /// Rejects attachment of a window that already ended or is empty.
    pub fn on_add(&self, now: u64) -> (r: Result<(), Error>)
        ensures
            r == time_window_on_add(*self, now),
    {
        if self.not_after < now {
            return Err(Error::InvalidNotAfterTime);
        }
        if self.not_before > self.not_after {
            return Err(Error::InvalidTimeRange);
        }
        Ok(())
    }

    /// Detaching a time window never fails.
    pub fn on_revoke(&self) -> (r: Result<(), Error>)
        ensures
            r is Ok,
    {
        Ok(())
    }
}

impl ExternalPolicy {
    /// Asks the delegate contract for its decision; a call failure has
    /// already been folded into `false` by the host.
    pub fn is_authorized<E: SmartAccountPolicy>(
        &self,
        env: &mut E,
        source: &Address,
        contexts: &Vec<Context>,
    ) -> bool {
        env.is_authorized(&self.policy_address, source, contexts)
    }

    /// Notifies the delegate of its attachment; a rejected hook blocks the
    /// enclosing signer mutation.
    pub fn on_add<E: SmartAccountPolicy>(&self, env: &mut E, source: &Address) -> (r: Result<
        (),
        Error,
    >)
        ensures
            r is Err ==> r == Err::<(), Error>(Error::PolicyClientInitializationError),
    {
        if env.on_add(&self.policy_address, source) {
            Ok(())
        } else {
            Err(Error::PolicyClientInitializationError)
        }
    }

    /// Notifies the delegate of its detachment; the outcome never blocks
    /// the enclosing removal, it is only reported.
    pub fn on_revoke<E: SmartAccountPolicy>(&self, env: &mut E, source: &Address) -> (hook_ok:
        bool) {
        env.on_revoke(&self.policy_address, source)
    }
}

impl SignerRole {
    /// Whether a signer with this role approves the requested contexts:
    /// an admin always does; a standard signer never approves a batch
    /// containing a self-administrative context, and otherwise approves
    /// iff every attached policy does.
    pub fn is_authorized<E: SmartAccountPolicy>(
        &self,
        env: &mut E,
        me: &Address,
        contexts: &Vec<Context>,
        now: u64,
    ) -> (r: bool)
        ensures
            role_grants(self@, contexts@, *me, now) ==> r,
            role_denies(self@, contexts@, *me, now) ==> !r,
    {
        let mut needs_admin = false;
        let mut i: usize = 0;
        while i < contexts.len()
            invariant
                i <= contexts@.len(),
                needs_admin == exists|j: int|
                    0 <= j < i && context_targets(#[trigger] contexts@[j], *me),
            decreases contexts@.len() - i,
        {
            let hit = match &contexts[i] {
                Context::Contract(cc) => cc.contract == *me,
                Context::CreateContractHostFn => false,
            };
            if hit {
                needs_admin = true;
                proof {
                    assert(context_targets(contexts@[i as int], *me));
                }
            }
            i = i + 1;
        }
        proof {
            assert(needs_admin == is_self_targeting(contexts@, *me));
        }
        match self {
            SignerRole::Admin => true,
            SignerRole::Standard(ps) => {
                if needs_admin {
                    false
                } else {
                    let mut k: usize = 0;
                    while k < ps.len()
                        invariant
                            k <= ps@.len(),
                            !is_self_targeting(contexts@, *me),
                            self@ == SignerRoleV::Standard(ps@),
                            forall|t: int| 0 <= t < k ==> !policy_denies(#[trigger] ps@[t], now),
                        decreases ps@.len() - k,
                    {
                        let approved = ps[k].is_authorized(env, me, contexts, now);
                        if !approved {
                            proof {
                                assert(self@ == SignerRoleV::Standard(ps@));
                                assert(!policy_grants(ps@[k as int], now));
                                assert(!all_policies_grant(ps@, now));
                            }
                            return false;
                        }
                        k = k + 1;
                    }
                    proof {
                        assert(self@ == SignerRoleV::Standard(ps@));
                        if some_policy_denies(ps@, now) {
                            let w = choose|t: int|
                                0 <= t < ps@.len() && policy_denies(#[trigger] ps@[t], now);
                            assert(!policy_denies(ps@[w], now));
                        }
                    }
                    true
                }
            },
        }
    }
}

impl SignerPolicy {
    /// The policy's authorization decision for `contexts` at ledger time
    /// `now`.
    pub fn is_authorized<E: SmartAccountPolicy>(
        &self,
        env: &mut E,
        source: &Address,
        contexts: &Vec<Context>,
        now: u64,
    ) -> (r: bool)
        ensures
            policy_grants(*self, now) ==> r,
            policy_denies(*self, now) ==> !r,
            self is TimeWindowPolicy ==> *final(env) == *old(env),
    {
        match self {
            SignerPolicy::TimeWindowPolicy(t) => t.is_authorized(now),
            SignerPolicy::ExternalValidatorPolicy(p) => p.is_authorized(env, source, contexts),
        }
    }

    /// The policy's attachment hook.
    pub fn on_add<E: SmartAccountPolicy>(&self, env: &mut E, source: &Address, now: u64) -> (r:
        Result<(), Error>)
        ensures
            self matches SignerPolicy::TimeWindowPolicy(t) ==> r == time_window_on_add(*t, now)
                && *final(env) == *old(env),
            self is ExternalValidatorPolicy && r is Err ==> r == Err::<(), Error>(
                Error::PolicyClientInitializationError,
            ),
    {
        match self {
            SignerPolicy::TimeWindowPolicy(t) => t.on_add(now),
            SignerPolicy::ExternalValidatorPolicy(p) => p.on_add(env, source),
        }
    }

    /// The policy's detachment hook; reports whether it succeeded, which
    /// never blocks the enclosing removal.
    pub fn on_revoke<E: SmartAccountPolicy>(&self, env: &mut E, source: &Address) -> (hook_ok:
        bool)
        ensures
            self is TimeWindowPolicy ==> hook_ok && *final(env) == *old(env),
    {
        match self {
            SignerPolicy::TimeWindowPolicy(_) => true,
            SignerPolicy::ExternalValidatorPolicy(p) => p.on_revoke(env, source),
        }
    }
}

} // verus!
