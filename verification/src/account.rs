//! The account aggregate: registered signers with their admin-count ledger,
//! the plugin set, the initialization and migration flags, and the event
//! log.  Every administrative operation either fully commits, appending its
//! event, or fails with a typed error and leaves the state unchanged.

use vstd::prelude::*;

use crate::error::Error;
use crate::events::{
    events_view, lemma_events_view_add, lemma_events_view_push, AccountEvent, AccountEventV,
    PluginInstalledEvent, PluginUninstallFailedEvent, PluginUninstalledEvent,
    PolicyCallbackFailedEvent, SignerAddedEvent, SignerRevokedEvent, SignerUpdatedEvent,
};
use crate::host::{Address, Context, HostEnv, SmartAccountPlugin, SmartAccountPolicy};
use crate::policy::{
    added_policies_ok, all_windows_valid, some_window_invalid, SignerPolicy, SignerRole,
    SignerRoleV,
};
use crate::signer::{clone_signer, Signer, SignerKey, SignerKeyV, SignerV};

verus! {

/// A multi-signature account: its own address, the registered signers, the
/// durable admin counter, the installed plugins in insertion order, the
/// lifecycle flags, and the log of committed events.
pub struct SmartAccount {
    pub address: Address,
    pub signers: Vec<Signer>,
    pub admin_count: u32,
    pub plugins: Vec<Address>,
    pub initialized: bool,
    pub migrating: bool,
    pub events: Vec<AccountEvent>,
}

/// True when `s` holds a signer whose identity is `k`.
pub open spec fn seq_has_key(s: Seq<Signer>, k: SignerKeyV) -> bool {
    exists|i: int| 0 <= i < s.len() && (#[trigger] s[i])@.key == k
}

/// The position of the signer whose identity is `k`.
pub open spec fn seq_key_index(s: Seq<Signer>, k: SignerKeyV) -> int {
    choose|i: int| 0 <= i < s.len() && (#[trigger] s[i])@.key == k
}

/// No two signers share an identity.
pub open spec fn signer_keys_unique(s: Seq<Signer>) -> bool {
    forall|i: int, j: int| 0 <= i < j < s.len() ==> s[i]@.key != s[j]@.key
}

/// No plugin address appears twice.
pub open spec fn plugins_unique(ps: Seq<Address>) -> bool {
    forall|i: int, j: int| 0 <= i < j < ps.len() ==> ps[i] != ps[j]
}

/// How a signer counts towards the admin ledger.
pub open spec fn admin_weight(s: Signer) -> int {
    if s@.role is Admin {
        1
    } else {
        0
    }
}

/// How a role counts towards the admin ledger.
pub open spec fn role_weight(r: SignerRoleV) -> int {
    if r is Admin {
        1
    } else {
        0
    }
}

/// The number of admin signers in `s`.
pub open spec fn count_admins(s: Seq<Signer>) -> int
    decreases s.len(),
{
    if s.len() == 0 {
        0
    } else {
        count_admins(s.drop_last()) + admin_weight(s.last())
    }
}

impl SmartAccount {
    /// Well-formedness: signer identities and plugin addresses are unique,
    /// and the admin counter equals the number of admin signers.
    pub open spec fn wf(self) -> bool {
        &&& signer_keys_unique(self.signers@)
        &&& self.admin_count as int == count_admins(self.signers@)
        &&& plugins_unique(self.plugins@)
    }

    /// The admin-floor invariant: at least one admin signer is counted.
    pub open spec fn admin_floor(self) -> bool {
        self.admin_count >= 1
    }

    /// True when a signer with identity `k` is registered.
    pub open spec fn spec_has_signer(self, k: SignerKeyV) -> bool {
        seq_has_key(self.signers@, k)
    }

    /// The registered signer with identity `k`.
    pub open spec fn signer_at(self, k: SignerKeyV) -> SignerV {
        self.signers@[seq_key_index(self.signers@, k)]@
    }

    /// True when the plugin at `p` is installed.
    pub open spec fn spec_is_plugin_installed(self, p: Address) -> bool {
        self.plugins@.contains(p)
    }

    /// The event log as a sequence of event shapes.
    pub open spec fn events_v(self) -> Seq<AccountEventV> {
        events_view(self.events@)
    }
}

/// Appending a signer with a fresh identity keeps identities unique.
proof fn lemma_signers_push_unique(s: Seq<Signer>, x: Signer)
    requires
        signer_keys_unique(s),
        !seq_has_key(s, x@.key),
    ensures
        signer_keys_unique(s.push(x)),
{
    let t = s.push(x);
    assert forall|i: int, j: int| 0 <= i < j < t.len() implies t[i]@.key != t[j]@.key by {
        if j == s.len() {
            assert(t[i] == s[i]);
        } else {
            assert(t[i] == s[i] && t[j] == s[j]);
        }
    }
}

/// Replacing a signer by one with the same identity keeps identities
/// unique.
proof fn lemma_signers_update_unique(s: Seq<Signer>, at: int, x: Signer)
    requires
        signer_keys_unique(s),
        0 <= at < s.len(),
        s[at]@.key == x@.key,
    ensures
        signer_keys_unique(s.update(at, x)),
{
    let t = s.update(at, x);
    assert forall|i: int, j: int| 0 <= i < j < t.len() implies t[i]@.key != t[j]@.key by {
        assert(s[i]@.key != s[j]@.key);
    }
}

/// Removing a signer keeps identities unique and drops its identity.
proof fn lemma_signers_remove_unique(s: Seq<Signer>, at: int)
    requires
        signer_keys_unique(s),
        0 <= at < s.len(),
    ensures
        signer_keys_unique(s.remove(at)),
        !seq_has_key(s.remove(at), s[at]@.key),
{
    let t = s.remove(at);
    assert forall|i: int, j: int| 0 <= i < j < t.len() implies t[i]@.key != t[j]@.key by {
        let oi = if i < at {
            i
        } else {
            i + 1
        };
        let oj = if j < at {
            j
        } else {
            j + 1
        };
        assert(t[i] == s[oi] && t[j] == s[oj]);
        assert(s[oi]@.key != s[oj]@.key);
    }
    assert forall|i: int| 0 <= i < t.len() implies t[i]@.key != s[at]@.key by {
        let oi = if i < at {
            i
        } else {
            i + 1
        };
        assert(t[i] == s[oi]);
        if oi < at {
            assert(s[oi]@.key != s[at]@.key);
        } else {
            assert(s[at]@.key != s[oi]@.key);
        }
    }
}

/// With unique identities, the index of a signer's identity is the
/// signer's own position.
pub(crate) proof fn lemma_key_index_is(s: Seq<Signer>, i: int)
    requires
        signer_keys_unique(s),
        0 <= i < s.len(),
    ensures
        seq_has_key(s, s[i]@.key),
        seq_key_index(s, s[i]@.key) == i,
{
    let k = s[i]@.key;
    assert(seq_has_key(s, k));
    let j = seq_key_index(s, k);
    if j < i {
        assert(s[j]@.key != s[i]@.key);
    } else if j > i {
        assert(s[i]@.key != s[j]@.key);
    }
}

/// Appending one signer adds its weight to the admin count.
proof fn lemma_count_push(s: Seq<Signer>, x: Signer)
    ensures
        count_admins(s.push(x)) == count_admins(s) + admin_weight(x),
{
    assert(s.push(x).drop_last() =~= s);
    assert(s.push(x).last() == x);
}

/// Replacing one signer shifts the admin count by the weight difference.
proof fn lemma_count_update(s: Seq<Signer>, at: int, x: Signer)
    requires
        0 <= at < s.len(),
    ensures
        count_admins(s.update(at, x)) == count_admins(s) - admin_weight(s[at]) + admin_weight(x),
    decreases s.len(),
{
    let t = s.update(at, x);
    if at == s.len() - 1 {
        assert(t.drop_last() =~= s.drop_last());
        assert(t.last() == x);
    } else {
        assert(t.drop_last() =~= s.drop_last().update(at, x));
        assert(t.last() == s.last());
        lemma_count_update(s.drop_last(), at, x);
    }
}

/// Removing one signer subtracts its weight from the admin count.
proof fn lemma_count_remove(s: Seq<Signer>, at: int)
    requires
        0 <= at < s.len(),
    ensures
        count_admins(s.remove(at)) == count_admins(s) - admin_weight(s[at]),
    decreases s.len(),
{
    let t = s.remove(at);
    if at == s.len() - 1 {
        assert(t =~= s.drop_last());
    } else {
        assert(t.drop_last() =~= s.drop_last().remove(at));
        assert(t.last() == s.last());
        lemma_count_remove(s.drop_last(), at);
    }
}

/// The admin count is never negative.
proof fn lemma_count_nonneg(s: Seq<Signer>)
    ensures
        count_admins(s) >= 0,
    decreases s.len(),
{
    if s.len() > 0 {
        lemma_count_nonneg(s.drop_last());
    }
}

/// A sequence holding an admin signer counts at least one.
proof fn lemma_count_pos(s: Seq<Signer>, j: int)
    requires
        0 <= j < s.len(),
        s[j]@.role is Admin,
    ensures
        count_admins(s) >= 1,
    decreases s.len(),
{
    lemma_count_nonneg(s.drop_last());
    if j < s.len() - 1 {
        lemma_count_pos(s.drop_last(), j);
    }
}

/// Appending a fresh plugin address keeps the set duplicate-free.
proof fn lemma_plugins_push_unique(ps: Seq<Address>, p: Address)
    requires
        plugins_unique(ps),
        !ps.contains(p),
    ensures
        plugins_unique(ps.push(p)),
{
    let t = ps.push(p);
    assert forall|i: int, j: int| 0 <= i < j < t.len() implies t[i] != t[j] by {
        if j == ps.len() {
            assert(t[i] == ps[i]);
        } else {
            assert(t[i] == ps[i] && t[j] == ps[j]);
        }
    }
}

/// Removing a plugin keeps the set duplicate-free and drops the address.
proof fn lemma_plugins_remove_unique(ps: Seq<Address>, at: int)
    requires
        plugins_unique(ps),
        0 <= at < ps.len(),
    ensures
        plugins_unique(ps.remove(at)),
        !ps.remove(at).contains(ps[at]),
{
    let t = ps.remove(at);
    assert forall|i: int, j: int| 0 <= i < j < t.len() implies t[i] != t[j] by {
        let oi = if i < at {
            i
        } else {
            i + 1
        };
        let oj = if j < at {
            j
        } else {
            j + 1
        };
        assert(t[i] == ps[oi] && t[j] == ps[oj]);
    }
    assert forall|i: int| 0 <= i < t.len() implies t[i] != ps[at] by {
        let oi = if i < at {
            i
        } else {
            i + 1
        };
        assert(t[i] == ps[oi]);
    }
}

/// Decrements the admin counter; refuses to let it drop below one.
fn decrement_admin_count(count: u32) -> (r: Result<u32, Error>)
    ensures
        count <= 1 ==> r == Err::<u32, Error>(Error::CannotDowngradeLastAdmin),
        count >= 2 ==> r == Ok::<u32, Error>((count - 1) as u32),
{
    if count <= 1 {
        Err(Error::CannotDowngradeLastAdmin)
    } else {
        Ok(count - 1)
    }
}

/// Increments the admin counter; fails on overflow.
fn increment_admin_count(count: u32) -> (r: Result<u32, Error>)
    ensures
        count == u32::MAX ==> r == Err::<u32, Error>(Error::MaxSignersReached),
        count < u32::MAX ==> r == Ok::<u32, Error>((count + 1) as u32),
{
    if count == u32::MAX {
        Err(Error::MaxSignersReached)
    } else {
        Ok(count + 1)
    }
}

/// Calls `on_add` on every policy, in list order; the first failure aborts
/// with its error.  A list of valid time windows never fails and touches
/// no external state.
fn activate_policies<E: SmartAccountPolicy>(
    env: &mut E,
    source: &Address,
    policies: &Vec<SignerPolicy>,
    now: u64,
) -> (r: Result<(), Error>)
    ensures
        all_windows_valid(policies@, now) ==> r is Ok && *final(env) == *old(env),
        some_window_invalid(policies@, now) ==> r is Err,
        r is Err ==> (r == Err::<(), Error>(Error::PolicyClientInitializationError) || r
            == Err::<(), Error>(Error::InvalidNotAfterTime) || r == Err::<(), Error>(
            Error::InvalidTimeRange,
        )),
{
    let mut i: usize = 0;
    while i < policies.len()
        invariant
            i <= policies@.len(),
            all_windows_valid(policies@, now) ==> *env == *old(env),
            forall|j: int|
                0 <= j < i ==> ((#[trigger] policies@[j])
                    matches SignerPolicy::TimeWindowPolicy(t) ==> crate::policy::time_window_on_add(
                    t,
                    now,
                ) is Ok),
        decreases policies@.len() - i,
    {
        match policies[i].on_add(env, source, now) {
            Ok(_) => {},
            Err(e) => {
                return Err(e);
            },
        }
        i = i + 1;
    }
    proof {
        if some_window_invalid(policies@, now) {
            let w = choose|w: int|
                0 <= w < policies@.len() && ((#[trigger] policies@[w])
                    matches SignerPolicy::TimeWindowPolicy(t) && crate::policy::time_window_on_add(
                    t,
                    now,
                ) is Err);
            assert(false);
        }
    }
    Ok(())
}

/// Calls `on_revoke` on every policy, in list order; failures never abort,
/// each only appends a diagnostic event.
fn deactivate_policies<E: SmartAccountPolicy>(
    env: &mut E,
    source: &Address,
    policies: &Vec<SignerPolicy>,
    diag: &mut Vec<AccountEvent>,
)
    ensures
        final(diag)@.len() >= old(diag)@.len(),
        final(diag)@.subrange(0, old(diag)@.len() as int) == old(diag)@,
        forall|t: int|
            old(diag)@.len() <= t < final(diag)@.len() ==> (#[trigger] final(diag)@[t])@
                is PolicyCallbackFailed,
{
    let mut i: usize = 0;
    while i < policies.len()
        invariant
            i <= policies@.len(),
            diag@.len() >= old(diag)@.len(),
            diag@.subrange(0, old(diag)@.len() as int) == old(diag)@,
            forall|t: int|
                old(diag)@.len() <= t < diag@.len() ==> (#[trigger] diag@[t])@
                    is PolicyCallbackFailed,
        decreases policies@.len() - i,
    {
        let hook_ok = policies[i].on_revoke(env, source);
        if !hook_ok {
            match &policies[i] {
                SignerPolicy::ExternalValidatorPolicy(p) => {
                    diag.push(
                        AccountEvent::PolicyCallbackFailed(
                            PolicyCallbackFailedEvent { policy_address: p.policy_address },
                        ),
                    );
                    proof {
                        assert(diag@.subrange(0, old(diag)@.len() as int) =~= old(diag)@);
                    }
                },
                SignerPolicy::TimeWindowPolicy(_) => {},
            }
        }
        i = i + 1;
    }
}

/// Applies the policy set-diff of a standard-to-standard role change:
/// policies only in the old list are revoked (never aborting), policies
/// only in the new list are added (aborting on the first failure), and
/// policies in both receive no callback.  Replacing a list by one with the
/// same elements in any order therefore triggers no callback at all.
fn handle_policy_set_changes<E: SmartAccountPolicy>(
    env: &mut E,
    source: &Address,
    old_policies: &Vec<SignerPolicy>,
    new_policies: &Vec<SignerPolicy>,
    diag: &mut Vec<AccountEvent>,
    now: u64,
) -> (r: Result<(), Error>)
    ensures
        old_policies@.to_set() == new_policies@.to_set() ==> (r is Ok && *final(env) == *old(env)
            && final(diag)@ == old(diag)@),
        added_policies_ok(old_policies@, new_policies@, now) ==> r is Ok,
        r is Err ==> (r == Err::<(), Error>(Error::PolicyClientInitializationError) || r
            == Err::<(), Error>(Error::InvalidNotAfterTime) || r == Err::<(), Error>(
            Error::InvalidTimeRange,
        )),
        final(diag)@.len() >= old(diag)@.len(),
        final(diag)@.subrange(0, old(diag)@.len() as int) == old(diag)@,
        forall|t: int|
            old(diag)@.len() <= t < final(diag)@.len() ==> (#[trigger] final(diag)@[t])@
                is PolicyCallbackFailed,
{
    let ghost sets_equal = old_policies@.to_set() == new_policies@.to_set();
    let mut i: usize = 0;
    while i < old_policies.len()
        invariant
            i <= old_policies@.len(),
            sets_equal == (old_policies@.to_set() == new_policies@.to_set()),
            sets_equal ==> *env == *old(env) && diag@ == old(diag)@,
            diag@.len() >= old(diag)@.len(),
            diag@.subrange(0, old(diag)@.len() as int) == old(diag)@,
            forall|t: int|
                old(diag)@.len() <= t < diag@.len() ==> (#[trigger] diag@[t])@
                    is PolicyCallbackFailed,
        decreases old_policies@.len() - i,
    {
        let p = old_policies[i];
        proof {
            if sets_equal {
                assert(old_policies@.contains(old_policies@[i as int]));
                assert(old_policies@.to_set().contains(p));
            }
        }
        if !crate::policy::policy_list_contains(new_policies, p) {
            let hook_ok = p.on_revoke(env, source);
            if !hook_ok {
                match &p {
                    SignerPolicy::ExternalValidatorPolicy(e) => {
                        diag.push(
                            AccountEvent::PolicyCallbackFailed(
                                PolicyCallbackFailedEvent { policy_address: e.policy_address },
                            ),
                        );
                        proof {
                            assert(diag@.subrange(0, old(diag)@.len() as int) =~= old(diag)@);
                        }
                    },
                    SignerPolicy::TimeWindowPolicy(_) => {},
                }
            }
        }
        i = i + 1;
    }
    let mut j: usize = 0;
    while j < new_policies.len()
        invariant
            j <= new_policies@.len(),
            sets_equal == (old_policies@.to_set() == new_policies@.to_set()),
            sets_equal ==> *env == *old(env) && diag@ == old(diag)@,
            diag@.len() >= old(diag)@.len(),
            diag@.subrange(0, old(diag)@.len() as int) == old(diag)@,
            forall|t: int|
                old(diag)@.len() <= t < diag@.len() ==> (#[trigger] diag@[t])@
                    is PolicyCallbackFailed,
        decreases new_policies@.len() - j,
    {
        let p = new_policies[j];
        proof {
            if sets_equal {
                assert(new_policies@.contains(new_policies@[j as int]));
                assert(new_policies@.to_set().contains(p));
            }
        }
        if !crate::policy::policy_list_contains(old_policies, p) {
            match p.on_add(env, source, now) {
                Ok(_) => {},
                Err(e) => {
                    proof {
                        assert(!old_policies@.contains(new_policies@[j as int]));
                    }
                    return Err(e);
                },
            }
        }
        j = j + 1;
    }
    Ok(())
}

/// Carries out the role transition of an existing signer: validates and
/// adjusts the admin counter, and runs the policy lifecycle hooks.  On
/// success it reports the new admin count and the diagnostic events of
/// tolerated hook failures; on failure nothing of the account changes.
fn handle_role_transition<E: SmartAccountPolicy>(
    env: &mut E,
    source: &Address,
    old_role: &SignerRole,
    new_role: &SignerRole,
    admin_count: u32,
    now: u64,
) -> (r: Result<(u32, Vec<AccountEvent>), Error>)
    ensures
        r matches Ok(p) ==> p.0 as int == admin_count + role_weight(new_role@) - role_weight(
            old_role@,
        ),
        r matches Ok(p) ==> (admin_count >= 1 ==> p.0 >= 1),
        r matches Ok(p) ==> forall|t: int|
            0 <= t < p.1@.len() ==> (#[trigger] p.1@[t])@ is PolicyCallbackFailed,
        r is Err ==> (r == Err::<(u32, Vec<AccountEvent>), Error>(Error::CannotDowngradeLastAdmin)
            || r == Err::<(u32, Vec<AccountEvent>), Error>(Error::MaxSignersReached) || r
            == Err::<(u32, Vec<AccountEvent>), Error>(Error::PolicyClientInitializationError) || r
            == Err::<(u32, Vec<AccountEvent>), Error>(Error::InvalidNotAfterTime) || r == Err::<
            (u32, Vec<AccountEvent>),
            Error,
        >(Error::InvalidTimeRange)),
        r == Err::<(u32, Vec<AccountEvent>), Error>(Error::CannotDowngradeLastAdmin) ==> *final(env) == *old(env),
        r == Err::<(u32, Vec<AccountEvent>), Error>(Error::MaxSignersReached) ==> *final(env)
            == *old(env),
        old_role@ is Admin && new_role@ is Standard && admin_count <= 1 ==> r
            == Err::<(u32, Vec<AccountEvent>), Error>(Error::CannotDowngradeLastAdmin),
        old_role@ is Standard && new_role@ is Admin && admin_count == u32::MAX ==> r
            == Err::<(u32, Vec<AccountEvent>), Error>(Error::MaxSignersReached),
        old_role@ is Admin && new_role@ is Admin ==> (r matches Ok(p) && p.0 == admin_count
            && p.1@.len() == 0 && *final(env) == *old(env)),
        old_role@ is Standard && new_role@ is Admin && admin_count < u32::MAX ==> r is Ok,
        (new_role@ matches SignerRoleV::Standard(ps) && old_role@ is Admin && admin_count >= 2
            && all_windows_valid(ps, now)) ==> r is Ok,
        (old_role@ matches SignerRoleV::Standard(o) && new_role@ matches SignerRoleV::Standard(n)
            && o.to_set() == n.to_set()) ==> (r matches Ok(p) && p.0 == admin_count && p.1@.len()
            == 0 && *final(env) == *old(env)),
        (old_role@ matches SignerRoleV::Standard(o) && new_role@ matches SignerRoleV::Standard(n)
            && added_policies_ok(o, n, now)) ==> r is Ok,
{
    match (old_role, new_role) {
        (SignerRole::Admin, SignerRole::Standard(ps)) => {
            let nc = match decrement_admin_count(admin_count) {
                Ok(c) => c,
                Err(e) => {
                    return Err(e);
                },
            };
            match activate_policies(env, source, ps, now) {
                Ok(_) => {},
                Err(e) => {
                    return Err(e);
                },
            }
            Ok((nc, Vec::new()))
        },
        (SignerRole::Standard(ps), SignerRole::Admin) => {
            let nc = match increment_admin_count(admin_count) {
                Ok(c) => c,
                Err(e) => {
                    return Err(e);
                },
            };
            let mut diag: Vec<AccountEvent> = Vec::new();
            deactivate_policies(env, source, ps, &mut diag);
            Ok((nc, diag))
        },
        (SignerRole::Standard(old_ps), SignerRole::Standard(new_ps)) => {
            let mut diag: Vec<AccountEvent> = Vec::new();
            match handle_policy_set_changes(env, source, old_ps, new_ps, &mut diag, now) {
                Ok(_) => Ok((admin_count, diag)),
                Err(e) => Err(e),
            }
        },
        (SignerRole::Admin, SignerRole::Admin) => Ok((admin_count, Vec::new())),
    }
}

impl SmartAccount {
    /// Finds the position of the signer with the given identity.
    pub(crate) fn find_signer(&self, key: &SignerKey) -> (r: Option<usize>)
        ensures
            match r {
                Some(i) => i < self.signers@.len() && self.signers@[i as int]@.key == key@,
                None => !self.spec_has_signer(key@),
            },
    {
        let mut i: usize = 0;
        while i < self.signers.len()
            invariant
                i <= self.signers@.len(),
                forall|j: int| 0 <= j < i ==> (#[trigger] self.signers@[j])@.key != key@,
            decreases self.signers@.len() - i,
        {
            if self.signers[i].matches_key(key) {
                return Some(i);
            }
            i = i + 1;
        }
        None
    }

    /// Finds the position of an installed plugin.
    fn find_plugin(&self, plugin: &Address) -> (r: Option<usize>)
        ensures
            match r {
                Some(i) => i < self.plugins@.len() && self.plugins@[i as int] == *plugin,
                None => !self.spec_is_plugin_installed(*plugin),
            },
    {
        let mut i: usize = 0;
        while i < self.plugins.len()
            invariant
                i <= self.plugins@.len(),
                forall|j: int| 0 <= j < i ==> self.plugins@[j] != *plugin,
            decreases self.plugins@.len() - i,
        {
            if self.plugins[i] == *plugin {
                return Some(i);
            }
            i = i + 1;
        }
        None
    }

    /// Demands the host's authorization for the account itself — except
    /// during construction, before the account is initialized.
    pub fn require_auth_if_initialized<E: HostEnv>(&self, env: &E) {
        if self.initialized {
            env.require_auth(&self.address);
        }
    }

    /// The raw initialization flag.
    pub fn get_initialization_value(&self) -> (r: bool)
        ensures
            r == self.initialized,
    {
        self.initialized
    }

    /// Overwrites the raw initialization flag.
    pub fn set_initialization_value(&mut self, value: bool)
        ensures
            *final(self) == (SmartAccount { initialized: value, ..*old(self) }),
    {
        self.initialized = value;
    }

    /// True when the account has been initialized.
    pub fn is_initialized(&self) -> (r: bool)
        ensures
            r == self.initialized,
    {
        self.initialized
    }

    /// Fails when the account is already initialized.
    pub fn ensure_not_initialized(&self) -> (r: Result<(), Error>)
        ensures
            r is Ok <==> !self.initialized,
            r is Err ==> r == Err::<(), Error>(Error::AlreadyInitialized),
    {
        if self.initialized {
            Err(Error::AlreadyInitialized)
        } else {
            Ok(())
        }
    }

    /// Fails when the account has not been initialized yet.
    pub fn ensure_initialized(&self) -> (r: Result<(), Error>)
        ensures
            r is Ok <==> self.initialized,
            r is Err ==> r == Err::<(), Error>(Error::NotInitialized),
    {
        if self.initialized {
            Ok(())
        } else {
            Err(Error::NotInitialized)
        }
    }

    /// Sets the initialization flag exactly once.
    pub fn mark_initialized(&mut self) -> (r: Result<(), Error>)
        ensures
            old(self).initialized ==> r == Err::<(), Error>(Error::AlreadyInitialized) && *final(self) == *old(self),
            !old(self).initialized ==> r is Ok && *final(self) == (SmartAccount {
                initialized: true,
                ..*old(self)
            }),
    {
        if self.initialized {
            Err(Error::AlreadyInitialized)
        } else {
            self.initialized = true;
            Ok(())
        }
    }

    /// Marks the account initialized; fails when it already was.
    pub fn initialize(&mut self) -> (r: Result<(), Error>)
        ensures
            old(self).initialized ==> r == Err::<(), Error>(Error::AlreadyInitialized) && *final(self) == *old(self),
            !old(self).initialized ==> r is Ok && *final(self) == (SmartAccount {
                initialized: true,
                ..*old(self)
            }),
    {
        self.ensure_not_initialized()?;
        self.mark_initialized()?;
        Ok(())
    }

    /// The account is live.
    pub fn is_deployed(&self) -> (r: bool)
        ensures
            r,
    {
        true
    }

    /// Registers a new signer.  A duplicate identity is rejected; a
    /// standard signer's policies are activated first, any failure
    /// aborting the whole addition; an admin signer bumps the admin
    /// counter.  On success exactly one signer-added event is appended.
    pub fn add_signer<E: HostEnv + SmartAccountPolicy>(
        &mut self,
        env: &mut E,
        signer: Signer,
        now: u64,
    ) -> (r: Result<(), Error>)
        requires
            old(self).wf(),
        ensures
            final(self).wf(),
            old(self).admin_floor() ==> final(self).admin_floor(),
            old(self).spec_has_signer(signer@.key) <==> r == Err::<(), Error>(
                Error::SignerAlreadyExists,
            ),
            r == Err::<(), Error>(Error::SignerAlreadyExists) ==> *final(env) == *old(env),
            (!old(self).spec_has_signer(signer@.key) && signer@.role is Admin && old(self).admin_count == u32::MAX) ==> r == Err::<(), Error>(Error::MaxSignersReached),
            (signer@.role matches SignerRoleV::Standard(ps) && some_window_invalid(ps, now)) ==> r
                is Err,
            r is Err ==> *final(self) == *old(self),
            r is Ok ==> final(self).signers@ == old(self).signers@.push(signer),
            r is Ok ==> final(self).admin_count as int == old(self).admin_count + role_weight(
                signer@.role,
            ),
            r is Ok ==> final(self).events_v() == old(self).events_v().push(
                (AccountEventV::SignerAdded { key: signer@.key, signer: signer@ }),
            ),
            r is Ok ==> final(self).plugins@ == old(self).plugins@ && final(self).address == old(self).address && final(self).initialized == old(self).initialized && final(self).migrating
                == old(self).migrating,
            (!old(self).spec_has_signer(signer@.key) && signer@.role is Admin && old(self).admin_count < u32::MAX) ==> r is Ok,
            (signer@.role matches SignerRoleV::Standard(ps) && !old(self).spec_has_signer(
                signer@.key,
            ) && all_windows_valid(ps, now)) ==> r is Ok,
    {
        self.require_auth_if_initialized(env);
        let key = signer.key();
        match self.find_signer(&key) {
            Some(_) => {
                return Err(Error::SignerAlreadyExists);
            },
            None => {},
        }
        let is_admin: bool;
        {
            let role_ref = match &signer {
                Signer::Ed25519(_, r) => r,
                Signer::Secp256r1(_, r) => r,
            };
            match role_ref {
                SignerRole::Standard(ps) => {
                    match activate_policies(env, &self.address, ps, now) {
                        Ok(_) => {},
                        Err(e) => {
                            return Err(e);
                        },
                    }
                    is_admin = false;
                },
                SignerRole::Admin => {
                    if self.admin_count == u32::MAX {
                        return Err(Error::MaxSignersReached);
                    }
                    is_admin = true;
                },
            }
        }
        let s2 = clone_signer(&signer);
        let ghost sv = signer;
        if is_admin {
            self.admin_count = self.admin_count + 1;
        }
        self.signers.push(signer);
        let ev = AccountEvent::SignerAdded(SignerAddedEvent { signer_key: key, signer: s2 });
        let ghost evv = ev;
        self.events.push(ev);
        proof {
            lemma_signers_push_unique(old(self).signers@, sv);
            lemma_count_push(old(self).signers@, sv);
            lemma_events_view_push(old(self).events@, evv);
        }
        Ok(())
    }

    /// Replaces the role of an existing signer, handling the role
    /// transition: the admin counter is adjusted under the admin-floor
    /// guard, and policy lifecycle hooks fire according to the set diff.
    /// On success the stored signer is replaced and a signer-updated event
    /// is appended after any hook diagnostics; on failure nothing changes.
    pub fn update_signer<E: HostEnv + SmartAccountPolicy>(
        &mut self,
        env: &mut E,
        signer: Signer,
        now: u64,
    ) -> (r: Result<(), Error>)
        requires
            old(self).wf(),
        ensures
            final(self).wf(),
            old(self).admin_floor() ==> final(self).admin_floor(),
            !old(self).spec_has_signer(signer@.key) <==> r == Err::<(), Error>(
                Error::SignerNotFound,
            ),
            r is Err ==> *final(self) == *old(self),
            (old(self).spec_has_signer(signer@.key) && old(self).signer_at(signer@.key).role
                is Admin && signer@.role is Standard && old(self).admin_count <= 1) ==> r
                == Err::<(), Error>(Error::CannotDowngradeLastAdmin),
            r == Err::<(), Error>(Error::SignerNotFound) ==> *final(env) == *old(env),
            r == Err::<(), Error>(Error::CannotDowngradeLastAdmin) ==> *final(env) == *old(env),
            r == Err::<(), Error>(Error::MaxSignersReached) ==> *final(env) == *old(env),
            r is Ok ==> final(self).signers@ == old(self).signers@.update(
                seq_key_index(old(self).signers@, signer@.key),
                signer,
            ),
            r is Ok ==> final(self).admin_count as int == old(self).admin_count + role_weight(
                signer@.role,
            ) - role_weight(old(self).signer_at(signer@.key).role),
            r is Ok ==> final(self).plugins@ == old(self).plugins@ && final(self).address == old(self).address && final(self).initialized == old(self).initialized && final(self).migrating
                == old(self).migrating,
            r is Ok ==> final(self).events_v().len() > old(self).events_v().len() && final(self).events_v().subrange(0, old(self).events_v().len() as int) == old(self).events_v()
                && final(self).events_v().last() == (AccountEventV::SignerUpdated {
                key: signer@.key,
                signer: signer@,
            }) && forall|t: int|
                old(self).events_v().len() <= t < final(self).events_v().len() - 1 ==> (
                #[trigger] final(self).events_v()[t]) is PolicyCallbackFailed,
            (old(self).spec_has_signer(signer@.key) && old(self).signer_at(signer@.key).role
                is Admin && signer@.role is Admin) ==> r is Ok,
            (old(self).spec_has_signer(signer@.key) && old(self).signer_at(signer@.key).role
                is Standard && signer@.role is Admin && old(self).admin_count < u32::MAX) ==> r
                is Ok,
            (signer@.role matches SignerRoleV::Standard(ps) && old(self).spec_has_signer(
                signer@.key,
            ) && old(self).signer_at(signer@.key).role is Admin && old(self).admin_count >= 2
                && all_windows_valid(ps, now)) ==> r is Ok,
            (old(self).signer_at(signer@.key).role matches SignerRoleV::Standard(o)
                && signer@.role matches SignerRoleV::Standard(n) && old(self).spec_has_signer(
                signer@.key,
            ) && o.to_set() == n.to_set()) ==> (r is Ok && *final(env) == *old(env) && final(self).events_v() == old(self).events_v().push(
                (AccountEventV::SignerUpdated { key: signer@.key, signer: signer@ }),
            )),
            (old(self).signer_at(signer@.key).role matches SignerRoleV::Standard(o)
                && signer@.role matches SignerRoleV::Standard(n) && old(self).spec_has_signer(
                signer@.key,
            ) && added_policies_ok(o, n, now)) ==> r is Ok,
    {
        self.require_auth_if_initialized(env);
        let key = signer.key();
        let i = match self.find_signer(&key) {
            None => {
                return Err(Error::SignerNotFound);
            },
            Some(i) => i,
        };
        proof {
            lemma_key_index_is(self.signers@, i as int);
        }
        let old_role = self.signers[i].role();
        let transition = {
            let new_role_ref = match &signer {
                Signer::Ed25519(_, r) => r,
                Signer::Secp256r1(_, r) => r,
            };
            handle_role_transition(env, &self.address, &old_role, new_role_ref, self.admin_count, now)
        };
        match transition {
            Err(e) => Err(e),
            Ok(nc_diag) => {
                let (nc, diag) = nc_diag;
                self.admin_count = nc;
                let s2 = clone_signer(&signer);
                let ghost sv = signer;
                self.signers.remove(i);
                self.signers.insert(i, signer);
                proof {
                    assert(self.signers@ =~= old(self).signers@.update(i as int, sv));
                    lemma_signers_update_unique(old(self).signers@, i as int, sv);
                    lemma_count_update(old(self).signers@, i as int, sv);
                }
                let mut diag_vec = diag;
                let ghost diag_snapshot = diag_vec@;
                self.events.append(&mut diag_vec);
                let ev = AccountEvent::SignerUpdated(
                    SignerUpdatedEvent { signer_key: key, new_signer: s2 },
                );
                let ghost evv = ev;
                self.events.push(ev);
                proof {
                    lemma_events_view_add(old(self).events@, diag_snapshot);
                    lemma_events_view_push(old(self).events@ + diag_snapshot, evv);
                    assert(self.events@ =~= (old(self).events@ + diag_snapshot).push(evv));
                    assert(self.events_v().subrange(0, old(self).events_v().len() as int) =~= old(self).events_v());
                    if diag_snapshot.len() == 0 {
                        assert(self.events_v() =~= old(self).events_v().push(evv@));
                    }
                }
                Ok(())
            },
        }
    }

    /// Removes a signer.  An admin signer can never be revoked directly —
    /// it must be downgraded first — so the admin counter is untouched.
    /// Policy detachment failures never block the removal; they only leave
    /// diagnostic events before the signer-revoked event.
    pub fn revoke_signer<E: HostEnv + SmartAccountPolicy>(
        &mut self,
        env: &mut E,
        signer_key: SignerKey,
    ) -> (r: Result<(), Error>)
        requires
            old(self).wf(),
        ensures
            final(self).wf(),
            old(self).admin_floor() ==> final(self).admin_floor(),
            !old(self).spec_has_signer(signer_key@) <==> r == Err::<(), Error>(
                Error::SignerNotFound,
            ),
            (old(self).spec_has_signer(signer_key@) && old(self).signer_at(signer_key@).role
                is Admin) <==> r == Err::<(), Error>(Error::CannotRevokeAdminSigner),
            r is Err ==> *final(self) == *old(self) && *final(env) == *old(env),
            r is Ok <==> (old(self).spec_has_signer(signer_key@) && !(old(self).signer_at(
                signer_key@,
            ).role is Admin)),
            r is Ok ==> final(self).signers@ == old(self).signers@.remove(
                seq_key_index(old(self).signers@, signer_key@),
            ) && !final(self).spec_has_signer(signer_key@),
            r is Ok ==> final(self).admin_count == old(self).admin_count,
            r is Ok ==> final(self).plugins@ == old(self).plugins@ && final(self).address == old(self).address && final(self).initialized == old(self).initialized && final(self).migrating
                == old(self).migrating,
            r is Ok ==> final(self).events_v().len() > old(self).events_v().len() && final(self).events_v().subrange(0, old(self).events_v().len() as int) == old(self).events_v()
                && final(self).events_v().last() == (AccountEventV::SignerRevoked {
                key: signer_key@,
                signer: old(self).signer_at(signer_key@),
            }) && forall|t: int|
                old(self).events_v().len() <= t < final(self).events_v().len() - 1 ==> (
                #[trigger] final(self).events_v()[t]) is PolicyCallbackFailed,
    {
        self.require_auth_if_initialized(env);
        let i = match self.find_signer(&signer_key) {
            None => {
                return Err(Error::SignerNotFound);
            },
            Some(i) => i,
        };
        proof {
            lemma_key_index_is(self.signers@, i as int);
        }
        let is_admin = match &self.signers[i] {
            Signer::Ed25519(_, SignerRole::Admin) => true,
            Signer::Secp256r1(_, SignerRole::Admin) => true,
            _ => false,
        };
        if is_admin {
            return Err(Error::CannotRevokeAdminSigner);
        }
        let removed = self.signers.remove(i);
        proof {
            lemma_signers_remove_unique(old(self).signers@, i as int);
            lemma_count_remove(old(self).signers@, i as int);
        }
        let mut diag: Vec<AccountEvent> = Vec::new();
        {
            let role_ref = match &removed {
                Signer::Ed25519(_, r) => r,
                Signer::Secp256r1(_, r) => r,
            };
            match role_ref {
                SignerRole::Standard(ps) => {
                    deactivate_policies(env, &self.address, ps, &mut diag);
                },
                SignerRole::Admin => {},
            }
        }
        let ghost diag_snapshot = diag@;
        self.events.append(&mut diag);
        let ev = AccountEvent::SignerRevoked(
            SignerRevokedEvent { signer_key, revoked_signer: removed },
        );
        let ghost evv = ev;
        self.events.push(ev);
        proof {
            lemma_events_view_add(old(self).events@, diag_snapshot);
            lemma_events_view_push(old(self).events@ + diag_snapshot, evv);
            assert(self.events@ =~= (old(self).events@ + diag_snapshot).push(evv));
            assert(self.events_v().subrange(0, old(self).events_v().len() as int) =~= old(self).events_v());
        }
        Ok(())
    }

    /// Looks a signer up by identity, handing back a copy.
    pub fn get_signer(&self, signer_key: &SignerKey) -> (r: Result<Signer, Error>)
        requires
            self.wf(),
        ensures
            r is Ok <==> self.spec_has_signer(signer_key@),
            !self.spec_has_signer(signer_key@) <==> r == Err::<Signer, Error>(
                Error::SignerNotFound,
            ),
            r matches Ok(s) ==> s@ == self.signer_at(signer_key@),
    {
        match self.find_signer(signer_key) {
            None => Err(Error::SignerNotFound),
            Some(i) => {
                proof {
                    lemma_key_index_is(self.signers@, i as int);
                }
                Ok(clone_signer(&self.signers[i]))
            },
        }
    }

    /// True when a signer with the given identity is registered.
    pub fn has_signer(&self, signer_key: &SignerKey) -> (r: Result<bool, Error>)
        ensures
            r == Ok::<bool, Error>(self.spec_has_signer(signer_key@)),
    {
        match self.find_signer(signer_key) {
            None => Ok(false),
            Some(_) => Ok(true),
        }
    }

    /// Installs a plugin: registers its address, then runs its
    /// `on_install` hook; a rejected hook aborts the installation with no
    /// trace left.
    pub fn install_plugin<E: HostEnv + SmartAccountPlugin>(
        &mut self,
        env: &mut E,
        plugin: Address,
    ) -> (r: Result<(), Error>)
        requires
            old(self).wf(),
        ensures
            final(self).wf(),
            old(self).admin_floor() ==> final(self).admin_floor(),
            old(self).spec_is_plugin_installed(plugin) <==> r == Err::<(), Error>(
                Error::PluginAlreadyInstalled,
            ),
            r == Err::<(), Error>(Error::PluginAlreadyInstalled) ==> *final(env) == *old(env),
            r is Err ==> *final(self) == *old(self),
            r is Err ==> (r == Err::<(), Error>(Error::PluginAlreadyInstalled) || r == Err::<
                (),
                Error,
            >(Error::PluginInitializationFailed)),
            r is Ok ==> final(self).plugins@ == old(self).plugins@.push(plugin) && final(self).spec_is_plugin_installed(plugin),
            r is Ok ==> final(self).signers@ == old(self).signers@ && final(self).admin_count
                == old(self).admin_count && final(self).address == old(self).address && final(self).initialized == old(self).initialized && final(self).migrating == old(self).migrating,
            r is Ok ==> final(self).events_v() == old(self).events_v().push(
                (AccountEventV::PluginInstalled { plugin }),
            ),
    {
        self.require_auth_if_initialized(env);
        match self.find_plugin(&plugin) {
            Some(_) => {
                return Err(Error::PluginAlreadyInstalled);
            },
            None => {},
        }
        let hook_ok = env.on_install(&plugin, &self.address);
        if !hook_ok {
            return Err(Error::PluginInitializationFailed);
        }
        self.plugins.push(plugin);
        let ev = AccountEvent::PluginInstalled(PluginInstalledEvent { plugin });
        let ghost evv = ev;
        self.events.push(ev);
        proof {
            lemma_plugins_push_unique(old(self).plugins@, plugin);
            lemma_events_view_push(old(self).events@, evv);
            assert(self.plugins@.last() == plugin);
        }
        Ok(())
    }

    /// Uninstalls a plugin.  The address is removed first, so a failing
    /// `on_uninstall` hook can never block the removal: it only leaves a
    /// diagnostic event before the plugin-uninstalled event.
    pub fn uninstall_plugin<E: HostEnv + SmartAccountPlugin>(
        &mut self,
        env: &mut E,
        plugin: Address,
    ) -> (r: Result<(), Error>)
        requires
            old(self).wf(),
        ensures
            final(self).wf(),
            old(self).admin_floor() ==> final(self).admin_floor(),
            r is Ok <==> old(self).spec_is_plugin_installed(plugin),
            r is Err ==> r == Err::<(), Error>(Error::PluginNotFound) && *final(self) == *old(self) && *final(env) == *old(env),
            r is Ok ==> !final(self).spec_is_plugin_installed(plugin),
            r is Ok ==> final(self).plugins@ == old(self).plugins@.remove(
                old(self).plugins@.index_of(plugin),
            ),
            r is Ok ==> final(self).signers@ == old(self).signers@ && final(self).admin_count
                == old(self).admin_count && final(self).address == old(self).address && final(self).initialized == old(self).initialized && final(self).migrating == old(self).migrating,
            r is Ok ==> (final(self).events_v() == old(self).events_v().push(
                (AccountEventV::PluginUninstalled { plugin }),
            ) || final(self).events_v() == old(self).events_v().push(
                (AccountEventV::PluginUninstallFailed { plugin }),
            ).push((AccountEventV::PluginUninstalled { plugin }))),
    {
        self.require_auth_if_initialized(env);
        let i = match self.find_plugin(&plugin) {
            None => {
                return Err(Error::PluginNotFound);
            },
            Some(i) => i,
        };
        self.plugins.remove(i);
        proof {
            lemma_plugins_remove_unique(old(self).plugins@, i as int);
            assert(old(self).plugins@[i as int] == plugin);
            assert(old(self).plugins@.index_of(plugin) == i as int) by {
                assert(old(self).plugins@.contains(plugin));
                let j = old(self).plugins@.index_of(plugin);
                if j < i as int {
                    assert(old(self).plugins@[j] != old(self).plugins@[i as int]);
                } else if j > i as int {
                    assert(old(self).plugins@[i as int] != old(self).plugins@[j]);
                }
            }
        }
        let hook_ok = env.on_uninstall(&plugin, &self.address);
        if !hook_ok {
            let fe = AccountEvent::PluginUninstallFailed(PluginUninstallFailedEvent { plugin });
            let ghost fev = fe;
            self.events.push(fe);
            proof {
                lemma_events_view_push(old(self).events@, fev);
            }
        }
        let ev = AccountEvent::PluginUninstalled(PluginUninstalledEvent { plugin });
        let ghost evv = ev;
        let ghost before_final = self.events@;
        self.events.push(ev);
        proof {
            lemma_events_view_push(before_final, evv);
        }
        Ok(())
    }

    /// Builds an account: requires at least one admin signer up front,
    /// registers every signer (duplicates fail), installs every plugin,
    /// and marks the account initialized.  Any failure discards the whole
    /// account — nothing is ever committed partially.
    pub fn __constructor<E: HostEnv + SmartAccountPolicy + SmartAccountPlugin>(
        env: &mut E,
        address: Address,
        signers: Vec<Signer>,
        plugins: Vec<Address>,
        now: u64,
    ) -> (r: Result<SmartAccount, Error>)
        ensures
            r matches Ok(a) ==> a.wf() && a.admin_floor() && a.initialized && !a.migrating
                && a.address == address,
            r matches Ok(a) ==> a.signers@.len() == signers@.len() && forall|i: int|
                0 <= i < signers@.len() ==> (#[trigger] a.signers@[i])@ == signers@[i]@,
            r matches Ok(a) ==> a.plugins@ == plugins@,
            (forall|i: int|
                0 <= i < signers@.len() ==> !((#[trigger] signers@[i])@.role is Admin)) ==> r
                == Err::<SmartAccount, Error>(Error::InsufficientPermissionsOnCreation),
            (exists|i: int, j: int|
                0 <= i < j < signers@.len() && signers@[i]@.key == signers@[j]@.key) ==> r is Err,
            (signers@.len() > 0 && signers@.len() <= u32::MAX && plugins@.len() == 0 && (exists|
                i: int,
            |
                0 <= i < signers@.len() && (#[trigger] signers@[i])@.role is Admin) && (forall|
                i: int,
            |
                0 <= i < signers@.len() ==> ((#[trigger] signers@[i])@.role is Admin || (
                signers@[i]@.role matches SignerRoleV::Standard(ps) && all_windows_valid(
                    ps,
                    now,
                )))) && (forall|
                i: int,
                j: int,
            | 0 <= i < j < signers@.len() ==> signers@[i]@.key != signers@[j]@.key)) ==> r is Ok,
    {
        let mut has_admin = false;
        let mut scan: usize = 0;
        while scan < signers.len()
            invariant
                scan <= signers@.len(),
                has_admin == exists|j: int|
                    0 <= j < scan && (#[trigger] signers@[j])@.role is Admin,
            decreases signers@.len() - scan,
        {
            let is_admin = match &signers[scan] {
                Signer::Ed25519(_, SignerRole::Admin) => true,
                Signer::Secp256r1(_, SignerRole::Admin) => true,
                _ => false,
            };
            if is_admin {
                has_admin = true;
                proof {
                    assert(signers@[scan as int]@.role is Admin);
                }
            }
            scan = scan + 1;
        }
        if !has_admin {
            proof {
                if signers@.len() > 0 && (forall|k: int|
                    0 <= k < signers@.len() ==> (#[trigger] signers@[k])@.role is Admin) {
                    assert(signers@[0]@.role is Admin);
                }
            }
            return Err(Error::InsufficientPermissionsOnCreation);
        }
        let mut account = SmartAccount {
            address,
            signers: Vec::new(),
            admin_count: 0,
            plugins: Vec::new(),
            initialized: false,
            migrating: false,
            events: Vec::new(),
        };
        let mut i: usize = 0;
        while i < signers.len()
            invariant
                i <= signers@.len(),
                account.wf(),
                !account.initialized,
                !account.migrating,
                account.address == address,
                account.plugins@.len() == 0,
                account.signers@.len() == i,
                forall|j: int| 0 <= j < i ==> (#[trigger] account.signers@[j])@ == signers@[j]@,
                account.admin_count as int <= i,
                exists|t: int| 0 <= t < signers@.len() && (#[trigger] signers@[t])@.role is Admin,
            decreases signers@.len() - i,
        {
            let s = clone_signer(&signers[i]);
            let ghost sv = s@;
            let added = account.add_signer(env, s, now);
            match added {
                Ok(_) => {},
                Err(e) => {
                    proof {
                        if signers@.len() > 0 && signers@.len() <= u32::MAX && (forall|k: int|
                            0 <= k < signers@.len() ==> ((#[trigger] signers@[k])@.role is Admin
                                || (signers@[k]@.role matches SignerRoleV::Standard(ps)
                                && all_windows_valid(ps, now)))) && (forall|k: int, l: int|
                            0 <= k < l < signers@.len() ==> signers@[k]@.key != signers@[l]@.key) {
                            assert(sv == signers@[i as int]@);
                            assert(sv.role is Admin || (sv.role matches SignerRoleV::Standard(ps)
                                && all_windows_valid(ps, now)));
                            assert(!seq_has_key(account.signers@, sv.key)) by {
                                if seq_has_key(account.signers@, sv.key) {
                                    let jj = seq_key_index(account.signers@, sv.key);
                                    assert(account.signers@[jj]@ == signers@[jj]@);
                                    assert(signers@[jj]@.key != signers@[i as int]@.key);
                                }
                            }
                            assert(account.admin_count < u32::MAX);
                            match sv.role {
                                SignerRoleV::Admin => {},
                                SignerRoleV::Standard(ps) => {
                                    assert(all_windows_valid(ps, now));
                                },
                            }
                        }
                    }
                    return Err(e);
                },
            }
            i = i + 1;
        }
        let mut j: usize = 0;
        while j < plugins.len()
            invariant
                j <= plugins@.len(),
                account.wf(),
                !account.initialized,
                !account.migrating,
                account.address == address,
                account.plugins@ == plugins@.take(j as int),
                account.signers@.len() == signers@.len(),
                forall|t: int|
                    0 <= t < signers@.len() ==> (#[trigger] account.signers@[t])@ == signers@[t]@,
                account.admin_count as int == count_admins(account.signers@),
                exists|t: int| 0 <= t < signers@.len() && (#[trigger] signers@[t])@.role is Admin,
            decreases plugins@.len() - j,
        {
            match account.install_plugin(env, plugins[j]) {
                Ok(_) => {},
                Err(e) => {
                    return Err(e);
                },
            }
            j = j + 1;
            proof {
                assert(account.plugins@ =~= plugins@.take(j as int));
            }
        }
        proof {
            assert(plugins@.take(plugins@.len() as int) =~= plugins@);
        }
        match account.initialize() {
            Ok(_) => {},
            Err(e) => {
                return Err(e);
            },
        }
        proof {
            let aj = choose|t: int|
                0 <= t < signers@.len() && (#[trigger] signers@[t])@.role is Admin;
            assert(account.signers@[aj]@.role is Admin);
            lemma_count_pos(account.signers@, aj);
            assert forall|p: int, q: int|
                0 <= p < q < signers@.len() implies signers@[p]@.key != signers@[q]@.key by {
                assert(account.signers@[p]@ == signers@[p]@);
                assert(account.signers@[q]@ == signers@[q]@);
                assert(account.signers@[p]@.key != account.signers@[q]@.key);
            }
        }
        Ok(account)
    }

    /// Pure membership query on the plugin set.
    pub fn is_plugin_installed(&self, plugin: &Address) -> (r: bool)
        ensures
            r == self.spec_is_plugin_installed(*plugin),
    {
        match self.find_plugin(plugin) {
            None => false,
            Some(i) => {
                proof {
                    assert(self.plugins@.contains(self.plugins@[i as int]));
                }
                true
            },
        }
    }
}

} // verus!
