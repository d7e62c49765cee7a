//! The events an account emits: one per committed administrative mutation,
//! plus diagnostics for hook failures that are tolerated rather than
//! propagated.

use vstd::prelude::*;

use crate::host::Address;
use crate::signer::{Signer, SignerKey, SignerKeyV, SignerV};

verus! {

/// A signer was registered.
#[derive(Debug)]
pub struct SignerAddedEvent {
    pub signer_key: SignerKey,
    pub signer: Signer,
}

/// A signer's role was replaced.
#[derive(Debug)]
pub struct SignerUpdatedEvent {
    pub signer_key: SignerKey,
    pub new_signer: Signer,
}

/// A signer was removed.
#[derive(Debug)]
pub struct SignerRevokedEvent {
    pub signer_key: SignerKey,
    pub revoked_signer: Signer,
}

/// A plugin was installed and initialized.
#[derive(Debug)]
pub struct PluginInstalledEvent {
    pub plugin: Address,
}

/// A plugin was removed.
#[derive(Debug)]
pub struct PluginUninstalledEvent {
    pub plugin: Address,
}

/// A plugin's `on_uninstall` hook failed; the removal still committed.
#[derive(Debug)]
pub struct PluginUninstallFailedEvent {
    pub plugin: Address,
}

/// A policy delegate's `on_revoke` hook failed; the detachment still
/// committed.
#[derive(Debug)]
pub struct PolicyCallbackFailedEvent {
    pub policy_address: Address,
}

/// Everything an account can append to its event log.
#[derive(Debug)]
pub enum AccountEvent {
    SignerAdded(SignerAddedEvent),
    SignerUpdated(SignerUpdatedEvent),
    SignerRevoked(SignerRevokedEvent),
    PluginInstalled(PluginInstalledEvent),
    PluginUninstalled(PluginUninstalledEvent),
    PluginUninstallFailed(PluginUninstallFailedEvent),
    PolicyCallbackFailed(PolicyCallbackFailedEvent),
}

/// The mathematical shape of an event.
pub enum AccountEventV {
    SignerAdded { key: SignerKeyV, signer: SignerV },
    SignerUpdated { key: SignerKeyV, signer: SignerV },
    SignerRevoked { key: SignerKeyV, signer: SignerV },
    PluginInstalled { plugin: Address },
    PluginUninstalled { plugin: Address },
    PluginUninstallFailed { plugin: Address },
    PolicyCallbackFailed { policy_address: Address },
}

impl View for AccountEvent {
    type V = AccountEventV;

    open spec fn view(&self) -> AccountEventV {
        match self {
            AccountEvent::SignerAdded(e) => AccountEventV::SignerAdded {
                key: e.signer_key@,
                signer: e.signer@,
            },
            AccountEvent::SignerUpdated(e) => AccountEventV::SignerUpdated {
                key: e.signer_key@,
                signer: e.new_signer@,
            },
            AccountEvent::SignerRevoked(e) => AccountEventV::SignerRevoked {
                key: e.signer_key@,
                signer: e.revoked_signer@,
            },
            AccountEvent::PluginInstalled(e) => AccountEventV::PluginInstalled { plugin: e.plugin },
            AccountEvent::PluginUninstalled(e) => AccountEventV::PluginUninstalled {
                plugin: e.plugin,
            },
            AccountEvent::PluginUninstallFailed(e) => AccountEventV::PluginUninstallFailed {
                plugin: e.plugin,
            },
            AccountEvent::PolicyCallbackFailed(e) => AccountEventV::PolicyCallbackFailed {
                policy_address: e.policy_address,
            },
        }
    }
}

/// The log as a sequence of event shapes.
pub open spec fn events_view(es: Seq<AccountEvent>) -> Seq<AccountEventV> {
    es.map_values(|e: AccountEvent| e@)
}

/// Appending one event appends its shape to the viewed log.
pub proof fn lemma_events_view_push(es: Seq<AccountEvent>, e: AccountEvent)
    ensures
        events_view(es.push(e)) == events_view(es).push(e@),
{
    assert(events_view(es.push(e)) =~= events_view(es).push(e@));
}

/// Concatenating logs concatenates their viewed shapes.
pub proof fn lemma_events_view_add(a: Seq<AccountEvent>, b: Seq<AccountEvent>)
    ensures
        events_view(a + b) == events_view(a) + events_view(b),
{
    assert(events_view(a + b) =~= events_view(a) + events_view(b));
}

} // verus!
