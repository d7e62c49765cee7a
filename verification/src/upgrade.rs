//! The two-state upgrade flow: `upgrade` opens a migration while replacing
//! the account's code, and `migrate` completes it, falling back to the
//! idle state.  Completing a migration that was never opened is refused.

use vstd::prelude::*;

use crate::account::SmartAccount;
use crate::error::Error;
use crate::host::HostEnv;

verus! {

/// True when a migration has been opened and not yet completed.
pub fn can_complete_migration(account: &SmartAccount) -> (r: bool)
    ensures
        r == account.migrating,
{
    account.migrating
}

/// Fails with `MigrationNotAllowed` unless a migration is in progress.
pub fn ensure_can_complete_migration(account: &SmartAccount) -> (r: Result<(), Error>)
    ensures
        r is Ok <==> account.migrating,
        r is Err ==> r == Err::<(), Error>(Error::MigrationNotAllowed),
{
    if account.migrating {
        Ok(())
    } else {
        Err(Error::MigrationNotAllowed)
    }
}

/// Opens the migration window.
pub fn enable_migration(account: &mut SmartAccount)
    ensures
        *final(account) == (SmartAccount { migrating: true, ..*old(account) }),
{
    account.migrating = true;
}

/// Closes the migration window.
pub fn complete_migration(account: &mut SmartAccount)
    ensures
        *final(account) == (SmartAccount { migrating: false, ..*old(account) }),
{
    account.migrating = false;
}

impl SmartAccount {
    /// Replaces the account's code under its own authorization, leaving
    /// the account in the migrating state.  A second upgrade while already
    /// migrating is not rejected; only `migrate` checks the flag.
    pub fn upgrade<E: HostEnv>(&mut self, env: &E, new_wasm_hash: &Vec<u8>)
        ensures
            *final(self) == (SmartAccount { migrating: true, ..*old(self) }),
    {
        env.require_auth(&self.address);
        enable_migration(self);
        env.update_current_contract_wasm(new_wasm_hash);
    }

    /// Completes a migration under the account's own authorization; fails
    /// with `MigrationNotAllowed` unless one is in progress, and returns
    /// the account to the idle state.
    pub fn migrate<E: HostEnv>(&mut self, env: &E) -> (r: Result<(), Error>)
        ensures
            old(self).migrating <==> r is Ok,
            r is Ok ==> *final(self) == (SmartAccount { migrating: false, ..*old(self) }),
            r is Err ==> r == Err::<(), Error>(Error::MigrationNotAllowed) && *final(self) == *old(
                self,
            ),
    {
        env.require_auth(&self.address);
        ensure_can_complete_migration(self)?;
        complete_migration(self);
        Ok(())
    }
}

} // verus!
