//! The typed, recoverable errors of the engine.  Invalid cryptographic
//! material is the one failure that is *not* represented here: the host's
//! verification primitives abort the whole call instead (see
//! [`crate::host::HostEnv`]).

use vstd::prelude::*;

verus! {

/// Every recoverable failure an account operation can report.
#[derive(Clone, Copy, Debug, PartialEq, Eq, Structural)]
pub enum Error {
    /// Account has already been initialized.
    AlreadyInitialized,
    /// Account has not been initialized yet.
    NotInitialized,
    /// Storage entry was not found.
    StorageEntryNotFound,
    /// Storage entry already exists.
    StorageEntryAlreadyExists,
    /// Signer already exists in the account.
    SignerAlreadyExists,
    /// Signer was not found in the account.
    SignerNotFound,
    /// Revoking an admin signer directly is never allowed.
    CannotRevokeAdminSigner,
    /// The transition would leave the account without any admin signer.
    CannotDowngradeLastAdmin,
    /// The admin counter cannot grow any further.
    MaxSignersReached,
    /// The proof variant does not match the signer's scheme.
    InvalidProofType,
    /// The authorization bundle carries no proofs at all.
    NoProofsInAuthEntry,
    /// The challenge inside the WebAuthn client data differs from the
    /// re-encoded signature payload.
    ClientDataJsonIncorrectChallenge,
    /// The WebAuthn client data is oversized or carries no challenge field.
    InvalidWebauthnClientDataJson,
    /// No signer in the bundle authorizes the requested operations.
    InsufficientPermissions,
    /// The initial signer set contains no admin signer.
    InsufficientPermissionsOnCreation,
    /// A time window is empty or already expired.
    InvalidTimeRange,
    /// A time window ends in the past.
    InvalidNotAfterTime,
    /// A policy delegate rejected its `on_add` hook.
    PolicyClientInitializationError,
    /// Plugin not found.
    PluginNotFound,
    /// Plugin already installed.
    PluginAlreadyInstalled,
    /// A plugin rejected its `on_install` hook.
    PluginInitializationFailed,
    /// A plugin rejected its `on_auth` hook.
    PluginOnAuthFailed,
    /// A code migration was attempted while none is in progress.
    MigrationNotAllowed,
}

impl From<crate::storage::Error> for Error {
    fn from(e: crate::storage::Error) -> Error {
        match e {
            crate::storage::Error::NotFound => Error::StorageEntryNotFound,
            crate::storage::Error::AlreadyExists => Error::StorageEntryAlreadyExists,
        }
    }
}

impl vstd::std_specs::convert::FromSpecImpl<crate::storage::Error> for Error {
    open spec fn obeys_from_spec() -> bool {
        true
    }

    open spec fn from_spec(e: crate::storage::Error) -> Error {
        match e {
            crate::storage::Error::NotFound => Error::StorageEntryNotFound,
            crate::storage::Error::AlreadyExists => Error::StorageEntryAlreadyExists,
        }
    }
}

} // verus!
