//! How long a store keeps what is put into it.

use vstd::prelude::*;

verus! {

/// The lifetime of the credentials of a store.
#[derive(Debug, Clone, Copy, PartialEq, Eq, Hash, Structural)]
pub enum CredentialPersistence {
    /// As long as the entry lives.
    EntryOnly,
    /// As long as the process runs.
    ProcessOnly,
    /// Until the user logs out.
    UntilLogout,
    /// Until the machine restarts.
    UntilReboot,
    /// Until the credential is deleted.
    UntilDelete,
    /// Not stated.
    Unspecified,
}

} // verus!
