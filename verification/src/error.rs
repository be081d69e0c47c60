//! The reasons for which an operation on a vault is refused.

use vstd::prelude::*;

verus! {

/// Why an operation on a vault failed.
#[derive(Clone, Copy, Debug, PartialEq, Eq, Structural)]
pub enum VaultError {
    /// The derived address already holds a record, live or closed.
    AlreadyInitialized,
    /// A vault must be scoped to at least one project.
    EmptyProjectSet,
    /// More projects than the record's fixed storage can hold.
    ProjectSetTooLarge,
    /// The owner did not sign the initialization.
    UnauthorizedSigner,
    /// No bump gives the seeds an address without a private key.
    DerivationExhausted,
    /// The signer is not the authority of the vault it names, or the record
    /// does not belong at its address. Also the one signal for a request
    /// that the lending protocol turned down.
    WrongVaultAuthority,
    /// An amount of zero.
    InvalidAmount,
    /// The project is not one the vault acts for.
    UnknownProject,
    /// A token account or mint of another asset than the vault's.
    MintMismatch,
}

/// The three families into which failures are sorted for callers.
#[derive(Clone, Copy, Debug, PartialEq, Eq, Structural)]
pub enum ErrorFamily {
    /// The vault could not be created.
    Initialization,
    /// The caller may not act on the vault.
    Authorization,
    /// The request was not, or could not be, carried out by the protocol.
    Delegation,
}

impl VaultError {
    /// Whether the error counts as one of `family`. Every error has a family;
    /// `WrongVaultAuthority` has two, since it reports both a wrong authority
    /// and a rejected delegation.
    pub open spec fn in_family(self, family: ErrorFamily) -> bool {
        match family {
            ErrorFamily::Initialization => self == VaultError::AlreadyInitialized || self
                == VaultError::EmptyProjectSet || self == VaultError::ProjectSetTooLarge || self
                == VaultError::UnauthorizedSigner || self == VaultError::DerivationExhausted,
            ErrorFamily::Authorization => self == VaultError::WrongVaultAuthority,
            ErrorFamily::Delegation => self == VaultError::WrongVaultAuthority || self
                == VaultError::InvalidAmount || self == VaultError::UnknownProject || self
                == VaultError::MintMismatch,
        }
    }

    /// Tells whether the error counts as one of `family`.
    pub fn belongs_to(&self, family: ErrorFamily) -> (r: bool)
        ensures
            r == self.in_family(family),
    {
        match family {
            ErrorFamily::Initialization => match self {
                VaultError::AlreadyInitialized
                | VaultError::EmptyProjectSet
                | VaultError::ProjectSetTooLarge
                | VaultError::UnauthorizedSigner
                | VaultError::DerivationExhausted => true,
                _ => false,
            },
            ErrorFamily::Authorization => match self {
                VaultError::WrongVaultAuthority => true,
                _ => false,
            },
            ErrorFamily::Delegation => match self {
                VaultError::WrongVaultAuthority
                | VaultError::InvalidAmount
                | VaultError::UnknownProject
                | VaultError::MintMismatch => true,
                _ => false,
            },
        }
    }
}

/// An opaque failure of the lending protocol: a code that this library passes
/// on and never interprets.
#[derive(Clone, Copy, Debug, PartialEq, Eq, Structural)]
pub struct AdapterError {
    pub code: u32,
}

} // verus!
