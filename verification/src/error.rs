//! Errors of the vault and of the ledger service it instructs.

use vstd::prelude::*;

verus! {

/// Why the ledger service refused a call.
#[derive(Clone, Copy, Debug, PartialEq, Eq, Structural)]
pub enum LedgerError {
    /// The source account holds less than the amount asked for.
    InsufficientFunds,
    /// An account is unknown to the ledger or holds another token.
    AccountMismatch,
    /// The signer is not the mint authority of the token.
    MintAuthorityRejected,
    /// The supply or a balance would leave the range the ledger can hold.
    SupplyOverflow,
    /// An account already exists at the address.
    AccountExists,
    /// The signer does not own the source account.
    Unauthorized,
}

/// Why a vault operation was rejected.
#[derive(Clone, Copy, Debug, PartialEq, Eq, Structural)]
pub enum VaultError {
    /// The claimed bump does not derive the address that the operation names.
    AuthorityMismatch,
    /// A balance is too small for the amount.
    InsufficientFunds,
    /// The escrow account was registered before.
    AlreadyInitialized,
    /// A wrong token or account was supplied.
    AccountMismatch,
    /// The ledger does not accept the derived mint authority.
    MintAuthorityRejected,
    /// Minting would exceed what the ledger can hold.
    SupplyOverflow,
}

/// The vault error under which a refusal of the ledger reaches the caller.
pub open spec fn surfaced(error: LedgerError) -> VaultError {
    match error {
        LedgerError::InsufficientFunds => VaultError::InsufficientFunds,
        LedgerError::AccountMismatch => VaultError::AccountMismatch,
        LedgerError::MintAuthorityRejected => VaultError::MintAuthorityRejected,
        LedgerError::SupplyOverflow => VaultError::SupplyOverflow,
        LedgerError::AccountExists => VaultError::AlreadyInitialized,
        LedgerError::Unauthorized => VaultError::AuthorityMismatch,
    }
}

impl VaultError {
    /// Reports a refusal of the ledger to the caller, keeping its kind.
    pub fn from_ledger(error: LedgerError) -> (surfaced_as: VaultError)
        ensures
            surfaced_as == surfaced(error),
    {
        match error {
            LedgerError::InsufficientFunds => VaultError::InsufficientFunds,
            LedgerError::AccountMismatch => VaultError::AccountMismatch,
            LedgerError::MintAuthorityRejected => VaultError::MintAuthorityRejected,
            LedgerError::SupplyOverflow => VaultError::SupplyOverflow,
            LedgerError::AccountExists => VaultError::AlreadyInitialized,
            LedgerError::Unauthorized => VaultError::AuthorityMismatch,
        }
    }
}

} // verus!
