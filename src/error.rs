use vstd::prelude::*;

verus! {

/// Why an operation was rejected. Every rejection leaves the ledger untouched.
#[derive(Clone, Copy, Debug, PartialEq, Eq, Structural)]
pub enum EscrowError {
    /// A party that must co-sign did not, or the custody authority supplied
    /// is not the one the program can sign for.
    MissingSignature,
    /// A referenced account or record slot does not exist.
    AccountNotFound,
    /// The custody holder's address is already taken.
    AccountInUse,
    /// No bump yields a keyless program address.
    NoProgramAddress,
    /// The custody holder supplied is not at its derived address.
    InvalidVaultAddress,
    /// The record slot already holds an escrow.
    RecordNotZeroed,
    /// The record slot holds no escrow.
    RecordNotInitialized,
    /// An account holds less than the operation requires up front.
    BalanceTooLow,
    /// A supplied account differs from the one recorded at creation.
    AccountMismatch,
    /// A supplied identity differs from the one recorded at creation.
    IdentityMismatch,
    /// Transfer source holds less than the amount.
    InsufficientFunds,
    /// The signer is not the account's authority.
    OwnerMismatch,
    /// The transfer would overflow the destination balance.
    Overflow,
    /// An account with a balance cannot be closed.
    NonZeroAccount,
}

} // verus!
