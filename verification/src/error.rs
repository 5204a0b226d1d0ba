use vstd::prelude::*;

verus! {

/// Every way a vault operation can fail.
///
/// Each precondition of the initializer maps to exactly one variant; the
/// first failing check decides the error and nothing is mutated.
#[derive(Clone, Copy, Debug, PartialEq, Eq, Structural)]
pub enum VaultError {
    /// The supplied storage address does not equal the derived vault address.
    InvalidVaultAddress,
    /// A vault record is already present at the derived address.
    AlreadyInitialized,
    /// The claimed owner did not sign the transaction.
    MissingSignerAuthorization,
    /// The fee payer cannot cover the fixed storage allocation cost.
    InsufficientFunds,
    /// No off-curve candidate was found in the whole bump search range.
    AddressDerivationExhausted,
    /// The ledger runtime's clock could not be read.
    ClockUnavailable,
}

} // verus!
