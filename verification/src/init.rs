use vstd::prelude::*;

use crate::addr::{addr_eq, derive_vault_address, derived_vault_address, Address};
use crate::error::VaultError;
use crate::record::VaultData;

verus! {

/// Everything one creation transaction presents to the initializer,
/// mirroring the transaction's account list: the claimed storage account,
/// the authenticated authority, and the runtime's verdicts about them.
#[derive(Clone, Copy, Debug)]
pub struct InitializeVault {
    /// The storage account the caller claims is the vault.
    pub vault_address: Address,
    /// Whether a record is already present at that storage account.
    pub vault_initialized: bool,
    /// The prospective owner, who also pays for the allocation.
    pub authority: Address,
    /// The runtime's guarantee that the authority signed the transaction.
    pub authority_is_signer: bool,
    /// The authority's balance available for the allocation.
    pub authority_lamports: u64,
    /// What the runtime charges to allocate the record's storage.
    pub allocation_cost: u64,
}

/// The complete outcome of one initialization attempt: each precondition is
/// checked in order, the first failing one decides the error, and on success
/// the record holds the authority as owner, the clock reading as creation
/// time, and a zero value.
pub open spec fn initialize_outcome(
    ctx: InitializeVault,
    program: Seq<u8>,
    clock: Option<i64>,
) -> Result<VaultData, VaultError> {
    match derived_vault_address(ctx.authority@, program) {
        None => Err(VaultError::AddressDerivationExhausted),
        Some((addr, bump)) => if ctx.vault_address@ != addr {
            Err(VaultError::InvalidVaultAddress)
        } else if ctx.vault_initialized {
            Err(VaultError::AlreadyInitialized)
        } else if !ctx.authority_is_signer {
            Err(VaultError::MissingSignerAuthorization)
        } else if ctx.authority_lamports < ctx.allocation_cost {
            Err(VaultError::InsufficientFunds)
        } else {
            match clock {
                None => Err(VaultError::ClockUnavailable),
                Some(t) => Ok(VaultData { owner: ctx.authority, created_at: t, value: 0 }),
            }
        },
    }
}

/// Execute the one-time creation transition for the owner claimed in `ctx`.
///
/// Re-derives the vault address from the authority, enforces every
/// precondition before any effect, and returns the record to be written;
/// the outcome is exactly [`initialize_outcome`].
pub fn initialize_vault(ctx: &InitializeVault, program: &Address, clock: Option<i64>) -> (r:
    Result<VaultData, VaultError>)
    ensures
        r == initialize_outcome(*ctx, program@, clock),
{
    let addr = match derive_vault_address(&ctx.authority, program) {
        Ok(p) => p.0,
        Err(_) => {
            return Err(VaultError::AddressDerivationExhausted);
        },
    };
    if !addr_eq(&ctx.vault_address, &addr) {
        return Err(VaultError::InvalidVaultAddress);
    }
    if ctx.vault_initialized {
        return Err(VaultError::AlreadyInitialized);
    }
    if !ctx.authority_is_signer {
        return Err(VaultError::MissingSignerAuthorization);
    }
    if ctx.authority_lamports < ctx.allocation_cost {
        return Err(VaultError::InsufficientFunds);
    }
    match clock {
        None => Err(VaultError::ClockUnavailable),
        Some(t) => Ok(VaultData { owner: ctx.authority, created_at: t, value: 0 }),
    }
}

/// Address binding: when the supplied storage address differs from the
/// derived one, initialization fails with `InvalidVaultAddress` whatever the
/// rest of the transaction looks like, so nothing is allocated.
pub proof fn lemma_address_binding(ctx: InitializeVault, program: Seq<u8>, clock: Option<i64>)
    requires
        derived_vault_address(ctx.authority@, program) matches Some(p) && ctx.vault_address@
            != p.0,
    ensures
        initialize_outcome(ctx, program, clock) == Err::<VaultData, VaultError>(
            VaultError::InvalidVaultAddress,
        ),
{
}

/// Authorization: a well-addressed, fresh vault still cannot be created
/// without the owner's signature; the failure is `MissingSignerAuthorization`.
pub proof fn lemma_authorization(ctx: InitializeVault, program: Seq<u8>, clock: Option<i64>)
    requires
        derived_vault_address(ctx.authority@, program) matches Some(p) && ctx.vault_address@
            == p.0,
        !ctx.vault_initialized,
        !ctx.authority_is_signer,
    ensures
        initialize_outcome(ctx, program, clock) == Err::<VaultData, VaultError>(
            VaultError::MissingSignerAuthorization,
        ),
{
}

/// Timestamp fidelity: a successful initialization writes exactly the clock
/// value read during this call, the claimed owner, and a zero value.
pub proof fn lemma_timestamp_fidelity(ctx: InitializeVault, program: Seq<u8>, t: i64)
    requires
        initialize_outcome(ctx, program, Some(t)) is Ok,
    ensures
        initialize_outcome(ctx, program, Some(t)) == Ok::<VaultData, VaultError>(
            VaultData { owner: ctx.authority, created_at: t, value: 0 },
        ),
{
}

} // verus!
