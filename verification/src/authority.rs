//! Who may act on a vault, and which requests a vault accepts.
//!
//! A vault has no owner field. Its owner is the signer whose address, with
//! the vault's id and the stored bump, derives the address at which the
//! record stands. Every deposit and withdrawal derives that address again
//! before anything is handed to the lending protocol.

use crate::accounts::Mint;
use crate::accounts::Signer;
use crate::accounts::Slot;
use crate::accounts::TokenAccount;
use crate::accounts::VaultAccount;
use crate::accounts::VaultSlot;
use crate::accounts::VaultState;
use crate::address::bumped_seeds;
use crate::address::created_program_address;
use crate::address::create_vault_address;
use crate::address::Address;
use crate::error::VaultError;
use crate::state::vault::parsed;
use crate::state::vault::VaultRecord;
use crate::state::vault::YieldVault;
use vstd::prelude::*;

verus! {

/// The record of the live vault at an address; `None` where the address
/// holds no vault, a closed one, or bytes that store no record.
pub open spec fn record_of(vault: VaultState) -> Option<VaultRecord> {
    match vault.slot {
        Slot::Active(data) => parsed(data),
        _ => None,
    }
}

/// Whether `signer` is the owner of the live vault at `vault`: the stored id
/// and bump, with the signer's address, derive the vault's own address under
/// the program `program_id`.
pub open spec fn owns(program_id: Seq<u8>, vault: VaultState, signer: Seq<u8>) -> bool {
    record_of(vault) matches Some(record) && created_program_address(
        bumped_seeds(record.vault_id, signer, record.bump),
        program_id,
    ) == Some(vault.key)
}

/// Whether `payer` may move the funds of `wallet` through the vault: it
/// signed, it owns the vault, and it is the authority of the token account.
pub open spec fn authorized(
    program_id: Seq<u8>,
    vault: VaultState,
    payer: Signer,
    wallet: TokenAccount,
) -> bool {
    payer.is_signer && owns(program_id, vault, payer.key@) && wallet.owner@ == payer.key@
}

/// What a vault answers to a request for `amount` on behalf of
/// `project_id`, before the lending protocol is asked: the amount is not
/// zero, the project is one of the vault's, and both the mint named and the
/// token account are of the vault's asset.
pub open spec fn screened(
    record: VaultRecord,
    mint: Mint,
    wallet: TokenAccount,
    project_id: Seq<u8>,
    amount: u64,
) -> Result<(), VaultError> {
    if amount == 0 {
        Err(VaultError::InvalidAmount)
    } else if !record.projects.contains(project_id) {
        Err(VaultError::UnknownProject)
    } else if mint.key@ != record.mint || wallet.mint@ != record.mint {
        Err(VaultError::MintMismatch)
    } else {
        Ok(())
    }
}

/// Reads the record of the live vault at `vault`.
pub fn load(vault: &VaultAccount) -> (r: Option<YieldVault>)
    ensures
        match r {
            Some(v) => record_of(vault@) == Some(v@) && v.wf(),
            None => record_of(vault@) is None,
        },
{
    match &vault.slot {
        VaultSlot::Active(data) => YieldVault::decode(data.as_slice()),
        _ => None,
    }
}

/// Decides on the authority of `payer` from the address that the vault's
/// seeds gave with the stored bump: the payer signed, the address is the
/// vault's, and the payer is the authority of `wallet`. Anything else is
/// `WrongVaultAuthority`.
pub fn confirm(
    vault: &VaultAccount,
    payer: &Signer,
    wallet: &TokenAccount,
    rederived: Option<Address>,
) -> (r: Result<(), VaultError>)
    ensures
        r == if payer.is_signer && (rederived matches Some(a) && a@ == vault.key@) && wallet.owner@
            == payer.key@ {
            Ok::<(), VaultError>(())
        } else {
            Err::<(), VaultError>(VaultError::WrongVaultAuthority)
        },
{
    if !payer.is_signer {
        return Err(VaultError::WrongVaultAuthority);
    }
    match rederived {
        Some(a) => {
            if a == vault.key && wallet.owner == payer.key {
                Ok(())
            } else {
                Err(VaultError::WrongVaultAuthority)
            }
        },
        None => Err(VaultError::WrongVaultAuthority),
    }
}

/// Checks that `payer` may act on the vault at `vault` with the funds of
/// `wallet`, and hands out the vault's record.
///
/// It succeeds exactly where `authorized` holds, and fails with
/// `WrongVaultAuthority` everywhere else: no signature, no live record at
/// the address, a record that the payer's address does not derive, or a
/// token account under another authority.
pub fn authorize(
    program_id: &Address,
    vault: &VaultAccount,
    payer: &Signer,
    wallet: &TokenAccount,
) -> (r: Result<YieldVault, VaultError>)
    ensures
        match r {
            Ok(v) => authorized(program_id@, vault@, *payer, *wallet) && record_of(vault@) == Some(
                v@,
            ) && v.wf(),
            Err(e) => e == VaultError::WrongVaultAuthority && !authorized(
                program_id@,
                vault@,
                *payer,
                *wallet,
            ),
        },
{
    let record = match load(vault) {
        Some(v) => v,
        None => {
            return Err(VaultError::WrongVaultAuthority);
        },
    };
    let rederived = create_vault_address(program_id, record.vault_id, &payer.key, record.bump);
    match confirm(vault, payer, wallet, rederived) {
        Ok(()) => Ok(record),
        Err(e) => Err(e),
    }
}

/// Screens a request for `amount` on behalf of `project_id` against the
/// vault's record.
pub fn screen(
    record: &YieldVault,
    mint: &Mint,
    wallet: &TokenAccount,
    project_id: &Address,
    amount: u64,
) -> (r: Result<(), VaultError>)
    ensures
        r == screened(record@, *mint, *wallet, project_id@, amount),
{
    if amount == 0 {
        Err(VaultError::InvalidAmount)
    } else if !record.has_project(project_id) {
        Err(VaultError::UnknownProject)
    } else if mint.key != record.mint || wallet.mint != record.mint {
        Err(VaultError::MintMismatch)
    } else {
        Ok(())
    }
}

} // verus!
