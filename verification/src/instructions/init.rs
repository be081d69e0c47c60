//! Initialization: create the record of a vault at its derived address.

use crate::accounts::Signer;
use crate::accounts::Slot;
use crate::accounts::VaultAccount;
use crate::accounts::VaultSlot;
use crate::accounts::VaultState;
use crate::address::find_vault_address;
use crate::address::vault_address;
use crate::address::Address;
use crate::authority::owns;
use crate::authority::record_of;
use crate::error::VaultError;
use crate::state::vault::encoded;
use crate::state::vault::lemma_parse_encoded;
use crate::state::vault::Intervals;
use crate::state::vault::Protocols;
use crate::state::vault::VaultRecord;
use crate::state::vault::YieldVault;
use crate::state::vault::MAX_PROJECTS;
use vstd::prelude::*;

verus! {

/// The accounts of an initialization.
#[derive(Clone, Debug, PartialEq, Eq)]
pub struct InitializeVault {
    /// The account at the address that the vault is to have.
    pub vault: VaultAccount,
    /// The owner of the new vault, who funds its storage.
    pub payer: Signer,
    pub system_program: Address,
}

/// The account of a vault after its initialization, or the reason for which
/// there is none. `derived` is the address and bump that the search gave for
/// the payer and `vault_id`.
pub open spec fn placed(
    ctx: InitializeVault,
    derived: Option<(Seq<u8>, u8)>,
    storage_deposit: u64,
    vault_id: u64,
    protocol: Protocols,
    interval: Intervals,
    initial_amount: u64,
    projects: Seq<Seq<u8>>,
    mint: Seq<u8>,
) -> Result<VaultState, VaultError> {
    if !ctx.payer.is_signer {
        Err(VaultError::UnauthorizedSigner)
    } else {
        match derived {
            None => Err(VaultError::DerivationExhausted),
            Some((address, bump)) => {
                if address != ctx.vault.key@ {
                    Err(VaultError::WrongVaultAuthority)
                } else if !(ctx.vault.slot is Uninitialized) {
                    Err(VaultError::AlreadyInitialized)
                } else if projects.len() == 0 {
                    Err(VaultError::EmptyProjectSet)
                } else if projects.len() > MAX_PROJECTS {
                    Err(VaultError::ProjectSetTooLarge)
                } else {
                    Ok(
                        VaultState {
                            key: ctx.vault.key@,
                            lamports: storage_deposit,
                            slot: Slot::Active(
                                encoded(
                                    VaultRecord {
                                        vault_id,
                                        protocol,
                                        interval,
                                        initial_amount,
                                        projects,
                                        mint,
                                        bump,
                                    },
                                ),
                            ),
                        },
                    )
                }
            },
        }
    }
}

/// Writes the record of a new vault, given the address and bump that the
/// search gave for the payer and `vault_id`.
///
/// In this order: the payer must have signed, else `UnauthorizedSigner`; an
/// address must have been found, else `DerivationExhausted`; it must be the
/// address of the account handed in, else `WrongVaultAuthority`; nothing may
/// ever have been stored there, else `AlreadyInitialized`; there must be a
/// project, else `EmptyProjectSet`, and no more than the record can hold,
/// else `ProjectSetTooLarge`. On success the account holds the stored record
/// and the storage deposit; on failure nothing is changed.
pub fn place(
    ctx: &mut InitializeVault,
    derived: Option<(Address, u8)>,
    storage_deposit: u64,
    vault_id: u64,
    protocol: Protocols,
    interval: Intervals,
    initial_amount: u64,
    projects: Vec<Address>,
    mint: Address,
) -> (r: Result<(), VaultError>)
    ensures
        match placed(
            *old(ctx),
            match derived {
                Some((a, b)) => Some((a@, b)),
                None => None,
            },
            storage_deposit,
            vault_id,
            protocol,
            interval,
            initial_amount,
            projects@.map_values(|a: Address| a@),
            mint@,
        ) {
            Ok(state) => {
                &&& r is Ok
                &&& final(ctx).vault@ == state
                &&& final(ctx).vault.key == old(ctx).vault.key
                &&& final(ctx).payer == old(ctx).payer
                &&& final(ctx).system_program == old(ctx).system_program
            },
            Err(e) => r == Err::<(), VaultError>(e) && *final(ctx) == *old(ctx),
        },
{
    if !ctx.payer.is_signer {
        return Err(VaultError::UnauthorizedSigner);
    }
    let (address, bump) = match derived {
        Some(found) => found,
        None => {
            return Err(VaultError::DerivationExhausted);
        },
    };
    if address != ctx.vault.key {
        return Err(VaultError::WrongVaultAuthority);
    }
    let vacant = match &ctx.vault.slot {
        VaultSlot::Uninitialized => true,
        _ => false,
    };
    if !vacant {
        return Err(VaultError::AlreadyInitialized);
    }
    let record = match YieldVault::new(
        protocol,
        interval,
        initial_amount,
        vault_id,
        projects,
        mint,
        bump,
    ) {
        Ok(v) => v,
        Err(e) => {
            return Err(e);
        },
    };
    let data = record.encode();
    ctx.vault.lamports = storage_deposit;
    ctx.vault.slot = VaultSlot::Active(data);
    Ok(())
}

/// Creates the vault `vault_id` of the payer under the program `program_id`.
///
/// Searches the vault's address and then does what `place` does. On success
/// the payer owns the vault: searching again gives the address of the
/// account and the bump that the record stores, and that bump alone derives
/// the address.
pub fn init(
    ctx: &mut InitializeVault,
    program_id: &Address,
    storage_deposit: u64,
    vault_id: u64,
    protocol: Protocols,
    interval: Intervals,
    initial_amount: u64,
    projects: Vec<Address>,
    mint: Address,
) -> (r: Result<(), VaultError>)
    ensures
        match placed(
            *old(ctx),
            vault_address(program_id@, vault_id, old(ctx).payer.key@),
            storage_deposit,
            vault_id,
            protocol,
            interval,
            initial_amount,
            projects@.map_values(|a: Address| a@),
            mint@,
        ) {
            Ok(state) => {
                &&& r is Ok
                &&& final(ctx).vault@ == state
                &&& final(ctx).vault.key == old(ctx).vault.key
                &&& final(ctx).payer == old(ctx).payer
                &&& final(ctx).system_program == old(ctx).system_program
            },
            Err(e) => r == Err::<(), VaultError>(e) && *final(ctx) == *old(ctx),
        },
        r is Ok ==> owns(program_id@, final(ctx).vault@, old(ctx).payer.key@),
        r is Ok ==> ({
            &&& vault_address(program_id@, vault_id, old(ctx).payer.key@)
                matches Some((address, bump))
            &&& address == final(ctx).vault.key@
            &&& record_of(final(ctx).vault@) matches Some(record)
            &&& record.bump == bump
            &&& record.vault_id == vault_id
        }),
{
    if !ctx.payer.is_signer {
        return Err(VaultError::UnauthorizedSigner);
    }
    let derived = match find_vault_address(program_id, vault_id, &ctx.payer.key) {
        Ok(found) => Some(found),
        Err(_) => None,
    };
    let ghost record = VaultRecord {
        vault_id,
        protocol,
        interval,
        initial_amount,
        projects: projects@.map_values(|a: Address| a@),
        mint: mint@,
        bump: match derived {
            Some((_, b)) => b,
            None => 0,
        },
    };
    let r = place(
        ctx,
        derived,
        storage_deposit,
        vault_id,
        protocol,
        interval,
        initial_amount,
        projects,
        mint,
    );
    proof {
        if r is Ok {
            assert(record.wf());
            lemma_parse_encoded(record);
        }
    }
    r
}

} // verus!
