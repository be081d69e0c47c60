//! The program's three entry points.
//!
//! The program's own address is not fixed here: whoever deploys the program
//! passes it in, and every vault address is derived under it.

use crate::adapter::RemoteCall;
use crate::address::vault_address;
use crate::address::Address;
use crate::authority::owns;
use crate::authority::record_of;
use crate::error::VaultError;
use crate::instructions::deposit::deposit_outcome;
use crate::instructions::deposit::Deposit;
use crate::instructions::init::placed;
use crate::instructions::init::InitializeVault;
use crate::instructions::withdraw::withdraw_outcome;
use crate::instructions::withdraw::Withdraw;
use crate::state::vault::Intervals;
use crate::state::vault::Protocols;
use vstd::prelude::*;

verus! {

/// The accounts of an instruction that names none.
#[derive(Clone, Copy, Debug, PartialEq, Eq, Structural)]
pub struct Initialize {}

/// Creates the vault `vault_id` of the payer: see `instructions::init::init`.
pub fn initialize_vault(
    ctx: &mut InitializeVault,
    program_id: &Address,
    storage_deposit: u64,
    vault_id: u64,
    protocol: Protocols,
    interval: Intervals,
    initial_amount: u64,
    projects: Vec<Address>,
    mint: Address,
) -> (r: Result<(), VaultError>)
    ensures
        match placed(
            *old(ctx),
            vault_address(program_id@, vault_id, old(ctx).payer.key@),
            storage_deposit,
            vault_id,
            protocol,
            interval,
            initial_amount,
            projects@.map_values(|a: Address| a@),
            mint@,
        ) {
            Ok(state) => {
                &&& r is Ok
                &&& final(ctx).vault@ == state
                &&& final(ctx).vault.key == old(ctx).vault.key
                &&& final(ctx).payer == old(ctx).payer
                &&& final(ctx).system_program == old(ctx).system_program
            },
            Err(e) => r == Err::<(), VaultError>(e) && *final(ctx) == *old(ctx),
        },
        r is Ok ==> owns(program_id@, final(ctx).vault@, old(ctx).payer.key@),
        r is Ok ==> ({
            &&& vault_address(program_id@, vault_id, old(ctx).payer.key@)
                matches Some((address, bump))
            &&& address == final(ctx).vault.key@
            &&& record_of(final(ctx).vault@) matches Some(record)
            &&& record.bump == bump
            &&& record.vault_id == vault_id
        }),
{
    crate::instructions::init::init(
        ctx,
        program_id,
        storage_deposit,
        vault_id,
        protocol,
        interval,
        initial_amount,
        projects,
        mint,
    )
}

/// Checks a deposit and makes its request: see
/// `instructions::deposit::deposit`.
pub fn deposit(ctx: &Deposit, program_id: &Address, project_id: &Address, amount: u64) -> (r:
    Result<RemoteCall, VaultError>)
    ensures
        r == deposit_outcome(*ctx, program_id@, project_id@, amount),
{
    crate::instructions::deposit::deposit(ctx, program_id, project_id, amount)
}

/// Checks a withdrawal and makes its request: see
/// `instructions::withdraw::withdraw`. The vault is closed when the answer is
/// settled.
pub fn withdraw_and_close(
    ctx: &Withdraw,
    program_id: &Address,
    project_id: &Address,
    amount: u64,
) -> (r: Result<RemoteCall, VaultError>)
    ensures
        r == withdraw_outcome(*ctx, program_id@, project_id@, amount),
{
    crate::instructions::withdraw::withdraw(ctx, program_id, project_id, amount)
}

} // verus!
