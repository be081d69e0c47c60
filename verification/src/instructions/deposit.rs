//! Deposit: hand an amount of the payer's tokens to the vault's protocol.

use crate::accounts::Mint;
use crate::accounts::Signer;
use crate::accounts::TokenAccount;
use crate::accounts::UncheckedAccount;
use crate::accounts::VaultAccount;
use crate::adapter::report;
use crate::adapter::reported;
use crate::adapter::supply;
use crate::adapter::supply_call;
use crate::adapter::RemoteCall;
use crate::adapter::ReserveAccounts;
use crate::address::Address;
use crate::authority::authorize;
use crate::authority::authorized;
use crate::authority::record_of;
use crate::authority::screen;
use crate::authority::screened;
use crate::error::AdapterError;
use crate::error::VaultError;
use vstd::prelude::*;

verus! {

/// The accounts of a deposit.
#[derive(Clone, Debug, PartialEq, Eq)]
pub struct Deposit {
    /// The vault that the deposit goes through.
    pub vault: VaultAccount,
    pub lending_market: UncheckedAccount,
    pub lending_market_authority: UncheckedAccount,
    pub mint: Mint,
    pub reserve_liquidity_supply: UncheckedAccount,
    pub reserve: UncheckedAccount,
    pub payer: Signer,
    pub payer_token_account: TokenAccount,
    pub kamino_program: Address,
    pub system_program: Address,
    pub token_program: Address,
    pub associated_token_program: Address,
}

impl Deposit {
    /// The accounts that the lending protocol is handed.
    pub open spec fn reserve_accounts(self) -> ReserveAccounts {
        ReserveAccounts {
            program: self.kamino_program,
            owner: self.payer.key,
            reserve: self.reserve.key,
            reserve_collateral_mint: self.mint.key,
            lending_market: self.lending_market.key,
            lending_market_authority: self.lending_market_authority.key,
            reserve_liquidity_supply: self.reserve_liquidity_supply.key,
            owner_token_account: self.payer_token_account.key,
            token_program: self.token_program,
        }
    }

    /// The accounts that the lending protocol is handed.
    pub fn to_reserve_accounts(&self) -> (accounts: ReserveAccounts)
        ensures
            accounts == self.reserve_accounts(),
    {
        ReserveAccounts {
            program: self.kamino_program,
            owner: self.payer.key,
            reserve: self.reserve.key,
            reserve_collateral_mint: self.mint.key,
            lending_market: self.lending_market.key,
            lending_market_authority: self.lending_market_authority.key,
            reserve_liquidity_supply: self.reserve_liquidity_supply.key,
            owner_token_account: self.payer_token_account.key,
            token_program: self.token_program,
        }
    }
}

/// What a deposit of `amount` on behalf of `project_id` comes to: the
/// request for the vault's protocol, or the reason for which none is made.
pub open spec fn deposit_outcome(
    ctx: Deposit,
    program_id: Seq<u8>,
    project_id: Seq<u8>,
    amount: u64,
) -> Result<RemoteCall, VaultError> {
    if !authorized(program_id, ctx.vault@, ctx.payer, ctx.payer_token_account) {
        Err(VaultError::WrongVaultAuthority)
    } else {
        let record = record_of(ctx.vault@).unwrap();
        match screened(record, ctx.mint, ctx.payer_token_account, project_id, amount) {
            Err(e) => Err(e),
            Ok(()) => Ok(supply_call(record.protocol, ctx.reserve_accounts(), amount)),
        }
    }
}

/// Checks a deposit and makes the request for the vault's protocol.
///
/// The payer must have signed, own the vault and be the authority of its
/// token account, else `WrongVaultAuthority`; the amount must not be zero,
/// else `InvalidAmount`; the project must be one of the vault's, else
/// `UnknownProject`; the mint and the token account must be of the vault's
/// asset, else `MintMismatch`. Nothing is changed here: the caller sends the
/// request and passes the answer to `settle`.
pub fn deposit(ctx: &Deposit, program_id: &Address, project_id: &Address, amount: u64) -> (r:
    Result<RemoteCall, VaultError>)
    ensures
        r == deposit_outcome(*ctx, program_id@, project_id@, amount),
{
    let record = match authorize(program_id, &ctx.vault, &ctx.payer, &ctx.payer_token_account) {
        Ok(v) => v,
        Err(e) => {
            return Err(e);
        },
    };
    match screen(&record, &ctx.mint, &ctx.payer_token_account, project_id, amount) {
        Ok(()) => {},
        Err(e) => {
            return Err(e);
        },
    }
    let accounts = ctx.to_reserve_accounts();
    Ok(supply(record.protocol, &accounts, amount))
}

/// Ends a deposit with the protocol's answer: success, or
/// `WrongVaultAuthority` for any failure. The vault's record does not change
/// either way.
pub fn settle(outcome: Result<(), AdapterError>) -> (r: Result<(), VaultError>)
    ensures
        r == reported(outcome),
{
    report(outcome)
}

} // verus!
