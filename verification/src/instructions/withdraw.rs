//! Withdraw: take an amount back from the vault's protocol, and close the
//! vault once nothing is left there.

use crate::accounts::Mint;
use crate::accounts::Signer;
use crate::accounts::Slot;
use crate::accounts::TokenAccount;
use crate::accounts::UncheckedAccount;
use crate::accounts::VaultAccount;
use crate::accounts::VaultSlot;
use crate::accounts::VaultState;
use crate::adapter::redeem;
use crate::adapter::redeem_call;
use crate::adapter::RemoteCall;
use crate::adapter::ReserveAccounts;
use crate::address::Address;
use crate::authority::authorize;
use crate::authority::authorized;
use crate::authority::record_of;
use crate::authority::screen;
use crate::authority::screened;
use crate::error::AdapterError;
use crate::error::VaultError;
use vstd::prelude::*;

verus! {

/// The accounts of a withdrawal.
#[derive(Clone, Debug, PartialEq, Eq)]
pub struct Withdraw {
    /// The vault that the withdrawal goes through.
    pub vault: VaultAccount,
    pub lending_market: UncheckedAccount,
    pub lending_market_authority: UncheckedAccount,
    pub mint: Mint,
    pub reserve_liquidity_supply: UncheckedAccount,
    pub reserve: UncheckedAccount,
    pub payer: Signer,
    pub payer_token_account: TokenAccount,
    pub kamino_program: Address,
    pub system_program: Address,
    pub token_program: Address,
    pub associated_token_program: Address,
}

/// How a withdrawal left the vault.
#[derive(Clone, Copy, Debug, PartialEq, Eq, Structural)]
pub enum Settlement {
    /// A position remains; the vault stays as it was.
    Open,
    /// Nothing remains: the vault is closed, and `refund` is the storage
    /// deposit that its account held, now owed to the owner.
    Closed { refund: u64 },
}

impl Withdraw {
    /// The accounts that the lending protocol is handed.
    pub open spec fn reserve_accounts(self) -> ReserveAccounts {
        ReserveAccounts {
            program: self.kamino_program,
            owner: self.payer.key,
            reserve: self.reserve.key,
            reserve_collateral_mint: self.mint.key,
            lending_market: self.lending_market.key,
            lending_market_authority: self.lending_market_authority.key,
            reserve_liquidity_supply: self.reserve_liquidity_supply.key,
            owner_token_account: self.payer_token_account.key,
            token_program: self.token_program,
        }
    }

    /// The accounts that the lending protocol is handed.
    pub fn to_reserve_accounts(&self) -> (accounts: ReserveAccounts)
        ensures
            accounts == self.reserve_accounts(),
    {
        ReserveAccounts {
            program: self.kamino_program,
            owner: self.payer.key,
            reserve: self.reserve.key,
            reserve_collateral_mint: self.mint.key,
            lending_market: self.lending_market.key,
            lending_market_authority: self.lending_market_authority.key,
            reserve_liquidity_supply: self.reserve_liquidity_supply.key,
            owner_token_account: self.payer_token_account.key,
            token_program: self.token_program,
        }
    }
}

/// What a withdrawal of `amount` on behalf of `project_id` comes to: the
/// request for the vault's protocol, or the reason for which none is made.
/// Whether the position covers the amount is for the protocol to say.
pub open spec fn withdraw_outcome(
    ctx: Withdraw,
    program_id: Seq<u8>,
    project_id: Seq<u8>,
    amount: u64,
) -> Result<RemoteCall, VaultError> {
    if !authorized(program_id, ctx.vault@, ctx.payer, ctx.payer_token_account) {
        Err(VaultError::WrongVaultAuthority)
    } else {
        let record = record_of(ctx.vault@).unwrap();
        match screened(record, ctx.mint, ctx.payer_token_account, project_id, amount) {
            Err(e) => Err(e),
            Ok(()) => Ok(redeem_call(record.protocol, ctx.reserve_accounts(), amount)),
        }
    }
}

/// The vault after a withdrawal was answered with `outcome` and left
/// `remaining` of the position, together with what the caller is told.
///
/// A failure of the protocol, and an answer for a vault that is not live,
/// are `WrongVaultAuthority` and change nothing. A success that leaves a
/// position changes nothing either. A success that leaves none closes the
/// vault and releases its storage deposit.
pub open spec fn settled(vault: VaultState, outcome: Result<(), AdapterError>, remaining: u64) -> (
    Result<Settlement, VaultError>,
    VaultState,
) {
    if outcome is Err || !(vault.slot is Active) {
        (Err(VaultError::WrongVaultAuthority), vault)
    } else if remaining > 0 {
        (Ok(Settlement::Open), vault)
    } else {
        (
            Ok(Settlement::Closed { refund: vault.lamports }),
            VaultState { key: vault.key, lamports: 0, slot: Slot::Closed },
        )
    }
}

/// Checks a withdrawal and makes the request for the vault's protocol.
///
/// The checks are those of a deposit, with the same errors. Nothing is
/// changed here: the caller sends the request and passes the answer, and the
/// position that is left, to `settle`.
pub fn withdraw(ctx: &Withdraw, program_id: &Address, project_id: &Address, amount: u64) -> (r:
    Result<RemoteCall, VaultError>)
    ensures
        r == withdraw_outcome(*ctx, program_id@, project_id@, amount),
{
    let record = match authorize(program_id, &ctx.vault, &ctx.payer, &ctx.payer_token_account) {
        Ok(v) => v,
        Err(e) => {
            return Err(e);
        },
    };
    match screen(&record, &ctx.mint, &ctx.payer_token_account, project_id, amount) {
        Ok(()) => {},
        Err(e) => {
            return Err(e);
        },
    }
    let accounts = ctx.to_reserve_accounts();
    Ok(redeem(record.protocol, &accounts, amount))
}

/// Ends a withdrawal with the protocol's answer and the position that is
/// left after it, and closes the vault where that is none.
pub fn settle(ctx: &mut Withdraw, outcome: Result<(), AdapterError>, remaining: u64) -> (r: Result<
    Settlement,
    VaultError,
>)
    ensures
        (r, final(ctx).vault@) == settled(old(ctx).vault@, outcome, remaining),
        r is Err || r == Ok::<Settlement, VaultError>(Settlement::Open) ==> *final(ctx) == *old(ctx),
        *final(ctx) == (Withdraw { vault: final(ctx).vault, ..*old(ctx) }),
        final(ctx).vault.key == old(ctx).vault.key,
{
    if outcome.is_err() {
        return Err(VaultError::WrongVaultAuthority);
    }
    let live = match &ctx.vault.slot {
        VaultSlot::Active(_) => true,
        _ => false,
    };
    if !live {
        return Err(VaultError::WrongVaultAuthority);
    }
    if remaining > 0 {
        return Ok(Settlement::Open);
    }
    let refund = ctx.vault.lamports;
    ctx.vault.lamports = 0;
    ctx.vault.slot = VaultSlot::Closed;
    Ok(Settlement::Closed { refund })
}

} // verus!
