//! A reference reserve: what a lending protocol does with a request, reduced
//! to the two balances that a vault's owner can observe.
//!
//! The real protocol runs elsewhere and answers a request with success or an
//! opaque failure. This model fixes what success means, so that a whole
//! deposit or withdrawal can be run and reasoned about end to end: a supply
//! moves tokens from the owner's token account into a position, a redemption
//! moves them back, and a request that the balances do not cover is refused
//! and moves nothing.

use crate::accounts::TokenAccount;
use crate::accounts::VaultState;
use crate::adapter::reported;
use crate::adapter::RemoteCall;
use crate::address::Address;
use crate::error::AdapterError;
use crate::error::VaultError;
use crate::instructions::deposit::deposit;
use crate::instructions::deposit::deposit_outcome;
use crate::instructions::deposit::Deposit;
use crate::instructions::withdraw::settled;
use crate::instructions::withdraw::withdraw;
use crate::instructions::withdraw::withdraw_outcome;
use crate::instructions::withdraw::Settlement;
use crate::instructions::withdraw::Withdraw;
use vstd::prelude::*;

verus! {

/// The request names another reserve, token account or authority.
pub const UNKNOWN_ACCOUNT: u32 = 1;

/// The request asks for more than the balance that it draws on.
pub const INSUFFICIENT_FUNDS: u32 = 2;

/// The request would raise a balance beyond what can be counted.
pub const LIMIT_EXCEEDED: u32 = 3;

/// One reserve, as seen by one depositor.
#[derive(Clone, Copy, Debug, PartialEq, Eq)]
pub struct Reserve {
    pub key: Address,
    /// What the depositor has supplied and not yet redeemed.
    pub position: u64,
}

impl Reserve {
    /// A reserve at `key` that holds nothing yet.
    pub fn new(key: Address) -> (reserve: Reserve)
        ensures
            reserve.key == key,
            reserve.position == 0,
    {
        Reserve { key, position: 0 }
    }

    /// The reserve and the token account after `call`, or the failure with
    /// which the reserve refuses it.
    ///
    /// A request must name this reserve, the token account as both its
    /// source and its destination, and the account's authority as owner. A
    /// supply must be covered by the token account, a redemption by the
    /// position, and neither may overflow the balance that it raises.
    pub open spec fn answer(self, wallet: TokenAccount, call: RemoteCall) -> Result<
        (Reserve, TokenAccount),
        AdapterError,
    > {
        let t = call.transfer();
        if t.reserve@ != self.key@ || t.source@ != wallet.key@ || t.destination@ != wallet.key@
            || t.owner@ != wallet.owner@ {
            Err(AdapterError { code: UNKNOWN_ACCOUNT })
        } else {
            match call {
                RemoteCall::DepositReserveLiquidity(_) => {
                    if t.amount > wallet.amount {
                        Err(AdapterError { code: INSUFFICIENT_FUNDS })
                    } else if self.position + t.amount > u64::MAX {
                        Err(AdapterError { code: LIMIT_EXCEEDED })
                    } else {
                        Ok(
                            (
                                Reserve { key: self.key, position: (self.position + t.amount) as u64 },
                                TokenAccount {
                                    key: wallet.key,
                                    mint: wallet.mint,
                                    owner: wallet.owner,
                                    amount: (wallet.amount - t.amount) as u64,
                                },
                            ),
                        )
                    }
                },
                RemoteCall::RedeemReserveCollateral(_) => {
                    if t.amount > self.position {
                        Err(AdapterError { code: INSUFFICIENT_FUNDS })
                    } else if wallet.amount + t.amount > u64::MAX {
                        Err(AdapterError { code: LIMIT_EXCEEDED })
                    } else {
                        Ok(
                            (
                                Reserve { key: self.key, position: (self.position - t.amount) as u64 },
                                TokenAccount {
                                    key: wallet.key,
                                    mint: wallet.mint,
                                    owner: wallet.owner,
                                    amount: (wallet.amount + t.amount) as u64,
                                },
                            ),
                        )
                    }
                },
            }
        }
    }

    /// Carries out `call` on the reserve and the token account, or refuses
    /// it and leaves both as they were.
    pub fn execute(&mut self, wallet: &mut TokenAccount, call: &RemoteCall) -> (r: Result<
        (),
        AdapterError,
    >)
        ensures
            match old(self).answer(*old(wallet), *call) {
                Ok((reserve, account)) => r is Ok && *final(self) == reserve && *final(wallet)
                    == account,
                Err(e) => r == Err::<(), AdapterError>(e) && *final(self) == *old(self)
                    && *final(wallet) == *old(wallet),
            },
    {
        let (t, supplying) = match call {
            RemoteCall::DepositReserveLiquidity(t) => (t, true),
            RemoteCall::RedeemReserveCollateral(t) => (t, false),
        };
        if t.reserve != self.key || t.source != wallet.key || t.destination != wallet.key
            || t.owner != wallet.owner {
            return Err(AdapterError { code: UNKNOWN_ACCOUNT });
        }
        if supplying {
            if t.amount > wallet.amount {
                return Err(AdapterError { code: INSUFFICIENT_FUNDS });
            }
            if t.amount > u64::MAX - self.position {
                return Err(AdapterError { code: LIMIT_EXCEEDED });
            }
            self.position = self.position + t.amount;
            wallet.amount = wallet.amount - t.amount;
        } else {
            if t.amount > self.position {
                return Err(AdapterError { code: INSUFFICIENT_FUNDS });
            }
            if t.amount > u64::MAX - wallet.amount {
                return Err(AdapterError { code: LIMIT_EXCEEDED });
            }
            self.position = self.position - t.amount;
            wallet.amount = wallet.amount + t.amount;
        }
        Ok(())
    }
}

/// A whole deposit against `reserve`: what the caller is told, and the
/// accounts and the reserve afterwards. Either the amount has moved from the
/// payer's token account into the position, or nothing has changed.
pub open spec fn deposited(
    ctx: Deposit,
    reserve: Reserve,
    program_id: Seq<u8>,
    project_id: Seq<u8>,
    amount: u64,
) -> (Result<(), VaultError>, Deposit, Reserve) {
    match deposit_outcome(ctx, program_id, project_id, amount) {
        Err(e) => (Err(e), ctx, reserve),
        Ok(call) => match reserve.answer(ctx.payer_token_account, call) {
            Err(e) => (reported(Err(e)), ctx, reserve),
            Ok((after, wallet)) => (Ok(()), Deposit { payer_token_account: wallet, ..ctx }, after),
        },
    }
}

/// A whole withdrawal against `reserve`: what the caller is told, and the
/// vault, the payer's token account and the reserve afterwards. Either the
/// amount has moved from the position into the token account, and the vault
/// is closed if the position is empty, or nothing has changed.
pub open spec fn withdrawn(
    ctx: Withdraw,
    reserve: Reserve,
    program_id: Seq<u8>,
    project_id: Seq<u8>,
    amount: u64,
) -> (Result<Settlement, VaultError>, VaultState, TokenAccount, Reserve) {
    match withdraw_outcome(ctx, program_id, project_id, amount) {
        Err(e) => (Err(e), ctx.vault@, ctx.payer_token_account, reserve),
        Ok(call) => match reserve.answer(ctx.payer_token_account, call) {
            Err(e) => (
                settled(ctx.vault@, Err(e), reserve.position).0,
                ctx.vault@,
                ctx.payer_token_account,
                reserve,
            ),
            Ok((after, wallet)) => (
                settled(ctx.vault@, Ok(()), after.position).0,
                settled(ctx.vault@, Ok(()), after.position).1,
                wallet,
                after,
            ),
        },
    }
}

/// Runs a whole deposit against `reserve`: checks it, has the reserve carry
/// out the request, and settles the answer.
pub fn run_deposit(
    ctx: &mut Deposit,
    reserve: &mut Reserve,
    program_id: &Address,
    project_id: &Address,
    amount: u64,
) -> (r: Result<(), VaultError>)
    ensures
        (r, *final(ctx), *final(reserve)) == deposited(
            *old(ctx),
            *old(reserve),
            program_id@,
            project_id@,
            amount,
        ),
{
    let call = match deposit(ctx, program_id, project_id, amount) {
        Ok(call) => call,
        Err(e) => {
            return Err(e);
        },
    };
    let outcome = reserve.execute(&mut ctx.payer_token_account, &call);
    crate::instructions::deposit::settle(outcome)
}

/// Runs a whole withdrawal against `reserve`: checks it, has the reserve
/// carry out the request, settles the answer and closes the vault where the
/// position is empty.
pub fn run_withdraw(
    ctx: &mut Withdraw,
    reserve: &mut Reserve,
    program_id: &Address,
    project_id: &Address,
    amount: u64,
) -> (r: Result<Settlement, VaultError>)
    ensures
        (r, final(ctx).vault@, final(ctx).payer_token_account, *final(reserve)) == withdrawn(
            *old(ctx),
            *old(reserve),
            program_id@,
            project_id@,
            amount,
        ),
        r is Err ==> *final(ctx) == *old(ctx),
        *final(ctx) == (Withdraw {
            vault: final(ctx).vault,
            payer_token_account: final(ctx).payer_token_account,
            ..*old(ctx)
        }),
        final(ctx).vault.key == old(ctx).vault.key,
{
    let call = match withdraw(ctx, program_id, project_id, amount) {
        Ok(call) => call,
        Err(e) => {
            return Err(e);
        },
    };
    let outcome = reserve.execute(&mut ctx.payer_token_account, &call);
    crate::instructions::withdraw::settle(ctx, outcome, reserve.position)
}

} // verus!
