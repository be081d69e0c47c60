//! The seam between the vault and the lending protocol that services it.
//!
//! A vault never talks to a lending protocol itself. For a deposit or a
//! withdrawal it makes one request in the shape that the vault's protocol
//! asks for, the caller sends it, and the answer, success or an opaque
//! failure, comes back to be settled. A protocol is added by adding a variant
//! and its arm here; the instructions do not change.

use crate::address::Address;
use crate::error::AdapterError;
use crate::error::VaultError;
use crate::state::vault::Protocols;
use vstd::prelude::*;

verus! {

/// The accounts that a deposit or a withdrawal hands to the lending
/// protocol. None but `owner` is checked on this side.
#[derive(Clone, Copy, Debug, PartialEq, Eq)]
pub struct ReserveAccounts {
    /// The lending program to call.
    pub program: Address,
    /// The authority on whose behalf the request is made.
    pub owner: Address,
    pub reserve: Address,
    pub reserve_collateral_mint: Address,
    pub lending_market: Address,
    pub lending_market_authority: Address,
    pub reserve_liquidity_supply: Address,
    /// The token account of the owner that the request moves funds from or to.
    pub owner_token_account: Address,
    pub token_program: Address,
}

/// One request to Kamino's reserve.
#[derive(Clone, Copy, Debug, PartialEq, Eq)]
pub struct ReserveTransfer {
    pub program: Address,
    pub owner: Address,
    pub reserve: Address,
    pub reserve_collateral_mint: Address,
    pub lending_market: Address,
    pub lending_market_authority: Address,
    pub reserve_liquidity_supply: Address,
    /// The token account that funds are taken from.
    pub source: Address,
    /// The token account that receives what the reserve gives in return.
    pub destination: Address,
    pub token_program: Address,
    pub amount: u64,
}

/// A request to a lending protocol, in that protocol's own shape.
#[derive(Clone, Copy, Debug, PartialEq, Eq)]
pub enum RemoteCall {
    /// Kamino: move liquidity into the reserve against collateral.
    DepositReserveLiquidity(ReserveTransfer),
    /// Kamino: hand collateral back to the reserve against liquidity.
    RedeemReserveCollateral(ReserveTransfer),
}

impl RemoteCall {
    /// The accounts and the amount of the request.
    pub open spec fn transfer(self) -> ReserveTransfer {
        match self {
            RemoteCall::DepositReserveLiquidity(t) => t,
            RemoteCall::RedeemReserveCollateral(t) => t,
        }
    }

    /// The amount that the request moves.
    pub fn amount(&self) -> (amount: u64)
        ensures
            amount == self.transfer().amount,
    {
        match self {
            RemoteCall::DepositReserveLiquidity(t) => t.amount,
            RemoteCall::RedeemReserveCollateral(t) => t.amount,
        }
    }
}

/// Kamino's transfer over `accounts`: the owner's token account is both where
/// funds are taken from and where the reserve's return goes.
pub open spec fn kamino_transfer(accounts: ReserveAccounts, amount: u64) -> ReserveTransfer {
    ReserveTransfer {
        program: accounts.program,
        owner: accounts.owner,
        reserve: accounts.reserve,
        reserve_collateral_mint: accounts.reserve_collateral_mint,
        lending_market: accounts.lending_market,
        lending_market_authority: accounts.lending_market_authority,
        reserve_liquidity_supply: accounts.reserve_liquidity_supply,
        source: accounts.owner_token_account,
        destination: accounts.owner_token_account,
        token_program: accounts.token_program,
        amount,
    }
}

/// The request by which `protocol` takes in `amount`.
pub open spec fn supply_call(protocol: Protocols, accounts: ReserveAccounts, amount: u64)
    -> RemoteCall {
    match protocol {
        Protocols::Kamino => RemoteCall::DepositReserveLiquidity(kamino_transfer(accounts, amount)),
    }
}

/// The request by which `protocol` gives back `amount`.
pub open spec fn redeem_call(protocol: Protocols, accounts: ReserveAccounts, amount: u64)
    -> RemoteCall {
    match protocol {
        Protocols::Kamino => RemoteCall::RedeemReserveCollateral(kamino_transfer(accounts, amount)),
    }
}

fn kamino(accounts: &ReserveAccounts, amount: u64) -> (t: ReserveTransfer)
    ensures
        t == kamino_transfer(*accounts, amount),
{
    ReserveTransfer {
        program: accounts.program,
        owner: accounts.owner,
        reserve: accounts.reserve,
        reserve_collateral_mint: accounts.reserve_collateral_mint,
        lending_market: accounts.lending_market,
        lending_market_authority: accounts.lending_market_authority,
        reserve_liquidity_supply: accounts.reserve_liquidity_supply,
        source: accounts.owner_token_account,
        destination: accounts.owner_token_account,
        token_program: accounts.token_program,
        amount,
    }
}

/// Makes the request that moves `amount` of the owner's tokens into the
/// reserve of `protocol`.
pub fn supply(protocol: Protocols, accounts: &ReserveAccounts, amount: u64) -> (call: RemoteCall)
    ensures
        call == supply_call(protocol, *accounts, amount),
{
    match protocol {
        Protocols::Kamino => RemoteCall::DepositReserveLiquidity(kamino(accounts, amount)),
    }
}

/// Makes the request that reverses a supply of `amount`: the reserve of
/// `protocol` returns the tokens to the owner.
pub fn redeem(protocol: Protocols, accounts: &ReserveAccounts, amount: u64) -> (call: RemoteCall)
    ensures
        call == redeem_call(protocol, *accounts, amount),
{
    match protocol {
        Protocols::Kamino => RemoteCall::RedeemReserveCollateral(kamino(accounts, amount)),
    }
}

/// What a caller is told of the protocol's answer: any failure, whatever its
/// code, becomes `WrongVaultAuthority`.
pub open spec fn reported(outcome: Result<(), AdapterError>) -> Result<(), VaultError> {
    match outcome {
        Ok(()) => Ok(()),
        Err(_) => Err(VaultError::WrongVaultAuthority),
    }
}

/// Turns the protocol's answer into the instruction's result. Nothing is
/// retried.
pub fn report(outcome: Result<(), AdapterError>) -> (r: Result<(), VaultError>)
    ensures
        r == reported(outcome),
{
    match outcome {
        Ok(()) => Ok(()),
        Err(_) => Err(VaultError::WrongVaultAuthority),
    }
}

} // verus!
