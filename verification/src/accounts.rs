//! The accounts that an instruction is handed, as plain values.
//!
//! The ledger runtime resolves the accounts of an instruction and checks the
//! signatures. What the vault logic reads of them is held here.

use crate::address::Address;
use vstd::prelude::*;

verus! {

/// An account whose signature the instruction asks for.
#[derive(Clone, Copy, Debug, PartialEq, Eq)]
pub struct Signer {
    pub key: Address,
    /// Whether the runtime found the account's signature on the transaction.
    pub is_signer: bool,
}

/// An account that is passed on without any check made here: the lending
/// protocol is the one to verify it.
#[derive(Clone, Copy, Debug, PartialEq, Eq)]
pub struct UncheckedAccount {
    pub key: Address,
}

/// A mint: the account that defines an asset.
#[derive(Clone, Copy, Debug, PartialEq, Eq)]
pub struct Mint {
    pub key: Address,
}

/// A token account: a balance of one asset under one authority.
#[derive(Clone, Copy, Debug, PartialEq, Eq)]
pub struct TokenAccount {
    pub key: Address,
    pub mint: Address,
    /// The authority that may move the balance.
    pub owner: Address,
    pub amount: u64,
}

/// What the address of a vault holds.
#[derive(Clone, Debug, PartialEq, Eq)]
pub enum VaultSlot {
    /// Nothing was ever stored at the address.
    Uninitialized,
    /// The stored bytes of a live vault.
    Active(Vec<u8>),
    /// The vault was closed. Nothing can be done at the address any more.
    Closed,
}

/// What the address of a vault holds, as a mathematical value.
pub enum Slot {
    Uninitialized,
    Active(Seq<u8>),
    Closed,
}

impl View for VaultSlot {
    type V = Slot;

    open spec fn view(&self) -> Slot {
        match self {
            VaultSlot::Uninitialized => Slot::Uninitialized,
            VaultSlot::Active(data) => Slot::Active(data@),
            VaultSlot::Closed => Slot::Closed,
        }
    }
}

/// The account at a vault's address.
#[derive(Clone, Debug, PartialEq, Eq)]
pub struct VaultAccount {
    pub key: Address,
    /// The storage deposit that the account holds.
    pub lamports: u64,
    pub slot: VaultSlot,
}

/// The account at a vault's address, as a mathematical value.
pub struct VaultState {
    pub key: Seq<u8>,
    pub lamports: u64,
    pub slot: Slot,
}

impl View for VaultAccount {
    type V = VaultState;

    open spec fn view(&self) -> VaultState {
        VaultState { key: self.key@, lamports: self.lamports, slot: self.slot@ }
    }
}

impl VaultAccount {
    /// The account at `key` before any vault was created there.
    pub fn empty(key: Address) -> (account: VaultAccount)
        ensures
            account.key == key,
            account.lamports == 0,
            account.slot == VaultSlot::Uninitialized,
    {
        VaultAccount { key, lamports: 0, slot: VaultSlot::Uninitialized }
    }
}

} // verus!
