//! What holds of every vault, whatever is done to it.

use crate::accounts::VaultState;
use crate::address::bumped_seeds;
use crate::address::created_program_address;
use crate::address::vault_address;
use crate::authority::owns;
use crate::authority::record_of;
use crate::error::AdapterError;
use crate::error::ErrorFamily;
use crate::error::VaultError;
use crate::instructions::deposit::Deposit;
use crate::instructions::init::placed;
use crate::instructions::init::InitializeVault;
use crate::instructions::withdraw::settled;
use crate::instructions::withdraw::Withdraw;
use crate::reserve::deposited;
use crate::reserve::withdrawn;
use crate::reserve::Reserve;
use crate::state::vault::joined;
use crate::state::vault::lemma_joined_addresses;
use crate::state::vault::lemma_parse_encoded;
use crate::state::vault::lemma_payload_layout;
use crate::state::vault::parsed;
use crate::state::vault::payload;
use crate::state::vault::Intervals;
use crate::state::vault::Protocols;
use crate::state::vault::VaultRecord;
use crate::state::vault::MAX_PROJECTS;
use crate::state::vault::SPACE;
use vstd::bytes::*;
use vstd::prelude::*;

verus! {

/// Every record fits the storage of a vault, and a record with
/// `MAX_PROJECTS` projects fills it to the last byte.
pub proof fn law_space_holds_every_record(v: VaultRecord)
    requires
        v.wf(),
    ensures
        payload(v).len() <= SPACE,
        payload(v).len() == SPACE <==> v.projects.len() == MAX_PROJECTS,
{
    lemma_payload_layout(v);
}

/// Stored bytes that read as a record begin with that record's payload:
/// reading undoes storing, and what is read is well formed.
pub proof fn law_record_read_is_record_stored(bytes: Seq<u8>)
    requires
        parsed(bytes) is Some,
    ensures
        parsed(bytes).unwrap().wf(),
        payload(parsed(bytes).unwrap()) == bytes.subrange(
            0,
            63 + 32 * (parsed(bytes).unwrap().projects.len() as int),
        ),
{
    let v = parsed(bytes).unwrap();
    let n = v.projects.len() as int;
    lemma_auto_spec_u64_to_from_le_bytes();
    lemma_auto_spec_u32_to_from_le_bytes();
    lemma_payload_layout(v);
    lemma_joined_addresses(v.projects);
    let p = payload(v);
    let b = bytes.subrange(0, 63 + 32 * n);
    assert(spec_u64_to_le_bytes(v.vault_id) == bytes.subrange(8, 16));
    assert(spec_u64_to_le_bytes(v.initial_amount) == bytes.subrange(18, 26));
    assert(spec_u32_to_le_bytes(n as u32) == bytes.subrange(26, 30));
    assert forall|i: int| 0 <= i < 63 + 32 * n implies p[i] == b[i] by {
        if i < 8 {
            assert(p[i] == p.subrange(0, 8)[i]);
            assert(b[i] == bytes.subrange(0, 8)[i]);
        } else if i < 16 {
            assert(p[i] == p.subrange(8, 16)[i - 8]);
            assert(b[i] == bytes.subrange(8, 16)[i - 8]);
        } else if i < 18 {
        } else if i < 26 {
            assert(p[i] == p.subrange(18, 26)[i - 18]);
            assert(b[i] == bytes.subrange(18, 26)[i - 18]);
        } else if i < 30 {
            assert(p[i] == p.subrange(26, 30)[i - 26]);
            assert(b[i] == bytes.subrange(26, 30)[i - 26]);
        } else if i < 30 + 32 * n {
            let k = (i - 30) / 32;
            let j = (i - 30) % 32;
            assert(0 <= k < n && 0 <= j < 32 && i == 30 + 32 * k + j);
            assert(p[i] == p.subrange(30, 30 + 32 * n)[i - 30]);
            assert(joined(v.projects)[32 * k + j] == joined(v.projects).subrange(
                32 * k,
                32 * k + 32,
            )[j]);
            assert(v.projects[k][j] == bytes.subrange(30 + 32 * k, 62 + 32 * k)[j]);
        } else if i < 62 + 32 * n {
            assert(p[i] == p.subrange(30 + 32 * n, 62 + 32 * n)[i - 30 - 32 * n]);
            assert(b[i] == bytes.subrange(30 + 32 * n, 62 + 32 * n)[i - 30 - 32 * n]);
        } else {
        }
    }
    assert(p =~= b);
}

/// The arguments of an initialization other than its accounts.
pub struct Terms {
    pub storage_deposit: u64,
    pub protocol: Protocols,
    pub interval: Intervals,
    pub initial_amount: u64,
    pub projects: Seq<Seq<u8>>,
    pub mint: Seq<u8>,
}

impl Terms {
    /// The projects and the mint are addresses.
    pub open spec fn wf(self) -> bool {
        &&& forall|i: int| 0 <= i < self.projects.len() ==> (#[trigger] self.projects[i]).len() == 32
        &&& self.mint.len() == 32
    }
}

/// The account that an initialization with `terms` leaves, given the address
/// and bump that the search gave.
pub open spec fn initialized(
    ctx: InitializeVault,
    derived: Option<(Seq<u8>, u8)>,
    vault_id: u64,
    terms: Terms,
) -> Result<VaultState, VaultError> {
    placed(
        ctx,
        derived,
        terms.storage_deposit,
        vault_id,
        terms.protocol,
        terms.interval,
        terms.initial_amount,
        terms.projects,
        terms.mint,
    )
}

/// An initialized vault derives again. When the owner's initialization of
/// the vault `vault_id` has succeeded, searching the address of that vault
/// again gives the address at which the record stands and the bump that the
/// record stores, and the stored id and bump alone, with the owner's address,
/// derive the address without a search: the owner owns the vault.
pub proof fn law_initialized_vault_rederives(
    ctx: InitializeVault,
    program_id: Seq<u8>,
    vault_id: u64,
    terms: Terms,
)
    requires
        terms.wf(),
        initialized(ctx, vault_address(program_id, vault_id, ctx.payer.key@), vault_id, terms)
            is Ok,
    ensures
        ({
            &&& initialized(
                ctx,
                vault_address(program_id, vault_id, ctx.payer.key@),
                vault_id,
                terms,
            ) matches Ok(state)
            &&& vault_address(program_id, vault_id, ctx.payer.key@) matches Some((address, bump))
            &&& address == state.key
            &&& record_of(state) matches Some(record)
            &&& record.vault_id == vault_id
            &&& record.bump == bump
            &&& created_program_address(bumped_seeds(vault_id, ctx.payer.key@, bump), program_id)
                == Some(state.key)
            &&& owns(program_id, state, ctx.payer.key@)
        }),
{
    let (address, bump) = vault_address(program_id, vault_id, ctx.payer.key@).unwrap();
    let record = VaultRecord {
        vault_id,
        protocol: terms.protocol,
        interval: terms.interval,
        initial_amount: terms.initial_amount,
        projects: terms.projects,
        mint: terms.mint,
        bump,
    };
    assert(record.wf());
    lemma_parse_encoded(record);
}

/// A vault is initialized once. When an initialization has succeeded, one
/// more by the same owner for the same `vault_id`, which is given the same
/// address, fails with `AlreadyInitialized`, whatever else it asks for.
pub proof fn law_initialized_once(
    first: InitializeVault,
    second: InitializeVault,
    derived: Option<(Seq<u8>, u8)>,
    vault_id: u64,
    terms: Terms,
    other_terms: Terms,
)
    requires
        initialized(first, derived, vault_id, terms) matches Ok(state) && second.vault@ == state,
        second.payer == first.payer,
    ensures
        initialized(second, derived, vault_id, other_terms) == Err::<VaultState, VaultError>(
            VaultError::AlreadyInitialized,
        ),
        VaultError::AlreadyInitialized.in_family(ErrorFamily::Initialization),
{
}

/// What one operation may make of the account at a vault's address: nothing
/// (a deposit, or a withdrawal up to its request), what an initialization
/// leaves, or what the settling of a withdrawal leaves.
pub open spec fn step(before: VaultState, after: VaultState) -> bool {
    ||| after == before
    ||| exists|ctx: InitializeVault, derived: Option<(Seq<u8>, u8)>, vault_id: u64, terms: Terms|
        ctx.vault@ == before && #[trigger] initialized(ctx, derived, vault_id, terms) == Ok::<
            VaultState,
            VaultError,
        >(after)
    ||| exists|outcome: Result<(), AdapterError>, remaining: u64|
        (#[trigger] settled(before, outcome, remaining)).1 == after
}

/// A record is written once and never changed: after any operation on a live
/// vault, the address holds the very same bytes, and so the same projects and
/// the same mint, or the vault is closed. A closed vault stays closed.
pub proof fn law_record_is_immutable(before: VaultState, after: VaultState)
    requires
        step(before, after),
    ensures
        before.slot is Active ==> after == before || after.slot is Closed,
        record_of(before) matches Some(record) ==> after.slot is Closed || (record_of(after)
            matches Some(kept) && kept.projects == record.projects && kept.mint == record.mint),
        before.slot is Closed ==> after == before,
{
}

/// A vault's account only moves forward: once something is stored at the
/// address it is never vacant again, and a closed vault stays closed.
pub proof fn law_lifecycle_moves_forward(before: VaultState, after: VaultState)
    requires
        step(before, after),
    ensures
        after.slot is Uninitialized ==> before.slot is Uninitialized,
        before.slot is Closed ==> after.slot is Closed,
        after.key == before.key,
{
}

/// A signer that does not own the vault cannot deposit through it: the
/// deposit fails with an authorization error, and neither the vault, the
/// token account nor the position changes.
pub proof fn law_stranger_cannot_deposit(
    ctx: Deposit,
    reserve: Reserve,
    program_id: Seq<u8>,
    project_id: Seq<u8>,
    amount: u64,
)
    requires
        !owns(program_id, ctx.vault@, ctx.payer.key@),
    ensures
        deposited(ctx, reserve, program_id, project_id, amount) == (
            Err::<(), VaultError>(VaultError::WrongVaultAuthority),
            ctx,
            reserve,
        ),
        VaultError::WrongVaultAuthority.in_family(ErrorFamily::Authorization),
{
}

/// A deposit followed by a withdrawal of the same amount from the same token
/// account, both carried out by the reserve, leaves the token account's
/// balance and the position as they were before the deposit.
pub proof fn law_round_trip(
    ctx: Deposit,
    back: Withdraw,
    reserve: Reserve,
    program_id: Seq<u8>,
    project_id: Seq<u8>,
    amount: u64,
)
    requires
        ({
            let there = deposited(ctx, reserve, program_id, project_id, amount);
            let back_again = withdrawn(back, there.2, program_id, project_id, amount);
            &&& there.0 is Ok
            &&& back.payer_token_account == there.1.payer_token_account
            &&& back_again.0 is Ok
        }),
    ensures
        ({
            let there = deposited(ctx, reserve, program_id, project_id, amount);
            let back_again = withdrawn(back, there.2, program_id, project_id, amount);
            &&& back_again.2 == ctx.payer_token_account
            &&& back_again.3 == reserve
        }),
{
}

/// A withdrawal of more than the position fails with a delegation error and
/// changes nothing: the vault is not closed, and the token account and the
/// position are as before.
pub proof fn law_overdraw_is_refused(
    ctx: Withdraw,
    reserve: Reserve,
    program_id: Seq<u8>,
    project_id: Seq<u8>,
    amount: u64,
)
    requires
        amount > reserve.position,
    ensures
        ({
            let refused = withdrawn(ctx, reserve, program_id, project_id, amount);
            &&& refused.0 matches Err(e) && e.in_family(ErrorFamily::Delegation)
            &&& refused.1 == ctx.vault@
            &&& refused.2 == ctx.payer_token_account
            &&& refused.3 == reserve
        }),
{
}

} // verus!
