//! Addresses, and the derivation of the address at which a vault lives.
//!
//! A vault's address is computed from a seed prefix, the vault's id and its
//! owner's address. No private key exists for it. The computation is the
//! ledger runtime's; this module hands it the seeds and names what it returns.

use crate::error::VaultError;
use crate::state::vault::SEED_PREFIX;
use anchor_lang::prelude::Pubkey;
use anchor_lang::solana_program::pubkey::PubkeyError;
use vstd::bytes::spec_u64_to_le_bytes;
use vstd::bytes::u64_to_le_bytes;
use vstd::prelude::*;
use vstd::std_specs::cmp::PartialEqSpecImpl;

verus! {

/// A location on the ledger: an account, a mint, a program or a project.
#[derive(Clone, Copy, Debug, Eq)]
pub struct Address {
    pub bytes: [u8; 32],
}

impl View for Address {
    type V = Seq<u8>;

    open spec fn view(&self) -> Seq<u8> {
        self.bytes@
    }
}

impl PartialEq for Address {
    fn eq(&self, other: &Address) -> (r: bool) {
        let mut i: usize = 0;
        while i < 32
            invariant
                i <= 32,
                forall|j: int| 0 <= j < i ==> self.bytes[j] == other.bytes[j],
            decreases 32 - i,
        {
            if self.bytes[i] != other.bytes[i] {
                return false;
            }
            i += 1;
        }
        assert(self.bytes@ =~= other.bytes@);
        true
    }
}

impl PartialEqSpecImpl for Address {
    open spec fn obeys_eq_spec() -> bool {
        true
    }

    open spec fn eq_spec(&self, other: &Address) -> bool {
        self.bytes@ == other.bytes@
    }
}

impl Address {
    /// The address with the given bytes.
    pub fn new(bytes: [u8; 32]) -> (a: Address)
        ensures
            a.bytes == bytes,
            a@ == bytes@,
    {
        Address { bytes }
    }

    /// Tells whether the address is a point of the curve, so that a private
    /// key may exist for it. A derived address never is.
    pub fn is_on_curve(&self) -> (r: bool)
        ensures
            r == on_curve(self@),
    {
        is_on_curve(&self.bytes)
    }

    /// The address's bytes, in order.
    pub fn to_vec(&self) -> (v: Vec<u8>)
        ensures
            v@ == self@,
    {
        let mut v: Vec<u8> = Vec::new();
        let mut i: usize = 0;
        while i < 32
            invariant
                i <= 32,
                v@ == self.bytes@.subrange(0, i as int),
            decreases 32 - i,
        {
            v.push(self.bytes[i]);
            assert(v@ =~= self.bytes@.subrange(0, i + 1));
            i += 1;
        }
        assert(v@ =~= self.bytes@);
        v
    }
}

/// The seeds of a vault: the prefix, the vault's id as eight little-endian
/// bytes, and the owner's address.
pub open spec fn vault_seeds(vault_id: u64, owner: Seq<u8>) -> Seq<Seq<u8>> {
    seq![SEED_PREFIX@, spec_u64_to_le_bytes(vault_id), owner]
}

/// The seeds of a vault followed by a one-byte bump seed.
pub open spec fn bumped_seeds(vault_id: u64, owner: Seq<u8>, bump: u8) -> Seq<Seq<u8>> {
    vault_seeds(vault_id, owner).push(seq![bump])
}

/// The byte strings that a list of seeds holds.
pub open spec fn seed_views(seeds: Vec<Vec<u8>>) -> Seq<Seq<u8>> {
    seeds@.map_values(|s: Vec<u8>| s@)
}

/// The error type of `Pubkey::create_program_address`.
#[verifier::external_type_specification]
#[verifier::external_body]
pub struct ExPubkeyError(PubkeyError);

/// The address that `Pubkey::create_program_address` returns for `seeds` and
/// the program `program_id`; `None` where it returns an error.
pub uninterp spec fn created_program_address(seeds: Seq<Seq<u8>>, program_id: Seq<u8>) -> Option<
    Seq<u8>,
>;

/// What `Pubkey::is_on_curve` returns for the address with these bytes:
/// whether they are a point of the curve on which key pairs live, so that a
/// private key may exist for them.
pub uninterp spec fn on_curve(address: Seq<u8>) -> bool;

/// Whether `bump` is the bump of `seeds` under `program_id`: the largest
/// byte, from 255 down to 1, that makes the seeds an address when it follows
/// them as a seed of its own.
pub open spec fn is_bump_of(seeds: Seq<Seq<u8>>, program_id: Seq<u8>, bump: u8) -> bool {
    &&& bump >= 1
    &&& created_program_address(seeds.push(seq![bump]), program_id) is Some
    &&& forall|c: u8|
        c > bump ==> (#[trigger] created_program_address(seeds.push(seq![c]), program_id)) is None
}

/// The address of `seeds` under `program_id` together with their bump; `None`
/// where no bump from 255 down to 1 makes them an address.
pub open spec fn program_address(seeds: Seq<Seq<u8>>, program_id: Seq<u8>) -> Option<
    (Seq<u8>, u8),
> {
    if exists|b: u8| is_bump_of(seeds, program_id, b) {
        let b = choose|b: u8| is_bump_of(seeds, program_id, b);
        Some((created_program_address(seeds.push(seq![b]), program_id).unwrap(), b))
    } else {
        None
    }
}

/// Seeds have one bump at most.
pub proof fn lemma_bump_is_unique(seeds: Seq<Seq<u8>>, program_id: Seq<u8>, b: u8, c: u8)
    requires
        is_bump_of(seeds, program_id, b),
        is_bump_of(seeds, program_id, c),
    ensures
        b == c,
{
    if b < c {
        assert(created_program_address(seeds.push(seq![c]), program_id) is None);
    } else if c < b {
        assert(created_program_address(seeds.push(seq![b]), program_id) is None);
    }
}

/// Calls `Pubkey::is_on_curve`. Nothing is proved of it: the contract only
/// names the result.
#[verifier::external_body]
fn is_on_curve(address: &[u8; 32]) -> (r: bool)
    ensures
        r == on_curve(address@),
{
    Pubkey::new_from_array(*address).is_on_curve()
}

/// Calls `Pubkey::create_program_address`. Nothing is proved of it. The
/// contract names the address that it returns, none on error, and adds what
/// its last step guarantees: an address that it returns is not on the curve.
#[verifier::external_body]
fn create_program_address(seeds: &Vec<Vec<u8>>, program_id: &[u8; 32]) -> (r: Result<
    [u8; 32],
    PubkeyError,
>)
    ensures
        r matches Ok(a) ==> created_program_address(seed_views(*seeds), program_id@) == Some(a@)
            && !on_curve(a@),
        r is Err ==> created_program_address(seed_views(*seeds), program_id@) is None,
{
    let parts: Vec<&[u8]> = seeds.iter().map(|s| s.as_slice()).collect();
    match Pubkey::create_program_address(&parts, &Pubkey::new_from_array(*program_id)) {
        Ok(key) => Ok(key.to_bytes()),
        Err(e) => Err(e),
    }
}

/// Calls `Pubkey::try_find_program_address`. Nothing is proved of it. The
/// contract says what its search returns in terms of
/// `Pubkey::create_program_address`: it tries the bumps from 255 down to 1,
/// each as one more seed of one byte, and returns the first that gives an
/// address, with that address, which is not on the curve; it returns nothing
/// where none of them gives one.
#[verifier::external_body]
fn try_find_program_address(seeds: &Vec<Vec<u8>>, program_id: &[u8; 32]) -> (r: Option<
    ([u8; 32], u8),
>)
    ensures
        r matches Some((a, b)) ==> is_bump_of(seed_views(*seeds), program_id@, b)
            && created_program_address(seed_views(*seeds).push(seq![b]), program_id@) == Some(a@)
            && !on_curve(a@),
        r is None ==> forall|c: u8|
            c >= 1 ==> (#[trigger] created_program_address(
                seed_views(*seeds).push(seq![c]),
                program_id@,
            )) is None,
{
    let parts: Vec<&[u8]> = seeds.iter().map(|s| s.as_slice()).collect();
    match Pubkey::try_find_program_address(&parts, &Pubkey::new_from_array(*program_id)) {
        Some((key, bump)) => Some((key.to_bytes(), bump)),
        None => None,
    }
}

/// Builds the seeds of the vault `vault_id` of `owner`.
pub fn seeds_of(vault_id: u64, owner: &Address) -> (seeds: Vec<Vec<u8>>)
    ensures
        seed_views(seeds) == vault_seeds(vault_id, owner@),
{
    let mut prefix: Vec<u8> = Vec::new();
    let mut i: usize = 0;
    while i < SEED_PREFIX.len()
        invariant
            i <= SEED_PREFIX@.len(),
            prefix@ == SEED_PREFIX@.subrange(0, i as int),
        decreases SEED_PREFIX@.len() - i,
    {
        prefix.push(SEED_PREFIX[i]);
        assert(prefix@ =~= SEED_PREFIX@.subrange(0, i + 1));
        i += 1;
    }
    assert(prefix@ =~= SEED_PREFIX@);
    let mut seeds: Vec<Vec<u8>> = Vec::new();
    seeds.push(prefix);
    seeds.push(u64_to_le_bytes(vault_id));
    seeds.push(owner.to_vec());
    assert(seed_views(seeds) =~= vault_seeds(vault_id, owner@));
    seeds
}

/// The address of the vault `vault_id` of `owner` under the program
/// `program_id`, with its bump.
pub open spec fn vault_address(program_id: Seq<u8>, vault_id: u64, owner: Seq<u8>) -> Option<
    (Seq<u8>, u8),
> {
    program_address(vault_seeds(vault_id, owner), program_id)
}

/// Searches the address of the vault `vault_id` of `owner` under the program
/// `program_id`, together with its bump.
///
/// The address is the one that the seeds give with the largest bump that
/// gives any, and no private key exists for it. It fails with
/// `DerivationExhausted` exactly where no bump gives an address.
pub fn find_vault_address(program_id: &Address, vault_id: u64, owner: &Address) -> (r: Result<
    (Address, u8),
    VaultError,
>)
    ensures
        match r {
            Ok((a, b)) => {
                &&& vault_address(program_id@, vault_id, owner@) == Some((a@, b))
                &&& created_program_address(bumped_seeds(vault_id, owner@, b), program_id@)
                    == Some(a@)
                &&& !on_curve(a@)
            },
            Err(e) => {
                &&& e == VaultError::DerivationExhausted
                &&& vault_address(program_id@, vault_id, owner@) is None
            },
        },
{
    let seeds = seeds_of(vault_id, owner);
    match try_find_program_address(&seeds, &program_id.bytes) {
        Some((bytes, bump)) => {
            proof {
                let top = choose|b: u8| is_bump_of(seed_views(seeds), program_id@, b);
                lemma_bump_is_unique(seed_views(seeds), program_id@, top, bump);
            }
            Ok((Address { bytes }, bump))
        },
        None => Err(VaultError::DerivationExhausted),
    }
}

/// Computes the address that the seeds of the vault give with a known bump,
/// without searching; `None` where they give none. No private key exists for
/// an address that is returned.
pub fn create_vault_address(
    program_id: &Address,
    vault_id: u64,
    owner: &Address,
    bump: u8,
) -> (r: Option<Address>)
    ensures
        match r {
            Some(a) => {
                &&& created_program_address(bumped_seeds(vault_id, owner@, bump), program_id@)
                    == Some(a@)
                &&& !on_curve(a@)
            },
            None => created_program_address(bumped_seeds(vault_id, owner@, bump), program_id@)
                is None,
        },
{
    let mut seeds = seeds_of(vault_id, owner);
    let mut salt: Vec<u8> = Vec::new();
    salt.push(bump);
    seeds.push(salt);
    assert(seed_views(seeds) =~= bumped_seeds(vault_id, owner@, bump));
    match create_program_address(&seeds, &program_id.bytes) {
        Ok(bytes) => Some(Address { bytes }),
        Err(_) => None,
    }
}

} // verus!
