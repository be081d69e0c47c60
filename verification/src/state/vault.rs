//! The vault record and its fixed-size layout.
//!
//! A record is stored as `SPACE` bytes:
//!
//! | bytes            | field                                   |
//! |------------------|-----------------------------------------|
//! | 0..8             | discriminator                           |
//! | 8..16            | `vault_id`, little-endian               |
//! | 16               | `protocol` tag                          |
//! | 17               | `interval` tag                          |
//! | 18..26           | `initial_amount`, little-endian         |
//! | 26..30           | number `n` of projects, little-endian   |
//! | 30..30+32n       | the projects, 32 bytes each             |
//! | 30+32n..62+32n   | `mint`                                  |
//! | 62+32n           | `bump`                                  |
//! | 63+32n..`SPACE`  | zero                                    |

use crate::address::Address;
use crate::error::VaultError;
use vstd::bytes::*;
use vstd::prelude::*;
use vstd::slice::slice_subrange;

verus! {

/// First seed of every vault address: the bytes of `vault`.
pub const SEED_PREFIX: [u8; 5] = [118, 97, 117, 108, 116];

/// The eight bytes that mark stored bytes as a vault record.
pub const DISCRIMINATOR: [u8; 8] = [17, 229, 96, 254, 254, 179, 195, 163];

/// The largest number of projects that a vault can be scoped to.
pub const MAX_PROJECTS: usize = 10;

/// Size in bytes of a stored record: the layout with `MAX_PROJECTS` projects.
pub const SPACE: usize = 383;

/// The lending protocol that services a vault.
#[derive(Clone, Copy, Debug, PartialEq, Eq, Structural)]
pub enum Protocols {
    Kamino,
}

/// How often a vault's position is meant to be rebalanced. Stored only.
#[derive(Clone, Copy, Debug, PartialEq, Eq, Structural)]
pub enum Intervals {
    Daily,
    Weekly,
    Monthly,
}

impl Protocols {
    /// The byte that stands for the protocol in a stored record.
    pub open spec fn tag(self) -> u8 {
        match self {
            Protocols::Kamino => 0,
        }
    }

    /// The protocol that a stored byte stands for.
    pub open spec fn of_tag(tag: u8) -> Option<Protocols> {
        if tag == 0 {
            Some(Protocols::Kamino)
        } else {
            None
        }
    }

    /// The byte that stands for the protocol in a stored record.
    pub fn to_tag(&self) -> (t: u8)
        ensures
            t == self.tag(),
    {
        match self {
            Protocols::Kamino => 0,
        }
    }

    /// Reads a protocol from a stored byte; `None` for a byte that stands for
    /// no protocol.
    pub fn from_tag(tag: u8) -> (p: Option<Protocols>)
        ensures
            p == Protocols::of_tag(tag),
    {
        if tag == 0 {
            Some(Protocols::Kamino)
        } else {
            None
        }
    }
}

impl Intervals {
    /// The byte that stands for the interval in a stored record.
    pub open spec fn tag(self) -> u8 {
        match self {
            Intervals::Daily => 0,
            Intervals::Weekly => 1,
            Intervals::Monthly => 2,
        }
    }

    /// The interval that a stored byte stands for.
    pub open spec fn of_tag(tag: u8) -> Option<Intervals> {
        if tag == 0 {
            Some(Intervals::Daily)
        } else if tag == 1 {
            Some(Intervals::Weekly)
        } else if tag == 2 {
            Some(Intervals::Monthly)
        } else {
            None
        }
    }

    /// The byte that stands for the interval in a stored record.
    pub fn to_tag(&self) -> (t: u8)
        ensures
            t == self.tag(),
    {
        match self {
            Intervals::Daily => 0,
            Intervals::Weekly => 1,
            Intervals::Monthly => 2,
        }
    }

    /// Reads an interval from a stored byte; `None` for a byte that stands
    /// for no interval.
    pub fn from_tag(tag: u8) -> (p: Option<Intervals>)
        ensures
            p == Intervals::of_tag(tag),
    {
        if tag == 0 {
            Some(Intervals::Daily)
        } else if tag == 1 {
            Some(Intervals::Weekly)
        } else if tag == 2 {
            Some(Intervals::Monthly)
        } else {
            None
        }
    }
}

/// A vault record as a mathematical value: what `YieldVault` stands for.
pub struct VaultRecord {
    pub vault_id: u64,
    pub protocol: Protocols,
    pub interval: Intervals,
    pub initial_amount: u64,
    pub projects: Seq<Seq<u8>>,
    pub mint: Seq<u8>,
    pub bump: u8,
}

impl VaultRecord {
    /// A record names between one and `MAX_PROJECTS` projects, and its
    /// projects and its mint are addresses.
    pub open spec fn wf(self) -> bool {
        &&& 1 <= self.projects.len() <= MAX_PROJECTS
        &&& forall|i: int| 0 <= i < self.projects.len() ==> (#[trigger] self.projects[i]).len() == 32
        &&& self.mint.len() == 32
    }
}

/// The persistent state of one vault.
#[derive(Clone, Debug, PartialEq, Eq)]
pub struct YieldVault {
    pub vault_id: u64,
    pub protocol: Protocols,
    pub interval: Intervals,
    pub initial_amount: u64,
    pub projects: Vec<Address>,
    pub mint: Address,
    pub bump: u8,
}

impl View for YieldVault {
    type V = VaultRecord;

    open spec fn view(&self) -> VaultRecord {
        VaultRecord {
            vault_id: self.vault_id,
            protocol: self.protocol,
            interval: self.interval,
            initial_amount: self.initial_amount,
            projects: self.projects@.map_values(|a: Address| a@),
            mint: self.mint@,
            bump: self.bump,
        }
    }
}

/// The byte strings of `parts`, one after the other.
pub open spec fn joined(parts: Seq<Seq<u8>>) -> Seq<u8>
    decreases parts.len(),
{
    if parts.len() == 0 {
        Seq::empty()
    } else {
        joined(parts.drop_last()) + parts.last()
    }
}

/// The bytes that carry a record's fields, without the padding.
pub open spec fn payload(v: VaultRecord) -> Seq<u8> {
    DISCRIMINATOR@ + spec_u64_to_le_bytes(v.vault_id) + seq![v.protocol.tag(), v.interval.tag()]
        + spec_u64_to_le_bytes(v.initial_amount) + spec_u32_to_le_bytes(v.projects.len() as u32)
        + joined(v.projects) + v.mint + seq![v.bump]
}

/// The `SPACE` bytes that store a record: its payload, then zeros.
pub open spec fn encoded(v: VaultRecord) -> Seq<u8> {
    payload(v) + Seq::new((SPACE - payload(v).len()) as nat, |i: int| 0u8)
}

/// The record that `bytes` store, if they store one: they are `SPACE` bytes
/// that begin with the discriminator, both tags stand for a variant, and the
/// number of projects is between one and `MAX_PROJECTS`. The padding is not
/// read.
pub open spec fn parsed(bytes: Seq<u8>) -> Option<VaultRecord> {
    if bytes.len() != SPACE || bytes.subrange(0, 8) != DISCRIMINATOR@ {
        None
    } else {
        let count = spec_u32_from_le_bytes(bytes.subrange(26, 30)) as int;
        match (Protocols::of_tag(bytes[16]), Intervals::of_tag(bytes[17])) {
            (Some(protocol), Some(interval)) => if 1 <= count <= MAX_PROJECTS {
                Some(
                    VaultRecord {
                        vault_id: spec_u64_from_le_bytes(bytes.subrange(8, 16)),
                        protocol,
                        interval,
                        initial_amount: spec_u64_from_le_bytes(bytes.subrange(18, 26)),
                        projects: Seq::new(
                            count as nat,
                            |k: int| bytes.subrange(30 + 32 * k, 62 + 32 * k),
                        ),
                        mint: bytes.subrange(30 + 32 * count, 62 + 32 * count),
                        bump: bytes[62 + 32 * count],
                    },
                )
            } else {
                None
            },
            _ => None,
        }
    }
}

/// Addresses laid end to end: 32 bytes each, the `k`-th at offset `32 * k`.
pub proof fn lemma_joined_addresses(parts: Seq<Seq<u8>>)
    requires
        forall|i: int| 0 <= i < parts.len() ==> (#[trigger] parts[i]).len() == 32,
    ensures
        joined(parts).len() == 32 * parts.len(),
        forall|k: int|
            0 <= k < parts.len() ==> #[trigger] joined(parts).subrange(32 * k, 32 * k + 32)
                == parts[k],
    decreases parts.len(),
{
    if parts.len() > 0 {
        let front = parts.drop_last();
        lemma_joined_addresses(front);
        assert forall|k: int| 0 <= k < parts.len() implies #[trigger] joined(parts).subrange(
            32 * k,
            32 * k + 32,
        ) == parts[k] by {
            if k < front.len() {
                assert(joined(front).subrange(32 * k, 32 * k + 32) == front[k]);
                assert(joined(parts).subrange(32 * k, 32 * k + 32) =~= joined(front).subrange(
                    32 * k,
                    32 * k + 32,
                ));
            } else {
                assert(joined(parts).subrange(32 * k, 32 * k + 32) =~= parts.last());
            }
        }
    }
}

/// Where the fields of a well-formed record stand among its stored bytes.
pub proof fn lemma_payload_layout(v: VaultRecord)
    requires
        v.wf(),
    ensures
        payload(v).len() == 63 + 32 * v.projects.len(),
        payload(v).subrange(0, 8) == DISCRIMINATOR@,
        payload(v).subrange(8, 16) == spec_u64_to_le_bytes(v.vault_id),
        payload(v)[16] == v.protocol.tag(),
        payload(v)[17] == v.interval.tag(),
        payload(v).subrange(18, 26) == spec_u64_to_le_bytes(v.initial_amount),
        payload(v).subrange(26, 30) == spec_u32_to_le_bytes(v.projects.len() as u32),
        payload(v).subrange(30, 30 + 32 * (v.projects.len() as int)) == joined(v.projects),
        payload(v).subrange(
            30 + 32 * (v.projects.len() as int),
            62 + 32 * (v.projects.len() as int),
        ) == v.mint,
        payload(v)[62 + 32 * (v.projects.len() as int)] == v.bump,
{
    lemma_auto_spec_u64_to_from_le_bytes();
    lemma_auto_spec_u32_to_from_le_bytes();
    lemma_joined_addresses(v.projects);
    let n = v.projects.len() as int;
    let p = payload(v);
    assert(DISCRIMINATOR@.len() == 8);
    assert(p.len() == 63 + 32 * n);
    assert(p.subrange(0, 8) =~= DISCRIMINATOR@);
    assert(p.subrange(8, 16) =~= spec_u64_to_le_bytes(v.vault_id));
    assert(p.subrange(18, 26) =~= spec_u64_to_le_bytes(v.initial_amount));
    assert(p.subrange(26, 30) =~= spec_u32_to_le_bytes(v.projects.len() as u32));
    assert(p.subrange(30, 30 + 32 * n) =~= joined(v.projects));
    assert(p.subrange(30 + 32 * n, 62 + 32 * n) =~= v.mint);
}

/// Reading back the stored bytes of a well-formed record gives the record.
pub proof fn lemma_parse_encoded(v: VaultRecord)
    requires
        v.wf(),
    ensures
        encoded(v).len() == SPACE,
        parsed(encoded(v)) == Some(v),
{
    lemma_payload_layout(v);
    lemma_auto_spec_u64_to_from_le_bytes();
    lemma_auto_spec_u32_to_from_le_bytes();
    lemma_joined_addresses(v.projects);
    let n = v.projects.len() as int;
    let p = payload(v);
    let e = encoded(v);
    assert(e.len() == SPACE);
    assert(e.subrange(0, 8) =~= p.subrange(0, 8));
    assert(e.subrange(8, 16) =~= p.subrange(8, 16));
    assert(e[16] == p[16]);
    assert(e[17] == p[17]);
    assert(e.subrange(18, 26) =~= p.subrange(18, 26));
    assert(e.subrange(26, 30) =~= p.subrange(26, 30));
    assert(spec_u32_from_le_bytes(e.subrange(26, 30)) == n);
    assert(e.subrange(30 + 32 * n, 62 + 32 * n) =~= p.subrange(30 + 32 * n, 62 + 32 * n));
    assert(e[62 + 32 * n] == p[62 + 32 * n]);
    let read = parsed(e).unwrap();
    assert(read.projects =~= v.projects) by {
        assert forall|k: int| 0 <= k < n implies e.subrange(30 + 32 * k, 62 + 32 * k)
            == v.projects[k] by {
            assert(joined(v.projects).subrange(32 * k, 32 * k + 32) == v.projects[k]);
            assert(e.subrange(30 + 32 * k, 62 + 32 * k) =~= p.subrange(30, 30 + 32 * n).subrange(
                32 * k,
                32 * k + 32,
            ));
        }
    }
}

impl YieldVault {
    /// Size in bytes of a stored record.
    pub const SPACE: usize = 383;

    /// First seed of every vault address.
    pub const SEED_PREFIX: [u8; 5] = [118, 97, 117, 108, 116];

    /// A vault is scoped to between one and `MAX_PROJECTS` projects.
    pub open spec fn wf(&self) -> bool {
        1 <= self.projects@.len() <= MAX_PROJECTS
    }

    /// Makes the record of a new vault.
    ///
    /// Refuses an empty project set with `EmptyProjectSet`, and one of more
    /// than `MAX_PROJECTS` projects, which the stored record could not hold,
    /// with `ProjectSetTooLarge`. Otherwise the record holds the arguments as
    /// given.
    pub fn new(
        protocol: Protocols,
        interval: Intervals,
        initial_amount: u64,
        vault_id: u64,
        projects: Vec<Address>,
        mint: Address,
        bump: u8,
    ) -> (r: Result<YieldVault, VaultError>)
        ensures
            projects@.len() == 0 ==> r == Err::<YieldVault, VaultError>(
                VaultError::EmptyProjectSet,
            ),
            projects@.len() > MAX_PROJECTS ==> r == Err::<YieldVault, VaultError>(
                VaultError::ProjectSetTooLarge,
            ),
            1 <= projects@.len() <= MAX_PROJECTS ==> r == Ok::<YieldVault, VaultError>(
                YieldVault { vault_id, protocol, interval, initial_amount, projects, mint, bump },
            ),
            r matches Ok(v) ==> v.wf() && v@.wf(),
    {
        if projects.len() == 0 {
            Err(VaultError::EmptyProjectSet)
        } else if projects.len() > MAX_PROJECTS {
            Err(VaultError::ProjectSetTooLarge)
        } else {
            let v = YieldVault { vault_id, protocol, interval, initial_amount, projects, mint, bump };
            proof {
                v.lemma_view_wf();
            }
            Ok(v)
        }
    }

    /// The record that a well-formed vault stands for is well formed.
    pub proof fn lemma_view_wf(&self)
        requires
            self.wf(),
        ensures
            self@.wf(),
            self@.projects.len() == self.projects@.len(),
            forall|i: int| 0 <= i < self.projects@.len() ==> self@.projects[i] == self.projects@[i]@,
    {
    }

    /// Tells whether the vault acts for `project`.
    pub fn has_project(&self, project: &Address) -> (r: bool)
        ensures
            r == self@.projects.contains(project@),
    {
        let mut i: usize = 0;
        while i < self.projects.len()
            invariant
                i <= self.projects@.len(),
                forall|j: int| 0 <= j < i ==> self@.projects[j] != project@,
            decreases self.projects@.len() - i,
        {
            if self.projects[i] == *project {
                assert(self@.projects[i as int] == project@);
                return true;
            }
            i += 1;
        }
        false
    }

    /// The `SPACE` bytes that store the record.
    pub fn encode(&self) -> (out: Vec<u8>)
        requires
            self.wf(),
        ensures
            out@ == encoded(self@),
            out@.len() == SPACE,
            parsed(out@) == Some(self@),
    {
        proof {
            self.lemma_view_wf();
            lemma_joined_addresses(self@.projects);
            lemma_parse_encoded(self@);
            lemma_auto_spec_u64_to_from_le_bytes();
            lemma_auto_spec_u32_to_from_le_bytes();
        }
        let mut out: Vec<u8> = Vec::new();
        let mut i: usize = 0;
        while i < 8
            invariant
                i <= 8,
                out@ == DISCRIMINATOR@.subrange(0, i as int),
            decreases 8 - i,
        {
            out.push(DISCRIMINATOR[i]);
            assert(out@ =~= DISCRIMINATOR@.subrange(0, i + 1));
            i += 1;
        }
        assert(out@ =~= DISCRIMINATOR@);
        let mut id = u64_to_le_bytes(self.vault_id);
        out.append(&mut id);
        out.push(self.protocol.to_tag());
        out.push(self.interval.to_tag());
        let mut amount = u64_to_le_bytes(self.initial_amount);
        out.append(&mut amount);
        let mut count = u32_to_le_bytes(self.projects.len() as u32);
        out.append(&mut count);
        let ghost head = out@;
        assert(head =~= DISCRIMINATOR@ + spec_u64_to_le_bytes(self.vault_id)
            + seq![self.protocol.tag(), self.interval.tag()] + spec_u64_to_le_bytes(
            self.initial_amount,
        ) + spec_u32_to_le_bytes(self@.projects.len() as u32));
        let mut k: usize = 0;
        while k < self.projects.len()
            invariant
                k <= self.projects@.len(),
                self.wf(),
                out@ == head + joined(self@.projects.take(k as int)),
            decreases self.projects@.len() - k,
        {
            let mut part = self.projects[k].to_vec();
            out.append(&mut part);
            proof {
                let taken = self@.projects.take(k + 1);
                assert(taken.drop_last() =~= self@.projects.take(k as int));
                assert(taken.last() == self.projects@[k as int]@);
                assert(out@ =~= head + joined(taken));
            }
            k += 1;
        }
        assert(self@.projects.take(k as int) =~= self@.projects);
        let mut mint = self.mint.to_vec();
        out.append(&mut mint);
        out.push(self.bump);
        assert(out@ =~= payload(self@));
        assert(out@.len() == 63 + 32 * self.projects@.len());
        while out.len() < SPACE
            invariant
                out@.len() <= SPACE,
                payload(self@).len() <= out@.len(),
                out@ == payload(self@) + Seq::new(
                    (out@.len() - payload(self@).len()) as nat,
                    |i: int| 0u8,
                ),
            decreases SPACE - out@.len(),
        {
            out.push(0);
            assert(out@ =~= payload(self@) + Seq::new(
                (out@.len() - payload(self@).len()) as nat,
                |i: int| 0u8,
            ));
        }
        out
    }

    /// Reads a record from stored bytes; `None` where they store none.
    pub fn decode(bytes: &[u8]) -> (r: Option<YieldVault>)
        ensures
            match r {
                Some(v) => parsed(bytes@) == Some(v@) && v.wf(),
                None => parsed(bytes@) is None,
            },
    {
        if bytes.len() != SPACE {
            return None;
        }
        let mut i: usize = 0;
        while i < 8
            invariant
                i <= 8,
                bytes@.len() == SPACE,
                forall|j: int| 0 <= j < i ==> bytes@[j] == DISCRIMINATOR@[j],
            decreases 8 - i,
        {
            if bytes[i] != DISCRIMINATOR[i] {
                assert(bytes@.subrange(0, 8)[i as int] != DISCRIMINATOR@[i as int]);
                return None;
            }
            i += 1;
        }
        assert(bytes@.subrange(0, 8) =~= DISCRIMINATOR@);
        let vault_id = u64_from_le_bytes(slice_subrange(bytes, 8, 16));
        let protocol = match Protocols::from_tag(bytes[16]) {
            Some(p) => p,
            None => {
                return None;
            },
        };
        let interval = match Intervals::from_tag(bytes[17]) {
            Some(p) => p,
            None => {
                return None;
            },
        };
        let initial_amount = u64_from_le_bytes(slice_subrange(bytes, 18, 26));
        let count = u32_from_le_bytes(slice_subrange(bytes, 26, 30)) as usize;
        if count == 0 || count > MAX_PROJECTS {
            return None;
        }
        let mut projects: Vec<Address> = Vec::new();
        let mut k: usize = 0;
        while k < count
            invariant
                k <= count <= MAX_PROJECTS,
                bytes@.len() == SPACE,
                projects@.len() == k,
                forall|j: int|
                    0 <= j < k ==> (#[trigger] projects@[j])@ == bytes@.subrange(
                        30 + 32 * j,
                        62 + 32 * j,
                    ),
            decreases count - k,
        {
            let a = read_address(bytes, 30 + 32 * k);
            projects.push(a);
            k += 1;
        }
        let mint = read_address(bytes, 30 + 32 * count);
        let bump = bytes[62 + 32 * count];
        let v = YieldVault { vault_id, protocol, interval, initial_amount, projects, mint, bump };
        assert(v@.projects =~= parsed(bytes@).unwrap().projects);
        Some(v)
    }
}

/// Reads the address that stands at `offset` in `bytes`.
fn read_address(bytes: &[u8], offset: usize) -> (a: Address)
    requires
        offset + 32 <= bytes@.len() <= usize::MAX,
    ensures
        a@ == bytes@.subrange(offset as int, offset + 32),
{
    let mut buf: [u8; 32] = [0u8; 32];
    let mut j: usize = 0;
    while j < 32
        invariant
            j <= 32,
            offset + 32 <= bytes@.len() <= usize::MAX,
            forall|i: int| 0 <= i < j ==> buf[i] == bytes@[offset + i],
        decreases 32 - j,
    {
        buf[j] = bytes[offset + j];
        j += 1;
    }
    assert(buf@ =~= bytes@.subrange(offset as int, offset + 32));
    Address::new(buf)
}

} // verus!
