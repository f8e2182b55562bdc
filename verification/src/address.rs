//! Deterministic record addressing. A record's address and its canonical
//! disambiguation byte ("bump") are a pure function of a kind tag, the owner
//! identity and, for accessories, a caller-supplied seed. Every operation can
//! re-derive the pair and check a supplied record against it instead of
//! trusting a caller-chosen address.

use vstd::prelude::*;
use crate::state::{Accessory, Companion};

verus! {

/// The address and bump that the host's derivation returns for the given seed
/// material and program identity, or `None` in the statistically improbable
/// event that no bump byte yields a valid address (or the seed material is
/// malformed). The derivation is a hash of its inputs alone, so the result is
/// the same on every call.
pub uninterp spec fn pda_derivation(seeds: Seq<Seq<u8>>, program_id: Seq<u8>) -> Option<(Seq<u8>, u8)>;

/// Relies on `Pubkey::try_find_program_address` of anchor_lang's re-exported
/// pubkey crate: finds the canonical program-derived address and bump seed for
/// the given seed slices and program id, a deterministic function of those
/// inputs alone; returns `None` only when no bump yields a valid address or
/// the seed material is out of bounds.
#[verifier::external_body]
fn find_derived_address(seeds: &Vec<Vec<u8>>, program_id: &[u8; 32]) -> (r: Option<([u8; 32], u8)>)
    ensures
        (match r {
            Some((addr, bump)) => pda_derivation(seeds.deep_view(), program_id@) == Some((addr@, bump)),
            None => pda_derivation(seeds.deep_view(), program_id@) is None,
        }),
{
    let id = anchor_lang::prelude::Pubkey::new_from_array(*program_id);
    let seed_slices: Vec<&[u8]> = seeds.iter().map(|s| s.as_slice()).collect();
    match anchor_lang::prelude::Pubkey::try_find_program_address(&seed_slices, &id) {
        Some((addr, bump)) => Some((addr.to_bytes(), bump)),
        None => None,
    }
}

/// The kind tag of companion records: the bytes of `companion`.
pub open spec fn companion_tag() -> Seq<u8> {
    seq![99u8, 111u8, 109u8, 112u8, 97u8, 110u8, 105u8, 111u8, 110u8]
}

/// The kind tag of accessory records: the bytes of `accessory`.
pub open spec fn accessory_tag() -> Seq<u8> {
    seq![97u8, 99u8, 99u8, 101u8, 115u8, 115u8, 111u8, 114u8, 121u8]
}

/// The little-endian bytes of a 64-bit seed, as they enter the derivation.
pub open spec fn u64_le_bytes(x: u64) -> Seq<u8> {
    seq![
        (x & 0xff) as u8,
        ((x >> 8) & 0xff) as u8,
        ((x >> 16) & 0xff) as u8,
        ((x >> 24) & 0xff) as u8,
        ((x >> 32) & 0xff) as u8,
        ((x >> 40) & 0xff) as u8,
        ((x >> 48) & 0xff) as u8,
        ((x >> 56) & 0xff) as u8,
    ]
}

/// Seed material of an owner's companion record: the kind tag, then the owner.
pub open spec fn companion_seed_material(owner: Seq<u8>) -> Seq<Seq<u8>> {
    seq![companion_tag(), owner]
}

/// Seed material of an accessory record: the kind tag, the owner, then the
/// caller-supplied seed in little-endian bytes.
pub open spec fn accessory_seed_material(owner: Seq<u8>, seed: u64) -> Seq<Seq<u8>> {
    seq![accessory_tag(), owner, u64_le_bytes(seed)]
}

fn companion_tag_bytes() -> (r: Vec<u8>)
    ensures
        r@ == companion_tag(),
{
    let mut v: Vec<u8> = Vec::new();
    v.push(99);
    v.push(111);
    v.push(109);
    v.push(112);
    v.push(97);
    v.push(110);
    v.push(105);
    v.push(111);
    v.push(110);
    proof {
        assert(v@ =~= companion_tag());
    }
    v
}

fn accessory_tag_bytes() -> (r: Vec<u8>)
    ensures
        r@ == accessory_tag(),
{
    let mut v: Vec<u8> = Vec::new();
    v.push(97);
    v.push(99);
    v.push(99);
    v.push(101);
    v.push(115);
    v.push(115);
    v.push(111);
    v.push(114);
    v.push(121);
    proof {
        assert(v@ =~= accessory_tag());
    }
    v
}

fn id_bytes(owner: &[u8; 32]) -> (r: Vec<u8>)
    ensures
        r@ == owner@,
{
    let mut v: Vec<u8> = Vec::new();
    let mut i: usize = 0;
    while i < 32
        invariant
            i <= 32,
            v@.len() == i,
            forall|j: int| 0 <= j < i ==> v@[j] == owner@[j],
        decreases 32 - i,
    {
        v.push(owner[i]);
        i = i + 1;
    }
    proof {
        assert(v@ =~= owner@);
    }
    v
}

fn seed_bytes(seed: u64) -> (r: Vec<u8>)
    ensures
        r@ == u64_le_bytes(seed),
{
    let mut v: Vec<u8> = Vec::new();
    proof {
        assert(seed & 0xff <= 0xff) by (bit_vector);
        assert((seed >> 8) & 0xff <= 0xff) by (bit_vector);
        assert((seed >> 16) & 0xff <= 0xff) by (bit_vector);
        assert((seed >> 24) & 0xff <= 0xff) by (bit_vector);
        assert((seed >> 32) & 0xff <= 0xff) by (bit_vector);
        assert((seed >> 40) & 0xff <= 0xff) by (bit_vector);
        assert((seed >> 48) & 0xff <= 0xff) by (bit_vector);
        assert((seed >> 56) & 0xff <= 0xff) by (bit_vector);
    }
    v.push((seed & 0xff) as u8);
    v.push(((seed >> 8) & 0xff) as u8);
    v.push(((seed >> 16) & 0xff) as u8);
    v.push(((seed >> 24) & 0xff) as u8);
    v.push(((seed >> 32) & 0xff) as u8);
    v.push(((seed >> 40) & 0xff) as u8);
    v.push(((seed >> 48) & 0xff) as u8);
    v.push(((seed >> 56) & 0xff) as u8);
    proof {
        assert(v@ =~= u64_le_bytes(seed));
    }
    v
}

/// Derive the canonical address and bump of `owner`'s companion record under
/// the given program identity.
pub fn derive_companion_address(owner: &[u8; 32], program_id: &[u8; 32]) -> (r: Option<([u8; 32], u8)>)
    ensures
        (match r {
            Some((addr, bump)) => pda_derivation(companion_seed_material(owner@), program_id@)
                == Some((addr@, bump)),
            None => pda_derivation(companion_seed_material(owner@), program_id@) is None,
        }),
{
    let mut seeds: Vec<Vec<u8>> = Vec::new();
    seeds.push(companion_tag_bytes());
    seeds.push(id_bytes(owner));
    proof {
        assert(seeds.deep_view() =~~= companion_seed_material(owner@));
    }
    find_derived_address(&seeds, program_id)
}

/// Derive the canonical address and bump of the accessory record of
/// `(owner, seed)` under the given program identity.
pub fn derive_accessory_address(owner: &[u8; 32], seed: u64, program_id: &[u8; 32]) -> (r: Option<([u8; 32], u8)>)
    ensures
        (match r {
            Some((addr, bump)) => pda_derivation(accessory_seed_material(owner@, seed), program_id@)
                == Some((addr@, bump)),
            None => pda_derivation(accessory_seed_material(owner@, seed), program_id@) is None,
        }),
{
    let mut seeds: Vec<Vec<u8>> = Vec::new();
    seeds.push(accessory_tag_bytes());
    seeds.push(id_bytes(owner));
    seeds.push(seed_bytes(seed));
    proof {
        assert(seeds.deep_view() =~~= accessory_seed_material(owner@, seed));
    }
    find_derived_address(&seeds, program_id)
}

/// Re-derive the canonical bump for a companion record's stored owner and
/// test the record's stored bump against it: the authenticity check that
/// distinguishes a record at the derived address from a fabricated one.
pub fn companion_bump_is_canonical(c: &Companion, program_id: &[u8; 32]) -> (r: bool)
    ensures
        r == (match pda_derivation(companion_seed_material(c.owner@), program_id@) {
            Some((addr, bump)) => bump == c.bump,
            None => false,
        }),
{
    match derive_companion_address(&c.owner, program_id) {
        Some((_addr, bump)) => bump == c.bump,
        None => false,
    }
}

/// Re-derive the canonical bump for an accessory record's stored owner and
/// seed and test the record's stored bump against it.
pub fn accessory_bump_is_canonical(a: &Accessory, program_id: &[u8; 32]) -> (r: bool)
    ensures
        r == (match pda_derivation(accessory_seed_material(a.owner@, a.seed), program_id@) {
            Some((addr, bump)) => bump == a.bump,
            None => false,
        }),
{
    match derive_accessory_address(&a.owner, a.seed, program_id) {
        Some((_addr, bump)) => bump == a.bump,
        None => false,
    }
}

} // verus!
