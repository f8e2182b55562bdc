//! The two record kinds of the ledger and their internal invariants, plus the
//! identity comparison every ownership check rests on.

use vstd::prelude::*;

verus! {

/// Upper bound of the mood scale.
pub const MAX_MOOD: u8 = 100;

/// Mood every newly created companion starts with: the neutral midpoint.
pub const INITIAL_MOOD: u8 = 50;

/// Longest accessory display name accepted at mint time, in characters.
pub const MAX_NAME_LEN: usize = 50;

/// The kinds of accessory that can be minted. A single kind exists today; the
/// persisted layout reserves a discriminant byte so more can be added without
/// restructuring storage.
#[derive(Clone, Copy, Debug, PartialEq, Eq, Structural)]
pub enum AccessoryType {
    YellowRibbon,
}

/// One owner's companion record. Exactly one exists per owner, at the address
/// derived from the companion tag and the owner identity.
#[derive(Clone, Copy, Debug)]
pub struct Companion {
    /// 32-byte identity of the owner; immutable after creation.
    pub owner: [u8; 32],
    /// Current mood, always in `0..=MAX_MOOD`.
    pub mood: u8,
    /// How many interactions were recorded; never decreases.
    pub interaction_count: u64,
    /// Ledger time of the most recent mutation.
    pub last_interaction: i64,
    /// Canonical disambiguation byte of this record's derived address.
    pub bump: u8,
}

impl Companion {
    /// Internal invariant: the mood never leaves the `0..=MAX_MOOD` scale.
    pub open spec fn wf(self) -> bool {
        self.mood <= MAX_MOOD
    }
}

/// One accessory record, addressed by the accessory tag, the owner identity
/// and a caller-supplied seed, so an owner can hold many of the same kind.
#[derive(Clone, Debug)]
pub struct Accessory {
    /// 32-byte identity of the owner; immutable after mint.
    pub owner: [u8; 32],
    /// Which kind of accessory this record is; immutable.
    pub accessory_type: AccessoryType,
    /// Display name chosen at mint time; immutable, at most `MAX_NAME_LEN` characters.
    pub name: String,
    /// Ledger time of the mint.
    pub mint_date: i64,
    /// Whether the accessory is currently worn; flips on toggle.
    pub equipped: bool,
    /// The caller-supplied seed this record's address was derived with.
    pub seed: u64,
    /// Canonical disambiguation byte of this record's derived address.
    pub bump: u8,
}

impl Accessory {
    /// Internal invariant: the display name stays within the mint-time bound.
    pub open spec fn wf(self) -> bool {
        self.name@.len() <= MAX_NAME_LEN
    }
}

/// Compare two 32-byte identities byte for byte.
pub fn ids_equal(a: &[u8; 32], b: &[u8; 32]) -> (r: bool)
    ensures
        r == (a@ == b@),
{
    let mut i: usize = 0;
    while i < 32
        invariant
            i <= 32,
            forall|j: int| 0 <= j < i ==> a@[j] == b@[j],
        decreases 32 - i,
    {
        if a[i] != b[i] {
            return false;
        }
        i = i + 1;
    }
    proof {
        assert(a@ =~= b@);
    }
    true
}

} // verus!
