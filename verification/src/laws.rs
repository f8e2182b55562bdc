//! Laws that relate several operations, proved over the same spec transitions
//! the executable entry points are verified against.

use vstd::prelude::*;
use crate::error::CompanionError;
use crate::ops::{
    InitializeCompanion, MintAccessory, ToggleAccessory, UpdateCompanion,
    spec_initialize_companion, spec_mint_yellow_ribbon, spec_record_interaction,
    spec_toggle_accessory, spec_update_mood,
};
use crate::state::{MAX_MOOD, MAX_NAME_LEN};

verus! {

/// Law: creating a companion twice for the same owner succeeds the first time,
/// fails the second time with `DuplicateRecord`, and the second call leaves
/// the record created by the first call unchanged.
pub proof fn lemma_initialize_twice_duplicate(ctx: InitializeCompanion, now1: i64, now2: i64)
    requires
        ctx.companion is None,
    ensures
        ({
            let (after_first, r1) = spec_initialize_companion(ctx, now1);
            let (after_second, r2) = spec_initialize_companion(after_first, now2);
            &&& r1 is Ok
            &&& r2 == Err::<(), CompanionError>(CompanionError::DuplicateRecord)
            &&& after_second == after_first
        }),
{
}

/// Law: for a mood on the scale, `update_mood` by the owner stores exactly
/// that mood, so a following read returns it; for a mood above the scale the
/// call fails with `OutOfRange` and the stored record is unchanged.
pub proof fn lemma_update_mood_exact(ctx: UpdateCompanion, new_mood: u8, now: i64)
    requires
        ctx.companion.owner@ == ctx.owner@,
    ensures
        ({
            let (after, r) = spec_update_mood(ctx, new_mood, now);
            &&& new_mood <= MAX_MOOD ==> r is Ok && after.companion.mood == new_mood
            &&& new_mood > MAX_MOOD ==> r == Err::<(), CompanionError>(CompanionError::OutOfRange)
                && after == ctx
        }),
{
}

/// Law: for any signer other than the stored owner, `update_mood`,
/// `record_interaction` and `toggle_accessory` all fail with `Unauthorized`
/// and leave the target record unchanged in every field.
pub proof fn lemma_foreign_signer_rejected(
    uc: UpdateCompanion,
    new_mood: u8,
    ta: ToggleAccessory,
    seed: u64,
    now: i64,
)
    requires
        uc.companion.owner@ != uc.owner@,
        ta.accessory.owner@ != ta.owner@,
    ensures
        spec_update_mood(uc, new_mood, now) == (uc, Err::<(), CompanionError>(CompanionError::Unauthorized)),
        spec_record_interaction(uc, now) == (uc, Err::<(), CompanionError>(CompanionError::Unauthorized)),
        spec_toggle_accessory(ta, seed) == (ta, Err::<(), CompanionError>(CompanionError::Unauthorized)),
{
}

/// The state after recording one interaction at each time in `times`, in
/// order, assuming every call succeeds.
pub open spec fn after_interactions(ctx: UpdateCompanion, times: Seq<i64>) -> UpdateCompanion
    decreases times.len(),
{
    if times.len() == 0 {
        ctx
    } else {
        after_interactions(spec_record_interaction(ctx, times[0]).0, times.subrange(1, times.len() as int))
    }
}

/// Law: starting from any companion whose counter has room for them, a run of
/// sequential interactions by the owner all succeed, grow the counter by
/// exactly the number of calls, and leave the interaction time at the time of
/// the last call; the owner, mood and bump stay as they were.
pub proof fn lemma_interactions_accumulate(ctx: UpdateCompanion, times: Seq<i64>)
    requires
        ctx.companion.owner@ == ctx.owner@,
        ctx.companion.interaction_count + times.len() <= u64::MAX,
    ensures
        ({
            let after = after_interactions(ctx, times);
            &&& after.companion.interaction_count == ctx.companion.interaction_count + times.len()
            &&& times.len() > 0 ==> after.companion.last_interaction == times.last()
            &&& after.companion.owner == ctx.companion.owner
            &&& after.companion.mood == ctx.companion.mood
            &&& after.companion.bump == ctx.companion.bump
            &&& after.owner == ctx.owner
        }),
    decreases times.len(),
{
    if times.len() > 0 {
        let (next, r) = spec_record_interaction(ctx, times[0]);
        assert(r is Ok);
        let rest = times.subrange(1, times.len() as int);
        lemma_interactions_accumulate(next, rest);
        if rest.len() > 0 {
            assert(rest.last() == times.last());
        }
    }
}

/// Law: a fresh companion put through a run of interactions by its owner ends
/// with the counter equal to the number of calls and the interaction time
/// equal to the time of the last call.
pub proof fn lemma_fresh_companion_counts_interactions(ctx: UpdateCompanion, times: Seq<i64>)
    requires
        ctx.companion.owner@ == ctx.owner@,
        ctx.companion.interaction_count == 0,
        times.len() >= 1,
        times.len() <= u64::MAX,
    ensures
        after_interactions(ctx, times).companion.interaction_count == times.len(),
        after_interactions(ctx, times).companion.last_interaction == times.last(),
{
    lemma_interactions_accumulate(ctx, times);
}

/// Law: a mint whose name exceeds the bound fails with `NameTooLong` and
/// creates no record at the (unoccupied) derived address.
pub proof fn lemma_mint_rejects_long_name(ctx: MintAccessory, name: String, seed: u64, now: i64)
    requires
        ctx.accessory is None,
        name@.len() > MAX_NAME_LEN,
    ensures
        spec_mint_yellow_ribbon(ctx, name, seed, now)
            == (ctx, Err::<(), CompanionError>(CompanionError::NameTooLong)),
{
}

/// Law: whatever a mutation's outcome, a record's owner and bump never
/// change, and a toggle can change nothing but the equipped flag and — on a
/// failed check — not even that. Creation is the only transition that writes
/// the immutable fields.
pub proof fn lemma_immutable_fields_stay(
    uc: UpdateCompanion,
    new_mood: u8,
    ta: ToggleAccessory,
    seed: u64,
    now: i64,
)
    ensures
        spec_update_mood(uc, new_mood, now).0.companion.owner == uc.companion.owner,
        spec_update_mood(uc, new_mood, now).0.companion.bump == uc.companion.bump,
        spec_record_interaction(uc, now).0.companion.owner == uc.companion.owner,
        spec_record_interaction(uc, now).0.companion.bump == uc.companion.bump,
        spec_toggle_accessory(ta, seed).0.accessory.owner == ta.accessory.owner,
        spec_toggle_accessory(ta, seed).0.accessory.accessory_type == ta.accessory.accessory_type,
        spec_toggle_accessory(ta, seed).0.accessory.name == ta.accessory.name,
        spec_toggle_accessory(ta, seed).0.accessory.mint_date == ta.accessory.mint_date,
        spec_toggle_accessory(ta, seed).0.accessory.seed == ta.accessory.seed,
        spec_toggle_accessory(ta, seed).0.accessory.bump == ta.accessory.bump,
{
}

/// Law: toggling an accessory twice in succession succeeds both times and
/// returns the record — the equipped flag included — to exactly its original
/// state.
pub proof fn lemma_toggle_twice_identity(ctx: ToggleAccessory, seed: u64)
    requires
        ctx.accessory.owner@ == ctx.owner@,
        ctx.accessory.seed == seed,
    ensures
        ({
            let (once, r1) = spec_toggle_accessory(ctx, seed);
            let (twice, r2) = spec_toggle_accessory(once, seed);
            &&& r1 is Ok
            &&& r2 is Ok
            &&& once.accessory.equipped == !ctx.accessory.equipped
            &&& twice == ctx
        }),
{
}

} // verus!
