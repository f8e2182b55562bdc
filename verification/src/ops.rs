//! The five entry points of the ledger and their exact state transitions.
//!
//! Each operation is one atomic invocation over the records passed to it: it
//! performs the ownership check first, then the operation's domain checks, and
//! only then mutates; a failed check reports one error and changes nothing.
//! The host environment hands each operation the record at the derived
//! address, the verified signer identity, and the current ledger time.

use vstd::prelude::*;
use crate::error::CompanionError;
use crate::state::{Accessory, AccessoryType, Companion, INITIAL_MOOD, MAX_MOOD, MAX_NAME_LEN, ids_equal};

verus! {

/// Accounts of `initialize_companion`: the slot at the owner's derived
/// companion address, the signer, and the canonical bump the host derived.
pub struct InitializeCompanion {
    /// The record slot at the derived address; `None` while unoccupied.
    pub companion: Option<Companion>,
    /// The signer's identity, proved by the host's signature check.
    pub owner: [u8; 32],
    /// The canonical bump for (companion tag, owner), from the host's derivation.
    pub bump: u8,
}

/// Accounts of `update_mood` and `record_interaction`: the companion record at
/// the derived address and the signer.
pub struct UpdateCompanion {
    /// The companion record at the owner's derived address.
    pub companion: Companion,
    /// The signer's identity, proved by the host's signature check.
    pub owner: [u8; 32],
}

/// Accounts of `mint_yellow_ribbon`: the slot at the derived accessory
/// address, the signer, and the canonical bump the host derived.
pub struct MintAccessory {
    /// The record slot at the derived (owner, seed) address; `None` while unoccupied.
    pub accessory: Option<Accessory>,
    /// The signer's identity, proved by the host's signature check.
    pub owner: [u8; 32],
    /// The canonical bump for (accessory tag, owner, seed), from the host's derivation.
    pub bump: u8,
}

/// Accounts of `toggle_accessory`: the accessory record at the derived
/// address and the signer.
pub struct ToggleAccessory {
    /// The accessory record at the derived (owner, seed) address.
    pub accessory: Accessory,
    /// The signer's identity, proved by the host's signature check.
    pub owner: [u8; 32],
}

/// What `initialize_companion` does: occupy the slot with the neutral initial
/// record, or fail with `DuplicateRecord` if the slot is already occupied.
pub open spec fn spec_initialize_companion(ctx: InitializeCompanion, now: i64) -> (InitializeCompanion, Result<(), CompanionError>) {
    if ctx.companion is Some {
        (ctx, Err(CompanionError::DuplicateRecord))
    } else {
        (
            InitializeCompanion {
                companion: Some(Companion {
                    owner: ctx.owner,
                    mood: INITIAL_MOOD,
                    interaction_count: 0,
                    last_interaction: now,
                    bump: ctx.bump,
                }),
                owner: ctx.owner,
                bump: ctx.bump,
            },
            Ok(()),
        )
    }
}

/// What `update_mood` does: reject a foreign signer, reject a mood above the
/// scale, otherwise overwrite the mood and refresh the interaction time.
pub open spec fn spec_update_mood(ctx: UpdateCompanion, new_mood: u8, now: i64) -> (UpdateCompanion, Result<(), CompanionError>) {
    if ctx.companion.owner@ != ctx.owner@ {
        (ctx, Err(CompanionError::Unauthorized))
    } else if new_mood > MAX_MOOD {
        (ctx, Err(CompanionError::OutOfRange))
    } else {
        (
            UpdateCompanion {
                companion: Companion {
                    owner: ctx.companion.owner,
                    mood: new_mood,
                    interaction_count: ctx.companion.interaction_count,
                    last_interaction: now,
                    bump: ctx.companion.bump,
                },
                owner: ctx.owner,
            },
            Ok(()),
        )
    }
}

/// What `record_interaction` does: reject a foreign signer, reject a counter
/// already at capacity, otherwise count the interaction and refresh the time.
pub open spec fn spec_record_interaction(ctx: UpdateCompanion, now: i64) -> (UpdateCompanion, Result<(), CompanionError>) {
    if ctx.companion.owner@ != ctx.owner@ {
        (ctx, Err(CompanionError::Unauthorized))
    } else if ctx.companion.interaction_count == u64::MAX {
        (ctx, Err(CompanionError::CounterOverflow))
    } else {
        (
            UpdateCompanion {
                companion: Companion {
                    owner: ctx.companion.owner,
                    mood: ctx.companion.mood,
                    interaction_count: (ctx.companion.interaction_count + 1) as u64,
                    last_interaction: now,
                    bump: ctx.companion.bump,
                },
                owner: ctx.owner,
            },
            Ok(()),
        )
    }
}

/// What `mint_yellow_ribbon` does: reject an occupied slot, reject a name over
/// the bound, otherwise create the accessory record, unequipped.
pub open spec fn spec_mint_yellow_ribbon(ctx: MintAccessory, name: String, seed: u64, now: i64) -> (MintAccessory, Result<(), CompanionError>) {
    if ctx.accessory is Some {
        (ctx, Err(CompanionError::DuplicateRecord))
    } else if name@.len() > MAX_NAME_LEN {
        (ctx, Err(CompanionError::NameTooLong))
    } else {
        (
            MintAccessory {
                accessory: Some(Accessory {
                    owner: ctx.owner,
                    accessory_type: AccessoryType::YellowRibbon,
                    name: name,
                    mint_date: now,
                    equipped: false,
                    seed: seed,
                    bump: ctx.bump,
                }),
                owner: ctx.owner,
                bump: ctx.bump,
            },
            Ok(()),
        )
    }
}

/// What `toggle_accessory` does: reject a foreign signer or a record that is
/// not the one derived from the supplied seed, otherwise flip the equipped
/// flag and touch nothing else.
pub open spec fn spec_toggle_accessory(ctx: ToggleAccessory, seed: u64) -> (ToggleAccessory, Result<(), CompanionError>) {
    if ctx.accessory.owner@ != ctx.owner@ {
        (ctx, Err(CompanionError::Unauthorized))
    } else if ctx.accessory.seed != seed {
        (ctx, Err(CompanionError::Unauthorized))
    } else {
        (
            ToggleAccessory {
                accessory: Accessory {
                    owner: ctx.accessory.owner,
                    accessory_type: ctx.accessory.accessory_type,
                    name: ctx.accessory.name,
                    mint_date: ctx.accessory.mint_date,
                    equipped: !ctx.accessory.equipped,
                    seed: ctx.accessory.seed,
                    bump: ctx.accessory.bump,
                },
                owner: ctx.owner,
            },
            Ok(()),
        )
    }
}

/// Create the signer's companion record. Fails with `DuplicateRecord` when the
/// slot at the derived address already holds a record, and then changes
/// nothing; otherwise the slot receives a record owned by the signer with the
/// neutral mood, a zero interaction counter, the current time and the
/// canonical bump.
pub fn initialize_companion(ctx: &mut InitializeCompanion, now: i64) -> (r: Result<(), CompanionError>)
    ensures
        (*final(ctx), r) == spec_initialize_companion(*old(ctx), now),
        r is Ok <==> old(ctx).companion is None,
        r is Ok ==> (final(ctx).companion matches Some(c) && c.wf()),
{
    if ctx.companion.is_some() {
        return Err(CompanionError::DuplicateRecord);
    }
    ctx.companion = Some(Companion {
        owner: ctx.owner,
        mood: INITIAL_MOOD,
        interaction_count: 0,
        last_interaction: now,
        bump: ctx.bump,
    });
    Ok(())
}

/// Overwrite the companion's mood. Fails with `Unauthorized` when the signer
/// is not the stored owner, then with `OutOfRange` when `new_mood` exceeds the
/// scale; a failure changes nothing. On success the mood becomes exactly
/// `new_mood` and the interaction time becomes `now`; the owner, counter and
/// bump stay as they were.
pub fn update_mood(ctx: &mut UpdateCompanion, new_mood: u8, now: i64) -> (r: Result<(), CompanionError>)
    ensures
        (*final(ctx), r) == spec_update_mood(*old(ctx), new_mood, now),
        r is Ok ==> final(ctx).companion.wf(),
        old(ctx).companion.wf() ==> final(ctx).companion.wf(),
{
    if !ids_equal(&ctx.companion.owner, &ctx.owner) {
        return Err(CompanionError::Unauthorized);
    }
    if new_mood > MAX_MOOD {
        return Err(CompanionError::OutOfRange);
    }
    ctx.companion.mood = new_mood;
    ctx.companion.last_interaction = now;
    Ok(())
}

/// Count one interaction with the companion. Fails with `Unauthorized` when
/// the signer is not the stored owner, then with `CounterOverflow` when the
/// counter is already at its maximum; a failure changes nothing. On success
/// the counter grows by exactly one — it never wraps — and the interaction
/// time becomes `now`.
pub fn record_interaction(ctx: &mut UpdateCompanion, now: i64) -> (r: Result<(), CompanionError>)
    ensures
        (*final(ctx), r) == spec_record_interaction(*old(ctx), now),
        final(ctx).companion.interaction_count >= old(ctx).companion.interaction_count,
        old(ctx).companion.wf() ==> final(ctx).companion.wf(),
{
    if !ids_equal(&ctx.companion.owner, &ctx.owner) {
        return Err(CompanionError::Unauthorized);
    }
    if ctx.companion.interaction_count == u64::MAX {
        return Err(CompanionError::CounterOverflow);
    }
    ctx.companion.interaction_count = ctx.companion.interaction_count + 1;
    ctx.companion.last_interaction = now;
    Ok(())
}

/// Mint a yellow-ribbon accessory for the signer. Fails with `DuplicateRecord`
/// when the slot at the derived (owner, seed) address already holds a record,
/// then with `NameTooLong` when the name exceeds the bound; a failure changes
/// nothing. On success the slot receives an unequipped record owned by the
/// signer, carrying the given name, seed, the current time and the canonical
/// bump. Payment is settled by an external collaborator before this call.
pub fn mint_yellow_ribbon(ctx: &mut MintAccessory, name: String, seed: u64, now: i64) -> (r: Result<(), CompanionError>)
    ensures
        (*final(ctx), r) == spec_mint_yellow_ribbon(*old(ctx), name, seed, now),
        r is Ok <==> old(ctx).accessory is None && name@.len() <= MAX_NAME_LEN,
        r is Ok ==> (final(ctx).accessory matches Some(a) && a.wf()),
{
    if ctx.accessory.is_some() {
        return Err(CompanionError::DuplicateRecord);
    }
    if name.as_str().unicode_len() > MAX_NAME_LEN {
        return Err(CompanionError::NameTooLong);
    }
    ctx.accessory = Some(Accessory {
        owner: ctx.owner,
        accessory_type: AccessoryType::YellowRibbon,
        name: name,
        mint_date: now,
        equipped: false,
        seed: seed,
        bump: ctx.bump,
    });
    Ok(())
}

/// Flip whether the accessory is equipped. Fails with `Unauthorized` when the
/// signer is not the stored owner, or when the record is not the one derived
/// from the supplied seed; a failure changes nothing. On success only the
/// equipped flag changes. No mutual exclusion is imposed: any number of an
/// owner's accessories may be equipped at once.
pub fn toggle_accessory(ctx: &mut ToggleAccessory, seed: u64) -> (r: Result<(), CompanionError>)
    ensures
        (*final(ctx), r) == spec_toggle_accessory(*old(ctx), seed),
        old(ctx).accessory.wf() ==> final(ctx).accessory.wf(),
{
    if !ids_equal(&ctx.accessory.owner, &ctx.owner) {
        return Err(CompanionError::Unauthorized);
    }
    if ctx.accessory.seed != seed {
        return Err(CompanionError::Unauthorized);
    }
    ctx.accessory.equipped = !ctx.accessory.equipped;
    Ok(())
}

} // verus!
