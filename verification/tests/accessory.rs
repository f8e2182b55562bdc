use companion_core::error::CompanionError;
use companion_core::ops::{
    initialize_companion, mint_yellow_ribbon, record_interaction, toggle_accessory, update_mood,
    InitializeCompanion, MintAccessory, ToggleAccessory, UpdateCompanion,
};
use companion_core::state::AccessoryType;

fn mint(owner: [u8; 32], name: &str, seed: u64, bump: u8, now: i64) -> companion_core::Accessory {
    let mut ctx = MintAccessory {
        accessory: None,
        owner,
        bump,
    };
    let r = mint_yellow_ribbon(&mut ctx, name.to_string(), seed, now);
    assert!(r.is_ok());
    ctx.accessory.expect("slot must be filled on success")
}

#[test]
fn mint_creates_unequipped_record_with_given_fields() {
    let owner = [5u8; 32];
    let a = mint(owner, "Ribbon", 42, 252, 9_000);
    assert_eq!(a.owner, owner);
    assert_eq!(a.accessory_type, AccessoryType::YellowRibbon);
    assert_eq!(a.name, "Ribbon");
    assert_eq!(a.mint_date, 9_000);
    assert!(!a.equipped);
    assert_eq!(a.seed, 42);
    assert_eq!(a.bump, 252);
}

#[test]
fn mint_accepts_name_of_exactly_fifty_characters() {
    let owner = [5u8; 32];
    let name = "n".repeat(50);
    let a = mint(owner, &name, 1, 252, 10);
    assert_eq!(a.name.chars().count(), 50);
}

#[test]
fn mint_rejects_name_of_fifty_one_characters_and_creates_nothing() {
    let owner = [5u8; 32];
    let name = "n".repeat(51);
    let mut ctx = MintAccessory {
        accessory: None,
        owner,
        bump: 252,
    };
    let r = mint_yellow_ribbon(&mut ctx, name, 1, 10);
    assert_eq!(r, Err(CompanionError::NameTooLong));
    assert!(ctx.accessory.is_none());
}

#[test]
fn mint_on_occupied_slot_fails_with_duplicate_and_keeps_record() {
    let owner = [5u8; 32];
    let first = mint(owner, "Ribbon", 42, 252, 10);
    let mut ctx = MintAccessory {
        accessory: Some(first.clone()),
        owner,
        bump: 252,
    };
    let r = mint_yellow_ribbon(&mut ctx, "Other".to_string(), 42, 20);
    assert_eq!(r, Err(CompanionError::DuplicateRecord));
    let still = ctx.accessory.expect("slot still occupied");
    assert_eq!(still.name, "Ribbon");
    assert_eq!(still.mint_date, 10);
    assert!(!still.equipped);
}

#[test]
fn toggle_flips_only_the_equipped_flag() {
    let owner = [6u8; 32];
    let mut ctx = ToggleAccessory {
        accessory: mint(owner, "Ribbon", 7, 251, 30),
        owner,
    };
    let r = toggle_accessory(&mut ctx, 7);
    assert!(r.is_ok());
    assert!(ctx.accessory.equipped);
    assert_eq!(ctx.accessory.owner, owner);
    assert_eq!(ctx.accessory.name, "Ribbon");
    assert_eq!(ctx.accessory.mint_date, 30);
    assert_eq!(ctx.accessory.seed, 7);
    assert_eq!(ctx.accessory.bump, 251);
}

#[test]
fn toggle_twice_restores_the_original_state() {
    let owner = [6u8; 32];
    let original = mint(owner, "Ribbon", 7, 251, 30);
    let mut ctx = ToggleAccessory {
        accessory: original.clone(),
        owner,
    };
    assert!(toggle_accessory(&mut ctx, 7).is_ok());
    assert!(toggle_accessory(&mut ctx, 7).is_ok());
    assert_eq!(ctx.accessory.owner, original.owner);
    assert_eq!(ctx.accessory.accessory_type, original.accessory_type);
    assert_eq!(ctx.accessory.name, original.name);
    assert_eq!(ctx.accessory.mint_date, original.mint_date);
    assert_eq!(ctx.accessory.equipped, original.equipped);
    assert_eq!(ctx.accessory.seed, original.seed);
    assert_eq!(ctx.accessory.bump, original.bump);
}

#[test]
fn foreign_signer_cannot_toggle() {
    let owner = [6u8; 32];
    let intruder = [8u8; 32];
    let mut ctx = ToggleAccessory {
        accessory: mint(owner, "Ribbon", 7, 251, 30),
        owner: intruder,
    };
    let r = toggle_accessory(&mut ctx, 7);
    assert_eq!(r, Err(CompanionError::Unauthorized));
    assert!(!ctx.accessory.equipped);
}

#[test]
fn toggle_with_wrong_seed_is_rejected() {
    let owner = [6u8; 32];
    let mut ctx = ToggleAccessory {
        accessory: mint(owner, "Ribbon", 7, 251, 30),
        owner,
    };
    let r = toggle_accessory(&mut ctx, 8);
    assert_eq!(r, Err(CompanionError::Unauthorized));
    assert!(!ctx.accessory.equipped);
}

#[test]
fn two_seeds_give_two_independently_toggleable_records() {
    let owner = [6u8; 32];
    let a1 = mint(owner, "Ribbon", 1, 251, 30);
    let a2 = mint(owner, "Ribbon", 2, 250, 31);

    let mut t1 = ToggleAccessory {
        accessory: a1,
        owner,
    };
    let t2 = ToggleAccessory {
        accessory: a2,
        owner,
    };
    assert!(toggle_accessory(&mut t1, 1).is_ok());
    assert!(t1.accessory.equipped);
    assert!(!t2.accessory.equipped);
}

#[test]
fn full_owner_scenario_runs_end_to_end() {
    let owner = [11u8; 32];
    let mut init = InitializeCompanion {
        companion: None,
        owner,
        bump: 255,
    };
    assert!(initialize_companion(&mut init, 1_000).is_ok());
    let companion = init.companion.expect("created");
    assert_eq!(companion.mood, 50);
    assert_eq!(companion.interaction_count, 0);

    let mut uc = UpdateCompanion { companion, owner };
    assert!(update_mood(&mut uc, 80, 1_001).is_ok());
    assert_eq!(uc.companion.mood, 80);

    for t in [1_002i64, 1_003, 1_004] {
        assert!(record_interaction(&mut uc, t).is_ok());
    }
    assert_eq!(uc.companion.interaction_count, 3);

    let mut mc = MintAccessory {
        accessory: None,
        owner,
        bump: 254,
    };
    assert!(mint_yellow_ribbon(&mut mc, "Ribbon".to_string(), 42, 1_005).is_ok());
    let accessory = mc.accessory.expect("minted");
    assert!(!accessory.equipped);

    let mut tc = ToggleAccessory {
        accessory,
        owner,
    };
    assert!(toggle_accessory(&mut tc, 42).is_ok());
    assert!(tc.accessory.equipped);
}
