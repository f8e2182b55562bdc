use companion_core::address::{
    accessory_bump_is_canonical, companion_bump_is_canonical, derive_accessory_address,
    derive_companion_address,
};
use companion_core::ops::{initialize_companion, mint_yellow_ribbon, InitializeCompanion, MintAccessory};

const PROGRAM_ID: [u8; 32] = [13u8; 32];

#[test]
fn companion_derivation_is_deterministic() {
    let owner = [1u8; 32];
    let first = derive_companion_address(&owner, &PROGRAM_ID).expect("derivation succeeds");
    let second = derive_companion_address(&owner, &PROGRAM_ID).expect("derivation succeeds");
    assert_eq!(first, second);
}

#[test]
fn companion_derivation_is_not_its_input() {
    let owner = [1u8; 32];
    let (addr, _bump) = derive_companion_address(&owner, &PROGRAM_ID).expect("derivation succeeds");
    assert_ne!(addr, owner);
    assert_ne!(addr, PROGRAM_ID);
}

#[test]
fn distinct_owners_get_distinct_companion_addresses() {
    let (a1, _) = derive_companion_address(&[1u8; 32], &PROGRAM_ID).expect("derivation succeeds");
    let (a2, _) = derive_companion_address(&[2u8; 32], &PROGRAM_ID).expect("derivation succeeds");
    assert_ne!(a1, a2);
}

#[test]
fn distinct_seeds_get_distinct_accessory_addresses() {
    let owner = [1u8; 32];
    let (a1, _) = derive_accessory_address(&owner, 1, &PROGRAM_ID).expect("derivation succeeds");
    let (a2, _) = derive_accessory_address(&owner, 2, &PROGRAM_ID).expect("derivation succeeds");
    assert_ne!(a1, a2);
}

#[test]
fn companion_and_accessory_addresses_differ_for_one_owner() {
    let owner = [1u8; 32];
    let (c, _) = derive_companion_address(&owner, &PROGRAM_ID).expect("derivation succeeds");
    let (a, _) = derive_accessory_address(&owner, 1, &PROGRAM_ID).expect("derivation succeeds");
    assert_ne!(c, a);
}

#[test]
fn companion_created_with_derived_bump_passes_the_canonical_check() {
    let owner = [21u8; 32];
    let (_addr, bump) = derive_companion_address(&owner, &PROGRAM_ID).expect("derivation succeeds");
    let mut ctx = InitializeCompanion {
        companion: None,
        owner,
        bump,
    };
    assert!(initialize_companion(&mut ctx, 500).is_ok());
    let companion = ctx.companion.expect("created");
    assert!(companion_bump_is_canonical(&companion, &PROGRAM_ID));

    let mut forged = companion;
    forged.bump = companion.bump.wrapping_add(1);
    assert!(!companion_bump_is_canonical(&forged, &PROGRAM_ID));
}

#[test]
fn accessory_minted_with_derived_bump_passes_the_canonical_check() {
    let owner = [22u8; 32];
    let seed = 42u64;
    let (_addr, bump) = derive_accessory_address(&owner, seed, &PROGRAM_ID).expect("derivation succeeds");
    let mut ctx = MintAccessory {
        accessory: None,
        owner,
        bump,
    };
    assert!(mint_yellow_ribbon(&mut ctx, "Ribbon".to_string(), seed, 600).is_ok());
    let accessory = ctx.accessory.expect("minted");
    assert!(accessory_bump_is_canonical(&accessory, &PROGRAM_ID));

    let mut forged = accessory;
    forged.bump = forged.bump.wrapping_add(1);
    assert!(!accessory_bump_is_canonical(&forged, &PROGRAM_ID));
}
