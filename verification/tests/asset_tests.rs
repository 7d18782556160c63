use registry::assets::{next_asset_id, AssetRegistry, Event};
use registry::dna::{combine_dna, derive_payload};
use registry::Error;

fn seed() -> Vec<u8> {
    vec![7u8; 32]
}

#[test]
fn owned_kitties_can_append_values() {
    let mut reg = AssetRegistry::new();
    assert_eq!(reg.create_asset(1, &seed(), 0), Ok(0));
    assert_eq!(reg.owned_assets(1), vec![0u32]);
}

#[test]
fn should_trigger_created_event() {
    let mut reg = AssetRegistry::new();
    let id = reg.create_asset(1, &seed(), 0).unwrap();
    assert!(reg.events.iter().any(|e| *e == Event::Created(1, id)));
}

#[test]
fn can_transfer() {
    let mut reg = AssetRegistry::new();
    reg.create_asset(1, &seed(), 0).unwrap();
    reg.create_asset(2, &seed(), 1).unwrap();
    // Asset 1 belongs to owner 2, so owner 1 may not reassign it.
    assert_eq!(reg.transfer_asset(1, 2, 1), Err(Error::NotOwner));
}

#[test]
fn can_do_breed() {
    let mut reg = AssetRegistry::new();
    reg.create_asset(1, &seed(), 0).unwrap();
    reg.create_asset(2, &seed(), 1).unwrap();
    // Ids 0 and 1 exist; id 2 does not, so it is no valid parent.
    assert_eq!(reg.breed_asset(1, 1, 2, &seed(), 2), Err(Error::InvalidAssetId));
}

#[test]
fn can_not_do_breed_with_same_kitty_id() {
    let mut reg = AssetRegistry::new();
    reg.create_asset(1, &seed(), 0).unwrap();
    // Id 1 was never created: existence is checked before distinctness.
    assert_eq!(reg.breed_asset(1, 1, 1, &seed(), 1), Err(Error::InvalidAssetId));
}

#[test]
fn create_increments_counter_and_assigns_fresh_id() {
    let mut reg = AssetRegistry::new();
    assert_eq!(reg.assets_count(), 0);
    assert!(reg.asset(0).is_none());
    let id = reg.create_asset(1, &seed(), 0).unwrap();
    assert_eq!(id, 0);
    assert_eq!(reg.assets_count(), 1);
    assert!(reg.asset(0).is_some());
    assert!(reg.asset(1).is_none());
    let id2 = reg.create_asset(1, &seed(), 1).unwrap();
    assert_eq!(id2, 1);
    assert_eq!(reg.assets_count(), 2);
}

#[test]
fn counter_at_maximum_overflows() {
    assert_eq!(next_asset_id(u32::MAX), Err(Error::CounterOverflow));
    assert_eq!(next_asset_id(u32::MAX - 1), Ok(u32::MAX - 1));
    assert_eq!(next_asset_id(0), Ok(0));
}

#[test]
fn payload_derivation_is_reproducible_and_mixes() {
    let s = seed();
    let a = derive_payload(&s, 1, 0);
    let b = derive_payload(&s, 1, 0);
    assert_eq!(a, b);
    // The digest does not hand back its input: the first 16 seed bytes
    // differ from the payload.
    assert_ne!(a.to_vec(), s[..16].to_vec());
    // A different extrinsic index changes the payload.
    assert_ne!(a, derive_payload(&s, 1, 1));
    // A different caller changes the payload.
    assert_ne!(a, derive_payload(&s, 2, 0));
}

#[test]
fn combine_dna_boundary_selectors() {
    for (d1, d2) in [(0x00u8, 0xffu8), (0xab, 0xcd), (0x55, 0xaa)] {
        // Selector 0x00 takes every bit from the second parent.
        assert_eq!(combine_dna(d1, d2, 0x00), d2);
        // Selector 0xff takes every bit from the first parent.
        assert_eq!(combine_dna(d1, d2, 0xff), d1);
    }
}

#[test]
fn combine_dna_exact_mix() {
    // (0xf0 & 0xca) | (0x0f & 0xa5) == 0xc0 | 0x05
    assert_eq!(combine_dna(0xca, 0xa5, 0xf0), 0xc5);
}

#[test]
fn breed_is_deterministic_for_fixed_inputs() {
    let s = seed();
    let mut reg1 = AssetRegistry::new();
    reg1.create_asset(1, &s, 0).unwrap();
    reg1.create_asset(2, &s, 1).unwrap();
    let mut reg2 = AssetRegistry::new();
    reg2.create_asset(1, &s, 0).unwrap();
    reg2.create_asset(2, &s, 1).unwrap();
    let id1 = reg1.breed_asset(1, 0, 1, &s, 2).unwrap();
    let id2 = reg2.breed_asset(1, 0, 1, &s, 2).unwrap();
    assert_eq!(id1, id2);
    assert_eq!(reg1.asset(id1).unwrap().0, reg2.asset(id2).unwrap().0);
}

#[test]
fn breed_child_matches_bytewise_mux() {
    let s = seed();
    let mut reg = AssetRegistry::new();
    reg.create_asset(1, &s, 0).unwrap();
    reg.create_asset(2, &s, 1).unwrap();
    let d1 = reg.asset(0).unwrap().0;
    let d2 = reg.asset(1).unwrap().0;
    let id = reg.breed_asset(1, 0, 1, &s, 2).unwrap();
    let selector = derive_payload(&s, 1, 2);
    let child = reg.asset(id).unwrap().0;
    for i in 0..16 {
        assert_eq!(child[i], (selector[i] & d1[i]) | (!selector[i] & d2[i]));
    }
}

#[test]
fn breed_with_same_existing_parent_fails() {
    let mut reg = AssetRegistry::new();
    let id = reg.create_asset(1, &seed(), 0).unwrap();
    let count = reg.assets_count();
    assert_eq!(reg.breed_asset(1, id, id, &seed(), 1), Err(Error::RequireDifferentParent));
    assert_eq!(reg.assets_count(), count);
}

#[test]
fn breed_with_missing_parent_fails() {
    let mut reg = AssetRegistry::new();
    let id = reg.create_asset(1, &seed(), 0).unwrap();
    assert_eq!(reg.breed_asset(1, id, 7, &seed(), 1), Err(Error::InvalidAssetId));
    assert_eq!(reg.breed_asset(1, 7, id, &seed(), 1), Err(Error::InvalidAssetId));
    assert_eq!(reg.assets_count(), 1);
}

#[test]
fn breed_end_to_end_assigns_next_id_to_caller() {
    let s = seed();
    let mut reg = AssetRegistry::new();
    assert_eq!(reg.create_asset(1, &s, 0), Ok(0));
    assert_eq!(reg.create_asset(2, &s, 1), Ok(1));
    assert_eq!(reg.breed_asset(1, 0, 1, &s, 2), Ok(2));
    assert_eq!(reg.owner_of(2), Some(1));
    assert!(reg.events.iter().any(|e| *e == Event::Created(1, 2)));
}

#[test]
fn transfer_succeeds_for_owner() {
    let mut reg = AssetRegistry::new();
    let id = reg.create_asset(1, &seed(), 0).unwrap();
    assert_eq!(reg.transfer_asset(1, 2, id), Ok(()));
    assert_eq!(reg.owner_of(id), Some(2));
    assert!(reg.events.iter().any(|e| *e == Event::Transferred(1, 2, id)));
    assert_eq!(reg.owned_assets(1), Vec::<u32>::new());
    assert_eq!(reg.owned_assets(2), vec![id]);
}

#[test]
fn transfer_of_missing_asset_fails() {
    let mut reg = AssetRegistry::new();
    assert_eq!(reg.transfer_asset(1, 2, 0), Err(Error::InvalidAssetId));
}

#[test]
fn owned_assets_lists_ids_in_order() {
    let s = seed();
    let mut reg = AssetRegistry::new();
    reg.create_asset(1, &s, 0).unwrap();
    reg.create_asset(2, &s, 1).unwrap();
    reg.create_asset(1, &s, 2).unwrap();
    assert_eq!(reg.owned_assets(1), vec![0u32, 2]);
    assert_eq!(reg.owned_assets(2), vec![1u32]);
    assert_eq!(reg.owned_assets(3), Vec::<u32>::new());
}
