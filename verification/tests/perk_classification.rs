//! Perk-slot classification over hand-built socket graphs.

use std::collections::HashMap;

use d2_weapon_filter::enums::PerkSlot;
use d2_weapon_filter::perks::{
    classify_all, classify_perks, PlugSetMap, RawWeaponSockets, SocketCategory, SocketEntry,
    TRACKER_PERK, WEAPON_PERKS_CATEGORY,
};
use d2_weapon_filter::CatalogError;

fn entry_single(perk: u32) -> SocketEntry {
    SocketEntry {
        single_initial_item_hash: Some(perk),
        reusable_plug_items: Vec::new(),
        reusable_plug_set_hash: None,
        randomized_plug_set_hash: None,
    }
}

fn entry_list(perks: Vec<u32>) -> SocketEntry {
    SocketEntry {
        single_initial_item_hash: None,
        reusable_plug_items: perks,
        reusable_plug_set_hash: None,
        randomized_plug_set_hash: None,
    }
}

fn perk_category(indexes: Vec<usize>) -> SocketCategory {
    SocketCategory {
        socket_category_hash: WEAPON_PERKS_CATEGORY,
        socket_indexes: indexes,
    }
}

fn other_category(indexes: Vec<usize>) -> SocketCategory {
    SocketCategory {
        socket_category_hash: 2685412949,
        socket_indexes: indexes,
    }
}

#[test]
fn sockets_are_classified_in_order() {
    let categories = vec![perk_category(vec![0, 1, 2, 3, 4])];
    let entries = vec![
        entry_single(11),
        entry_single(22),
        entry_single(33),
        entry_single(44),
        entry_single(55),
    ];
    let table = classify_perks(&categories, &entries, &HashMap::new()).unwrap();
    assert_eq!(table.get(&11), Some(&PerkSlot::Barrel));
    assert_eq!(table.get(&22), Some(&PerkSlot::Magazine));
    assert_eq!(table.get(&33), Some(&PerkSlot::Left));
    assert_eq!(table.get(&44), Some(&PerkSlot::Right));
    assert_eq!(table.get(&55), Some(&PerkSlot::Origin));
    assert_eq!(table.len(), 5);
}

#[test]
fn only_the_weapon_perks_category_is_walked() {
    let categories = vec![other_category(vec![0]), perk_category(vec![1])];
    let entries = vec![entry_single(11), entry_single(22)];
    let table = classify_perks(&categories, &entries, &HashMap::new()).unwrap();
    assert_eq!(table.get(&11), None);
    assert_eq!(table.get(&22), Some(&PerkSlot::Barrel));
}

#[test]
fn all_four_attachment_mechanisms_are_unioned() {
    let mut plug_sets: PlugSetMap = HashMap::new();
    plug_sets.insert(900, vec![3, 4]);
    plug_sets.insert(901, vec![5, 6]);
    let categories = vec![perk_category(vec![0])];
    let entries = vec![SocketEntry {
        single_initial_item_hash: Some(1),
        reusable_plug_items: vec![2],
        reusable_plug_set_hash: Some(900),
        randomized_plug_set_hash: Some(901),
    }];
    let table = classify_perks(&categories, &entries, &plug_sets).unwrap();
    for perk in 1..=6u32 {
        assert_eq!(table.get(&perk), Some(&PerkSlot::Barrel), "perk {}", perk);
    }
    assert_eq!(table.len(), 6);
}

#[test]
fn duplicate_perk_keeps_the_slot_of_the_last_socket() {
    let categories = vec![perk_category(vec![0, 1, 2])];
    let entries = vec![
        entry_list(vec![7, 8]),
        entry_single(9),
        entry_list(vec![7]),
    ];
    let table = classify_perks(&categories, &entries, &HashMap::new()).unwrap();
    assert_eq!(table.get(&7), Some(&PerkSlot::Left));
    assert_eq!(table.get(&8), Some(&PerkSlot::Barrel));
    assert_eq!(table.get(&9), Some(&PerkSlot::Magazine));
}

#[test]
fn tracker_socket_is_skipped_without_advancing_the_counter() {
    let categories = vec![perk_category(vec![0, 1, 2])];
    let mut tracker = entry_single(TRACKER_PERK);
    tracker.reusable_plug_items = vec![71];
    let entries = vec![entry_single(11), tracker, entry_single(22)];
    let table = classify_perks(&categories, &entries, &HashMap::new()).unwrap();
    // the tracker socket contributes nothing, not even its plug list
    assert_eq!(table.get(&TRACKER_PERK), None);
    assert_eq!(table.get(&71), None);
    // and the socket after it takes the next slot in sequence
    assert_eq!(table.get(&11), Some(&PerkSlot::Barrel));
    assert_eq!(table.get(&22), Some(&PerkSlot::Magazine));
}

#[test]
fn sockets_past_the_fifth_contribute_nothing() {
    let categories = vec![perk_category(vec![0, 1, 2, 3, 4, 5])];
    let entries = vec![
        entry_single(1),
        entry_single(2),
        entry_single(3),
        entry_single(4),
        entry_single(5),
        entry_single(6),
    ];
    let table = classify_perks(&categories, &entries, &HashMap::new()).unwrap();
    assert_eq!(table.get(&6), None);
    assert_eq!(table.len(), 5);
}

#[test]
fn classification_is_deterministic() {
    let mut plug_sets: PlugSetMap = HashMap::new();
    plug_sets.insert(900, vec![3, 4, 5]);
    let categories = vec![perk_category(vec![0, 1])];
    let entries = vec![
        entry_list(vec![1, 2]),
        SocketEntry {
            single_initial_item_hash: None,
            reusable_plug_items: vec![],
            reusable_plug_set_hash: None,
            randomized_plug_set_hash: Some(900),
        },
    ];
    let first = classify_perks(&categories, &entries, &plug_sets).unwrap();
    let second = classify_perks(&categories, &entries, &plug_sets).unwrap();
    assert_eq!(first, second);
}

#[test]
fn missing_perk_category_is_fatal() {
    let categories = vec![other_category(vec![0])];
    let entries = vec![entry_single(1)];
    let r = classify_perks(&categories, &entries, &HashMap::new());
    assert!(matches!(r, Err(CatalogError::MissingPerkCategory)));
}

#[test]
fn out_of_range_socket_index_is_fatal() {
    let categories = vec![perk_category(vec![0, 7])];
    let entries = vec![entry_single(1)];
    let r = classify_perks(&categories, &entries, &HashMap::new());
    assert!(matches!(r, Err(CatalogError::MissingSocketEntry)));
}

#[test]
fn unresolvable_plug_set_is_fatal() {
    let categories = vec![perk_category(vec![0])];
    let entries = vec![SocketEntry {
        single_initial_item_hash: None,
        reusable_plug_items: vec![],
        reusable_plug_set_hash: Some(555),
        randomized_plug_set_hash: None,
    }];
    let r = classify_perks(&categories, &entries, &HashMap::new());
    assert!(matches!(r, Err(CatalogError::MissingPlugSet)));
}

#[test]
fn classify_all_builds_one_table_per_item() {
    let raws = vec![
        RawWeaponSockets {
            hash: 854379020,
            socket_categories: vec![perk_category(vec![0])],
            socket_entries: vec![entry_single(41)],
        },
        RawWeaponSockets {
            hash: 3193598749,
            socket_categories: vec![perk_category(vec![0, 1])],
            socket_entries: vec![entry_single(51), entry_single(52)],
        },
    ];
    let g = classify_all(&raws, &HashMap::new()).unwrap();
    assert_eq!(g.len(), 2);
    assert_eq!(g[&854379020].get(&41), Some(&PerkSlot::Barrel));
    assert_eq!(g[&3193598749].get(&52), Some(&PerkSlot::Magazine));
}

#[test]
fn classify_all_propagates_the_error_of_a_bad_item() {
    let raws = vec![
        RawWeaponSockets {
            hash: 1,
            socket_categories: vec![perk_category(vec![0])],
            socket_entries: vec![entry_single(41)],
        },
        RawWeaponSockets {
            hash: 2,
            socket_categories: vec![],
            socket_entries: vec![],
        },
    ];
    let r = classify_all(&raws, &HashMap::new());
    assert!(matches!(r, Err(CatalogError::MissingPerkCategory)));
}
