//! Query-engine behaviour over hand-built catalogs.

use std::collections::{HashMap, HashSet};

use d2_weapon_filter::enums::{PerkSlot, StatFilter, StatHashes, WeaponSlot};
use d2_weapon_filter::generic::{MiniIcon, MiniSeason};
use d2_weapon_filter::weapons::lib::{WeaponFilter, WeaponRequest};
use d2_weapon_filter::weapons::filters::check_stats;
use d2_weapon_filter::weapons::structs::MinimizedWeapon;
use d2_weapon_filter::{BungieHashSet, CatalogError, GunPerkMap, PerkMap};

fn icon() -> MiniIcon {
    MiniIcon::new(String::from(
        "/common/destiny2_content/icons/0f584e8a13b2cc4cb60379b1777362e5.jpg",
    ))
    .unwrap()
}

fn weapon(hash: u32, name: &str) -> MinimizedWeapon {
    MinimizedWeapon {
        name: String::from(name),
        hash,
        slot: (WeaponSlot::Top.hash() % 256) as u8,
        energy: 1,
        rarity: 5,
        ammo_type: 1,
        weapon_type: 9,
        stats: HashMap::new(),
        icon: icon(),
        season: MiniSeason::WitchQueen,
        foundry: 0,
    }
}

fn engine(weapons: Vec<MinimizedWeapon>, adept: Vec<u32>, craftable: Vec<u32>) -> WeaponFilter {
    let mut perks: GunPerkMap = HashMap::new();
    for w in &weapons {
        perks.entry(w.hash).or_insert_with(HashMap::new);
    }
    let adept: BungieHashSet = adept.into_iter().collect();
    let craftable: BungieHashSet = craftable.into_iter().collect();
    WeaponFilter::new(weapons, adept, perks, craftable).unwrap()
}

fn hashes(items: &[MinimizedWeapon]) -> Vec<u32> {
    items.iter().map(|w| w.hash).collect()
}

#[test]
fn unconstrained_request_returns_whole_catalog_in_order() {
    let f = engine(
        vec![weapon(10, "Rose"), weapon(20, "Sunshot"), weapon(30, "Hung Jury")],
        vec![],
        vec![],
    );
    let result = f.filter_for(WeaponRequest::new());
    assert_eq!(hashes(&result), vec![10, 20, 30]);
}

#[test]
fn empty_name_matches_everything() {
    let f = engine(
        vec![weapon(1, "Rose"), weapon(2, ""), weapon(3, "Hung Jury")],
        vec![],
        vec![],
    );
    let mut req = WeaponRequest::new();
    req.name = Some(String::new());
    let result = f.filter_for(req);
    assert_eq!(hashes(&result), vec![1, 2, 3]);
}

#[test]
fn name_filter_is_case_insensitive_substring() {
    let f = engine(
        vec![weapon(1, "Rose"), weapon(2, "Primrose Path"), weapon(3, "Sunshot")],
        vec![],
        vec![],
    );
    let mut req = WeaponRequest::new();
    req.name = Some(String::from("ROSE"));
    let result = f.filter_for(req);
    assert_eq!(hashes(&result), vec![1, 2]);
}

#[test]
fn name_filter_folds_the_item_name_too() {
    // A no-op fold of the item name would leave "SUNSHOT" unmatched by "sun".
    let f = engine(vec![weapon(1, "SUNSHOT")], vec![], vec![]);
    let mut req = WeaponRequest::new();
    req.name = Some(String::from("sun"));
    assert_eq!(hashes(&f.filter_for(req)), vec![1]);
}

#[test]
fn adept_membership_is_exact() {
    let f = engine(
        vec![weapon(1, "a"), weapon(2, "b"), weapon(3, "c")],
        vec![2],
        vec![],
    );
    let mut req = WeaponRequest::new();
    req.adept = Some(true);
    assert_eq!(hashes(&f.filter_for(req)), vec![2]);
    let mut req = WeaponRequest::new();
    req.adept = Some(false);
    assert_eq!(hashes(&f.filter_for(req)), vec![1, 3]);
}

#[test]
fn craftable_membership_is_exact() {
    let f = engine(
        vec![weapon(1, "a"), weapon(2, "b")],
        vec![],
        vec![1],
    );
    let mut req = WeaponRequest::new();
    req.craftable = Some(true);
    assert_eq!(hashes(&f.filter_for(req)), vec![1]);
    let mut req = WeaponRequest::new();
    req.craftable = Some(false);
    assert_eq!(hashes(&f.filter_for(req)), vec![2]);
}

#[test]
fn perk_wildcard_matches_left_or_right_only() {
    let w1 = weapon(1, "left gun");
    let w2 = weapon(2, "right gun");
    let w3 = weapon(3, "barrel gun");
    let w4 = weapon(4, "no such perk");
    let perk: u32 = 365154968;
    let mut perks: GunPerkMap = HashMap::new();
    let mut t1: PerkMap = HashMap::new();
    t1.insert(perk, PerkSlot::Left);
    let mut t2: PerkMap = HashMap::new();
    t2.insert(perk, PerkSlot::Right);
    let mut t3: PerkMap = HashMap::new();
    t3.insert(perk, PerkSlot::Barrel);
    perks.insert(1, t1);
    perks.insert(2, t2);
    perks.insert(3, t3);
    perks.insert(4, HashMap::new());
    let f = WeaponFilter::new(
        vec![w1, w2, w3, w4],
        HashSet::new(),
        perks,
        HashSet::new(),
    )
    .unwrap();
    let mut req = WeaponRequest::new();
    let mut wanted: PerkMap = HashMap::new();
    wanted.insert(perk, PerkSlot::LeftRight);
    req.perks = Some(wanted);
    assert_eq!(hashes(&f.filter_for(req)), vec![1, 2]);
}

#[test]
fn perk_exact_slot_must_match() {
    let w1 = weapon(1, "a");
    let w2 = weapon(2, "b");
    let perk: u32 = 77;
    let mut perks: GunPerkMap = HashMap::new();
    let mut t1: PerkMap = HashMap::new();
    t1.insert(perk, PerkSlot::Origin);
    let mut t2: PerkMap = HashMap::new();
    t2.insert(perk, PerkSlot::Magazine);
    perks.insert(1, t1);
    perks.insert(2, t2);
    let f = WeaponFilter::new(vec![w1, w2], HashSet::new(), perks, HashSet::new()).unwrap();
    let mut req = WeaponRequest::new();
    let mut wanted: PerkMap = HashMap::new();
    wanted.insert(perk, PerkSlot::Origin);
    req.perks = Some(wanted);
    assert_eq!(hashes(&f.filter_for(req)), vec![1]);
}

#[test]
fn stat_at_matches_exact_value_and_excludes_missing_stat() {
    let s = StatHashes::Reload.hash();
    let mut w1 = weapon(1, "exact");
    w1.stats.insert(s, 55);
    let mut w2 = weapon(2, "off by one");
    w2.stats.insert(s, 56);
    let w3 = weapon(3, "missing stat");
    let f = engine(vec![w1, w2, w3], vec![], vec![]);
    let mut req = WeaponRequest::new();
    req.stats = Some(vec![(s, StatFilter::At(55))]);
    assert_eq!(hashes(&f.filter_for(req)), vec![1]);
}

#[test]
fn stat_below_over_five_hundred_items() {
    let velocity = StatHashes::Velocity.hash();
    let mut weapons = Vec::new();
    let mut expected = Vec::new();
    for i in 0..500u32 {
        let mut w = weapon(1000 + i, "bulk");
        if i % 45 == 3 {
            // i = 3, 48, ..., 498: exactly 12 of the 500
            w.stats.insert(velocity, 20);
            expected.push(1000 + i);
        } else if i % 3 == 0 {
            w.stats.insert(velocity, 80);
        }
        // the rest lack the stat entirely
        weapons.push(w);
    }
    assert_eq!(expected.len(), 12);
    let f = engine(weapons, vec![], vec![]);
    let mut req = WeaponRequest::new();
    req.stats = Some(vec![(velocity, StatFilter::Below(35))]);
    assert_eq!(hashes(&f.filter_for(req)), expected);
}

#[test]
fn combined_constraints_single_out_one_item() {
    // family=SubmachineGun (24), slot=Top, damage=Strand (7), adept
    let mut a = weapon(100, "The One");
    a.weapon_type = 24;
    a.slot = (WeaponSlot::Top.hash() % 256) as u8;
    a.energy = 7;
    let mut others = Vec::new();
    for i in 0..9u32 {
        let mut w = weapon(200 + i, "decoy");
        w.weapon_type = 24;
        w.slot = (WeaponSlot::Top.hash() % 256) as u8;
        w.energy = 7;
        match i % 4 {
            0 => w.weapon_type = 9,
            1 => w.slot = (WeaponSlot::Bottom.hash() % 256) as u8,
            2 => w.energy = 3,
            _ => {},  // not adept
        }
        others.push(w);
    }
    let mut weapons = vec![a];
    weapons.extend(others);
    // adept: item 100 and the decoys that differ in some other field
    let adept = vec![100, 200, 201, 202, 204, 205, 206, 208];
    let f = engine(weapons, adept, vec![]);
    let mut req = WeaponRequest::new();
    req.family = Some(24);
    req.slot = Some(WeaponSlot::Top);
    req.energy = Some(7);
    req.adept = Some(true);
    assert_eq!(hashes(&f.filter_for(req)), vec![100]);
}

#[test]
fn enumerated_field_filters_compare_low_byte_of_full_code() {
    let mut w1 = weapon(1, "primary");
    w1.ammo_type = 1;
    let mut w2 = weapon(2, "heavy");
    w2.ammo_type = 3;
    let f = engine(vec![w1, w2], vec![], vec![]);
    let mut req = WeaponRequest::new();
    req.ammo = Some(1);
    assert_eq!(hashes(&f.filter_for(req)), vec![1]);
}

#[test]
fn season_and_foundry_filters_compare_equality() {
    let mut w1 = weapon(1, "old");
    w1.season = MiniSeason::RedWar;
    w1.foundry = 4;
    let mut w2 = weapon(2, "new");
    w2.season = MiniSeason::LightFall;
    w2.foundry = 2;
    let f = engine(vec![w1, w2], vec![], vec![]);
    let mut req = WeaponRequest::new();
    req.season = Some(MiniSeason::LightFall);
    assert_eq!(hashes(&f.filter_for(req)), vec![2]);
    let mut req = WeaponRequest::new();
    req.foundry = Some(4);
    assert_eq!(hashes(&f.filter_for(req)), vec![1]);
}

#[test]
fn rarity_and_slot_filters() {
    let mut w1 = weapon(1, "legendary top");
    w1.rarity = 5;
    let mut w2 = weapon(2, "exotic bottom");
    w2.rarity = 6;
    w2.slot = (WeaponSlot::Bottom.hash() % 256) as u8;
    let f = engine(vec![w1, w2], vec![], vec![]);
    let mut req = WeaponRequest::new();
    req.rarity = Some(6);
    assert_eq!(hashes(&f.filter_for(req)), vec![2]);
    let mut req = WeaponRequest::new();
    req.slot = Some(WeaponSlot::Bottom);
    assert_eq!(hashes(&f.filter_for(req)), vec![2]);
}

#[test]
fn construction_fails_when_an_item_has_no_perk_table() {
    let weapons = vec![weapon(1, "a"), weapon(2, "b")];
    let mut perks: GunPerkMap = HashMap::new();
    perks.insert(1, HashMap::new());
    let r = WeaponFilter::new(weapons, HashSet::new(), perks, HashSet::new());
    assert!(matches!(r, Err(CatalogError::MissingPerkTable)));
}

#[test]
fn check_stats_each_constraint_kind() {
    assert!(check_stats(&StatFilter::Above(10), &11));
    assert!(!check_stats(&StatFilter::Above(10), &10));
    assert!(check_stats(&StatFilter::Below(10), &9));
    assert!(!check_stats(&StatFilter::Below(10), &10));
    assert!(check_stats(&StatFilter::AtOrAbove(10), &10));
    assert!(!check_stats(&StatFilter::AtOrAbove(10), &9));
    assert!(check_stats(&StatFilter::AtOrBelow(10), &10));
    assert!(!check_stats(&StatFilter::AtOrBelow(10), &11));
    assert!(check_stats(&StatFilter::At(10), &10));
    assert!(!check_stats(&StatFilter::At(10), &11));
    // The OR-join: Between(lo, hi) passes when hi > v or lo < v.
    assert!(check_stats(&StatFilter::Between(10, 20), &15));
    assert!(check_stats(&StatFilter::Between(10, 20), &5));
    assert!(check_stats(&StatFilter::Between(10, 20), &25));
    assert!(!check_stats(&StatFilter::Between(20, 10), &15));
    assert!(check_stats(&StatFilter::AtOrBetween(20, 10), &10));
    assert!(!check_stats(&StatFilter::AtOrBetween(21, 10), &15));
    assert!(check_stats(&StatFilter::Minimum, &-100));
    assert!(check_stats(&StatFilter::Maximum, &100));
}

#[test]
fn stat_filter_with_multiple_entries_requires_all() {
    let reload = StatHashes::Reload.hash();
    let range = StatHashes::Range.hash();
    let mut w1 = weapon(1, "both");
    w1.stats.insert(reload, 55);
    w1.stats.insert(range, 43);
    let mut w2 = weapon(2, "one");
    w2.stats.insert(reload, 55);
    let f = engine(vec![w1, w2], vec![], vec![]);
    let mut req = WeaponRequest::new();
    req.stats = Some(vec![(reload, StatFilter::At(55)), (range, StatFilter::At(43))]);
    assert_eq!(hashes(&f.filter_for(req)), vec![1]);
}

#[test]
fn repeated_stat_key_in_a_request_must_pass_every_constraint() {
    let reload = StatHashes::Reload.hash();
    let mut w1 = weapon(1, "fits both");
    w1.stats.insert(reload, 55);
    let mut w2 = weapon(2, "fits one");
    w2.stats.insert(reload, 70);
    let f = engine(vec![w1, w2], vec![], vec![]);
    let mut req = WeaponRequest::new();
    req.stats = Some(vec![
        (reload, StatFilter::AtOrAbove(50)),
        (reload, StatFilter::AtOrBelow(60)),
    ]);
    assert_eq!(hashes(&f.filter_for(req)), vec![1]);
}

#[test]
fn weapon_slot_and_stat_hashes_codes() {
    assert_eq!(WeaponSlot::Top.hash(), 1498876634);
    assert_eq!(WeaponSlot::Middle.hash(), 2465295065);
    assert_eq!(WeaponSlot::Bottom.hash(), 953998645);
    assert_eq!(StatHashes::Reload.hash(), 4188031367);
    assert_eq!(StatHashes::Velocity.hash(), 2523465841);
    assert_eq!(StatHashes::Unkown.hash(), 0);
}
