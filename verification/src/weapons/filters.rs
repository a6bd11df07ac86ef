//! Single-field predicates for the weapon-specific constraints: stat ranges,
//! required perks, weapon family, ammo category, foundry, and the two
//! membership sets.

use vstd::prelude::*;

use std::collections::HashMap;

use vstd::std_specs::hash::spec_hash_map_iter;
use vstd::std_specs::iter::IteratorSpec;

use crate::enums::PerkSlot;
use crate::enums::StatFilter;
use crate::BungieHash;
use crate::BungieHashSet;
use crate::GunPerkMap;
use crate::PerkHash;
use crate::PerkMap;
use crate::StatVec;
use crate::weapons::structs::MinimizedWeapon;
use crate::weapons::structs::WeaponView;

verus! {

broadcast use vstd::std_specs::hash::group_hash_axioms;

/// One range constraint against one stat value.
///
/// `Between` and `AtOrBetween` join their clauses with an inclusive OR, and
/// `Minimum`/`Maximum` hold of every value: both keep the observed catalog
/// behaviour.
pub open spec fn stat_filter_passes(f: StatFilter, v: int) -> bool {
    match f {
        StatFilter::Above(x) => x < v,
        StatFilter::Between(lo, hi) => hi > v || lo < v,
        StatFilter::Below(x) => x > v,
        StatFilter::AtOrAbove(x) => x <= v,
        StatFilter::AtOrBelow(x) => x >= v,
        StatFilter::AtOrBetween(lo, hi) => hi >= v || lo <= v,
        StatFilter::At(x) => x == v,
        StatFilter::Minimum => true,
        StatFilter::Maximum => true,
    }
}

pub fn check_stats(stat_range: &StatFilter, check_stat: &i8) -> (r: bool)
    ensures
        r == stat_filter_passes(*stat_range, *check_stat as int),
{
    let v = *check_stat as i32;
    match *stat_range {
        StatFilter::Above(stat_above) => stat_above < v,
        StatFilter::Between(stat_low, stat_high) => stat_high > v || stat_low < v,
        StatFilter::Below(stat_below) => stat_below > v,
        StatFilter::AtOrAbove(stat_above) => stat_above <= v,
        StatFilter::AtOrBetween(stat_low, stat_high) => stat_high >= v || stat_low <= v,
        StatFilter::AtOrBelow(stat_below) => stat_below >= v,
        StatFilter::At(stat_at) => stat_at == v,
        StatFilter::Minimum => true,
        StatFilter::Maximum => true,
    }
}

/// One (stat identifier, range constraint) pair holds of the item: the item
/// carries the stat and its value passes the constraint.
pub open spec fn stat_entry_matches(item: WeaponView, entry: (BungieHash, StatFilter)) -> bool {
    item.stats.contains_key(entry.0) && stat_filter_passes(entry.1, item.stats[entry.0] as int)
}

/// Every supplied (stat identifier, range constraint) pair holds of the item.
pub open spec fn stats_match(item: WeaponView, stats: Seq<(BungieHash, StatFilter)>) -> bool {
    forall|i: int| 0 <= i < stats.len() ==> stat_entry_matches(item, #[trigger] stats[i])
}

pub fn filter_stats(item: &MinimizedWeapon, stats: &StatVec) -> (r: bool)
    ensures
        r == stats_match(item@, stats@),
{
    let mut idx: usize = 0;
    while idx < stats.len()
        invariant
            idx <= stats@.len(),
            forall|i: int| 0 <= i < idx ==> stat_entry_matches(item@, #[trigger] stats@[i]),
        decreases stats@.len() - idx,
    {
        let (stat, stat_range) = stats[idx];
        match item.stats.get(&stat) {
            Some(value) => {
                if !check_stats(&stat_range, value) {
                    return false;
                }
            },
            None => {
                return false;
            },
        }
        idx += 1;
    }
    true
}

/// The requested slot matches the actual slot of a perk: either exactly, or
/// through the `LeftRight` wildcard, which accepts `Left` and `Right`.
pub open spec fn perk_slot_matches(actual: PerkSlot, requested: PerkSlot) -> bool {
    requested == actual || (requested == PerkSlot::LeftRight && (actual == PerkSlot::Left
        || actual == PerkSlot::Right))
}

/// One required (perk, slot) pair holds of a perk table: the perk is in the
/// table and its actual slot matches the requested one. A perk absent from
/// the table is a non-match, not a "don't care".
pub open spec fn perk_pair_matches(gun: Map<PerkHash, PerkSlot>, pair: (&PerkHash, &PerkSlot)) -> bool {
    gun.contains_key(*pair.0) && perk_slot_matches(gun[*pair.0], *pair.1)
}

/// Every required (perk, slot) pair holds of a perk table.
pub open spec fn perks_match(gun: Map<PerkHash, PerkSlot>, search: Map<PerkHash, PerkSlot>) -> bool {
    forall|p: PerkHash| #[trigger] search.contains_key(p) ==> gun.contains_key(p)
        && perk_slot_matches(gun[p], search[p])
}

pub fn filter_perks(perks: &GunPerkMap, item: &MinimizedWeapon, search: &PerkMap) -> (r: bool)
    requires
        perks@.contains_key(item.hash),
    ensures
        r == perks_match(perks@[item@.hash]@, search@),
{
    let hash = item.hash;
    if let Some(gun) = perks.get(&hash) {
        let mut ok = true;
        for kv in it: search.iter()
            invariant
                gun@ == perks@[item@.hash]@,
                it.seq() == spec_hash_map_iter(search).remaining(),
                ok == (forall|j: int|
                    0 <= j < it.index() ==> perk_pair_matches(gun@, #[trigger] it.seq()[j])),
        {
            let m = match gun.get(kv.0) {
                Some(actual) => {
                    let req = *kv.1;
                    req == *actual || (req == PerkSlot::LeftRight && (*actual == PerkSlot::Left
                        || *actual == PerkSlot::Right))
                },
                None => false,
            };
            ok = ok && m;
        }
        proof {
            let pairs = spec_hash_map_iter(search).remaining();
            assert(ok == (forall|j: int|
                0 <= j < pairs.len() ==> perk_pair_matches(gun@, #[trigger] pairs[j])));
            if ok {
                assert forall|p: PerkHash| #[trigger] search@.contains_key(p) implies gun@.contains_key(
                    p,
                ) && perk_slot_matches(gun@[p], search@[p]) by {
                    let pair = (&p, &search@[p]);
                    assert(pairs.contains(pair));
                    let j = choose|j: int| 0 <= j < pairs.len() && pairs[j] == pair;
                    assert(perk_pair_matches(gun@, pairs[j]));
                }
            } else {
                let j = choose|j: int|
                    0 <= j < pairs.len() && !perk_pair_matches(gun@, #[trigger] pairs[j]);
                let pair = pairs[j];
                assert(search@.contains_key(*pair.0) && search@[*pair.0] == *pair.1);
            }
        }
        ok
    } else {
        proof {
            assert(false);
        }
        false
    }
}

/// The weapon family/sub-type test.
pub open spec fn spec_item_type_matches(item: WeaponView, search: u32) -> bool {
    item.weapon_type == search as u8
}

pub fn filter_item_type(item: &MinimizedWeapon, search: u32) -> (r: bool)
    ensures
        r == spec_item_type_matches(item@, search),
{
    item.weapon_type == #[verifier::truncate] (search as u8)
}

/// Craftable membership: the item is in the craftable set exactly when the
/// request asks for craftable items.
pub fn filter_craftable(item: &MinimizedWeapon, search: bool, craftables: &BungieHashSet) -> (r:
    bool)
    ensures
        r == (craftables@.contains(item@.hash) == search),
{
    craftables.contains(&item.hash) == search
}

/// Adept membership: the item is in the adept set exactly when the request
/// asks for adept items.
pub fn filter_adept(item: &MinimizedWeapon, search: bool, adept: &BungieHashSet) -> (r: bool)
    ensures
        r == (adept@.contains(item@.hash) == search),
{
    adept.contains(&item.hash) == search
}

/// The ammo-category test.
pub open spec fn spec_ammo_matches(item: WeaponView, search: u32) -> bool {
    item.ammo_type == search as u8
}

pub fn filter_ammo(item: &MinimizedWeapon, search: u32) -> (r: bool)
    ensures
        r == spec_ammo_matches(item@, search),
{
    item.ammo_type == #[verifier::truncate] (search as u8)
}

/// The foundry test.
pub fn filter_foundry(item: &MinimizedWeapon, search: u8) -> (r: bool)
    ensures
        r == (item@.foundry == search),
{
    item.foundry == search
}

} // verus!
