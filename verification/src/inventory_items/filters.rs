//! Single-field predicates on the classification fields every inventory item
//! carries: display name, rarity tier, equip slot, damage type and season.
//!
//! Requests carry the full catalog code of an enumerated value; the compact
//! item model stores its low byte.

use vstd::prelude::*;

use crate::generic::MiniSeason;
use crate::text::contains_substring;
use crate::text::is_substring;
use crate::text::name_matches;
use crate::text::to_lowercase;
use crate::weapons::structs::MinimizedWeapon;
use crate::weapons::structs::WeaponView;

verus! {

/// The item's name, folded to lowercase, holds the folded search string as a
/// substring; an empty search string matches every name.
pub fn filter_names(item: &MinimizedWeapon, search: &String) -> (r: bool)
    ensures
        r == name_matches(search@, item@.name),
{
    let folded_name = to_lowercase(item.name.as_str());
    let folded_search = to_lowercase(search.as_str());
    let r = contains_substring(folded_name.as_str(), folded_search.as_str());
    proof {
        if search@.len() == 0 {
            assert(folded_name@.subrange(0, 0 + folded_search@.len() as int) =~= folded_search@);
            assert(is_substring(folded_search@, folded_name@));
        }
    }
    r
}

/// The rarity-tier test.
pub open spec fn spec_rarity_matches(item: WeaponView, search: u32) -> bool {
    item.rarity == search as u8
}

pub fn filter_rarity(item: &MinimizedWeapon, search: u32) -> (r: bool)
    ensures
        r == spec_rarity_matches(item@, search),
{
    item.rarity == #[verifier::truncate] (search as u8)
}

/// The equip-slot test.
pub open spec fn spec_slot_matches(item: WeaponView, search: u32) -> bool {
    item.slot == search as u8
}

pub fn filter_slot(item: &MinimizedWeapon, search: u32) -> (r: bool)
    ensures
        r == spec_slot_matches(item@, search),
{
    item.slot == #[verifier::truncate] (search as u8)
}

/// The damage/element-type test.
pub open spec fn spec_energy_matches(item: WeaponView, search: u32) -> bool {
    item.energy == search as u8
}

pub fn filter_energy(item: &MinimizedWeapon, search: u32) -> (r: bool)
    ensures
        r == spec_energy_matches(item@, search),
{
    item.energy == #[verifier::truncate] (search as u8)
}

/// The season/watermark test.
pub fn filter_season(item: &MinimizedWeapon, search: MiniSeason) -> (r: bool)
    ensures
        r == (item@.season == search),
{
    item.season == search
}

} // verus!
