//! The fixed-layout representation of one catalog item.

use vstd::prelude::*;

use std::collections::HashMap;

use crate::generic::MiniIcon;
use crate::generic::MiniSeason;
use crate::BungieHash;

verus! {

broadcast use vstd::std_specs::hash::group_hash_axioms;

/// One catalog item, with every enumerated game concept stored as a
/// narrow numeric code instead of a verbose domain object.
///
/// A stat key absent from `stats` means the item does not qualify for a
/// constraint on that stat, not that the value is zero.
#[derive(Clone, Debug)]
pub struct MinimizedWeapon {
    pub name: String,
    pub hash: u32,
    pub slot: u8,
    pub energy: u8,
    pub rarity: u8,
    pub ammo_type: u8,
    pub weapon_type: u8,
    pub stats: HashMap<BungieHash, i8>,
    pub icon: MiniIcon,
    pub season: MiniSeason,
    pub foundry: u8,
}

/// The mathematical value of one catalog item.
pub struct WeaponView {
    pub name: Seq<char>,
    pub hash: u32,
    pub slot: u8,
    pub energy: u8,
    pub rarity: u8,
    pub ammo_type: u8,
    pub weapon_type: u8,
    pub stats: Map<BungieHash, i8>,
    pub icon: MiniIcon,
    pub season: MiniSeason,
    pub foundry: u8,
}

impl View for MinimizedWeapon {
    type V = WeaponView;

    open spec fn view(&self) -> WeaponView {
        WeaponView {
            name: self.name@,
            hash: self.hash,
            slot: self.slot,
            energy: self.energy,
            rarity: self.rarity,
            ammo_type: self.ammo_type,
            weapon_type: self.weapon_type,
            stats: self.stats@,
            icon: self.icon,
            season: self.season,
            foundry: self.foundry,
        }
    }
}

impl MinimizedWeapon {
    /// A copy of the item, equal to the original.
    pub fn duplicate(&self) -> (r: MinimizedWeapon)
        ensures
            r@ == self@,
    {
        MinimizedWeapon {
            name: self.name.clone(),
            hash: self.hash,
            slot: self.slot,
            energy: self.energy,
            rarity: self.rarity,
            ammo_type: self.ammo_type,
            weapon_type: self.weapon_type,
            stats: self.stats.clone(),
            icon: self.icon,
            season: self.season,
            foundry: self.foundry,
        }
    }
}

/// The mathematical values of a run of catalog items.
pub open spec fn weapon_views(s: Seq<MinimizedWeapon>) -> Seq<WeaponView> {
    s.map_values(|w: MinimizedWeapon| w@)
}

} // verus!
