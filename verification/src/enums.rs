//! Closed enumerations for the catalog's classification fields.
//!
//! Each enumeration keeps a stable numeric identity for the external
//! interface boundary; the conversion functions below state those codes.

use vstd::prelude::*;

verus! {

/// The structural slot a perk occupies on a weapon.
///
/// `LeftRight` exists only on the query side: it is a wildcard that matches
/// either `Left` or `Right`, and is never stored in a perk table.
#[derive(Debug, Clone, Copy, PartialEq, Eq, Structural)]
pub enum PerkSlot {
    Barrel,
    Magazine,
    Left,
    Right,
    Origin,
    Unknown,
    LeftRight,
}

impl PerkSlot {
    /// The slot assigned to the socket at zero-based position `index` within
    /// the weapon-perks socket category.
    pub open spec fn spec_of_index(index: nat) -> PerkSlot {
        if index == 0 {
            PerkSlot::Barrel
        } else if index == 1 {
            PerkSlot::Magazine
        } else if index == 2 {
            PerkSlot::Left
        } else if index == 3 {
            PerkSlot::Right
        } else if index == 4 {
            PerkSlot::Origin
        } else {
            PerkSlot::Unknown
        }
    }

    pub fn of_index(index: usize) -> (r: PerkSlot)
        ensures
            r == PerkSlot::spec_of_index(index as nat),
    {
        match index {
            0 => PerkSlot::Barrel,
            1 => PerkSlot::Magazine,
            2 => PerkSlot::Left,
            3 => PerkSlot::Right,
            4 => PerkSlot::Origin,
            _ => PerkSlot::Unknown,
        }
    }
}

/// The stat identifiers the source catalog uses.
#[derive(Debug, Clone, Copy, PartialEq, Eq, Structural)]
pub enum StatHashes {
    Accuracy,
    AimAssist,
    Airborne,
    AmmoCapacity,
    Attack,
    BlastRadius,
    ChargeRate,
    ChargeTime,
    DrawTime,
    GuardEfficiency,
    GuardEndurance,
    GuardResistance,
    Handling,
    Impact,
    InventorySize,
    Magazine,
    Range,
    RecoilDir,
    Recovery,
    Reload,
    Rpm,
    ShieldDuration,
    SwingSpeed,
    Velocity,
    Zoom,
    Unkown,
}

impl StatHashes {
    /// The numeric identity of this stat in the source catalog.
    pub open spec fn spec_hash(self) -> u32 {
        match self {
            StatHashes::Accuracy => 1591432999u32,
            StatHashes::AimAssist => 1345609583u32,
            StatHashes::Airborne => 2714457168u32,
            StatHashes::AmmoCapacity => 925767036u32,
            StatHashes::Attack => 1480404414u32,
            StatHashes::BlastRadius => 3614673599u32,
            StatHashes::ChargeRate => 3022301683u32,
            StatHashes::ChargeTime => 2961396640u32,
            StatHashes::DrawTime => 447667954u32,
            StatHashes::GuardEfficiency => 2762071195u32,
            StatHashes::GuardEndurance => 3736848092u32,
            StatHashes::GuardResistance => 209426660u32,
            StatHashes::Handling => 943549884u32,
            StatHashes::Impact => 4043523819u32,
            StatHashes::InventorySize => 1931675084u32,
            StatHashes::Magazine => 3871231066u32,
            StatHashes::Range => 1240592695u32,
            StatHashes::RecoilDir => 2715839340u32,
            StatHashes::Recovery => 1943323491u32,
            StatHashes::Reload => 4188031367u32,
            StatHashes::Rpm => 4284893193u32,
            StatHashes::ShieldDuration => 1842278586u32,
            StatHashes::SwingSpeed => 2837207746u32,
            StatHashes::Velocity => 2523465841u32,
            StatHashes::Zoom => 3555269338u32,
            StatHashes::Unkown => 0u32,
        }
    }

    pub fn hash(self) -> (r: u32)
        ensures
            r == self.spec_hash(),
    {
        match self {
            StatHashes::Accuracy => 1591432999,
            StatHashes::AimAssist => 1345609583,
            StatHashes::Airborne => 2714457168,
            StatHashes::AmmoCapacity => 925767036,
            StatHashes::Attack => 1480404414,
            StatHashes::BlastRadius => 3614673599,
            StatHashes::ChargeRate => 3022301683,
            StatHashes::ChargeTime => 2961396640,
            StatHashes::DrawTime => 447667954,
            StatHashes::GuardEfficiency => 2762071195,
            StatHashes::GuardEndurance => 3736848092,
            StatHashes::GuardResistance => 209426660,
            StatHashes::Handling => 943549884,
            StatHashes::Impact => 4043523819,
            StatHashes::InventorySize => 1931675084,
            StatHashes::Magazine => 3871231066,
            StatHashes::Range => 1240592695,
            StatHashes::RecoilDir => 2715839340,
            StatHashes::Recovery => 1943323491,
            StatHashes::Reload => 4188031367,
            StatHashes::Rpm => 4284893193,
            StatHashes::ShieldDuration => 1842278586,
            StatHashes::SwingSpeed => 2837207746,
            StatHashes::Velocity => 2523465841,
            StatHashes::Zoom => 3555269338,
            StatHashes::Unkown => 0,
        }
    }
}

/// One numeric range constraint on a stat value.
///
/// `Between` and `AtOrBetween` join their two clauses with an inclusive OR,
/// matching the observed catalog behaviour; `Minimum` and `Maximum` are
/// markers with no numeric effect.
#[derive(Debug, Clone, Copy)]
pub enum StatFilter {
    Above(i32),
    Between(i32, i32),
    Below(i32),
    AtOrAbove(i32),
    AtOrBelow(i32),
    AtOrBetween(i32, i32),
    At(i32),
    Minimum,
    Maximum,
}

/// The three equip-slot placements, each with its catalog identity.
#[derive(Debug, Clone, Copy, PartialEq, Eq, Structural)]
pub enum WeaponSlot {
    Top,
    Middle,
    Bottom,
}

impl WeaponSlot {
    /// The numeric identity of this equip slot in the source catalog.
    pub open spec fn spec_hash(self) -> u32 {
        match self {
            WeaponSlot::Top => 1498876634u32,
            WeaponSlot::Middle => 2465295065u32,
            WeaponSlot::Bottom => 953998645u32,
        }
    }

    pub fn hash(self) -> (r: u32)
        ensures
            r == self.spec_hash(),
    {
        match self {
            WeaponSlot::Top => 1498876634,
            WeaponSlot::Middle => 2465295065,
            WeaponSlot::Bottom => 953998645,
        }
    }
}

} // verus!
