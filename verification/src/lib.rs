//! A read-only query engine over a compact catalog of weapon items.
//!
//! The catalog is built once from raw socket/plug-set data: the perk
//! classification in [`perks`] derives, for every weapon, a table mapping each
//! perk it can roll to the structural slot that perk occupies. Queries are
//! bags of independent optional constraints ([`weapons::lib::WeaponRequest`]);
//! [`weapons::lib::WeaponFilter::filter_for`] returns every catalog item that
//! satisfies all supplied constraints, in catalog order.

use vstd::prelude::*;

pub mod enums;
pub mod generic;
pub mod inventory_items;
pub mod perks;
pub mod text;
pub mod weapons;

use std::collections::{HashMap, HashSet};

use enums::{PerkSlot, StatFilter};

verus! {

/// A stable identifier assigned by the source catalog.
pub type BungieHash = u32;

/// Identifier of one weapon item.
pub type WeaponHash = u32;

/// Identifier of one perk.
pub type PerkHash = u32;

/// The stat constraints of one request: (stat identifier, range constraint) pairs.
pub type StatVec = Vec<(BungieHash, StatFilter)>;

/// An unordered set of item identities (adept membership, craftable membership).
pub type BungieHashSet = HashSet<BungieHash>;

/// One weapon's perk table: perk identifier to the structural slot it occupies.
pub type PerkMap = HashMap<PerkHash, PerkSlot>;

/// Perk tables of the whole catalog, keyed by weapon identity.
pub type GunPerkMap = HashMap<WeaponHash, PerkMap>;

/// Load-time fatal errors: the raw catalog or a persisted table is missing a
/// piece or malformed. There is no partially-usable catalog; queries never
/// fail.
#[derive(Debug, Clone, Copy, PartialEq, Eq, Structural)]
pub enum CatalogError {
    /// No socket-category grouping carries the weapon-perks category.
    MissingPerkCategory,
    /// A socket-category grouping references a socket index with no entry.
    MissingSocketEntry,
    /// A socket entry references a perk set absent from the shared table.
    MissingPlugSet,
    /// A catalog item has no perk table.
    MissingPerkTable,
}

} // verus!
