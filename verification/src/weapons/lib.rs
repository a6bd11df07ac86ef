//! The catalog and its single query operation.
//!
//! A [`WeaponFilter`] owns the immutable item collection, the perk tables and
//! the two membership sets; [`WeaponFilter::filter_for`] returns every item
//! satisfying all constraints of a [`WeaponRequest`], in catalog order.

use vstd::prelude::*;

use crate::enums::PerkSlot;
use crate::enums::StatFilter;
use crate::enums::WeaponSlot;
use crate::generic::MiniSeason;
use crate::inventory_items::filters::filter_energy;
use crate::inventory_items::filters::filter_names;
use crate::inventory_items::filters::filter_rarity;
use crate::inventory_items::filters::filter_season;
use crate::inventory_items::filters::filter_slot;
use crate::inventory_items::filters::spec_energy_matches;
use crate::inventory_items::filters::spec_rarity_matches;
use crate::inventory_items::filters::spec_slot_matches;
use crate::text::name_matches;
use crate::weapons::filters::filter_adept;
use crate::weapons::filters::filter_ammo;
use crate::weapons::filters::filter_craftable;
use crate::weapons::filters::filter_foundry;
use crate::weapons::filters::filter_item_type;
use crate::weapons::filters::filter_perks;
use crate::weapons::filters::filter_stats;
use crate::weapons::filters::perk_slot_matches;
use crate::weapons::filters::perks_match;
use crate::weapons::filters::stat_entry_matches;
use crate::weapons::filters::spec_ammo_matches;
use crate::weapons::filters::spec_item_type_matches;
use crate::weapons::filters::stats_match;
use crate::weapons::structs::weapon_views;
use crate::weapons::structs::MinimizedWeapon;
use crate::weapons::structs::WeaponView;
use crate::BungieHash;
use crate::BungieHashSet;
use crate::CatalogError;
use crate::GunPerkMap;
use crate::PerkHash;
use crate::PerkMap;
use crate::StatVec;

verus! {

broadcast use vstd::std_specs::hash::group_hash_axioms;

/// The query engine: the immutable item collection, the perk table of every
/// item, and the adept and craftable membership sets. Built once; queries
/// never mutate it.
pub struct WeaponFilter {
    pub weapons: Vec<MinimizedWeapon>,
    pub adept: BungieHashSet,
    pub perks: GunPerkMap,
    pub craftable: BungieHashSet,
}

/// A bag of independent optional constraints; an unset field constrains
/// nothing. Enumerated fields carry the full catalog code of the wanted
/// value; the compact item model stores its low byte.
pub struct WeaponRequest {
    pub family: Option<u32>,
    pub stats: Option<StatVec>,
    pub energy: Option<u32>,
    pub slot: Option<WeaponSlot>,
    pub adept: Option<bool>,
    pub craftable: Option<bool>,
    pub name: Option<String>,
    pub rarity: Option<u32>,
    pub ammo: Option<u32>,
    pub perks: Option<PerkMap>,
    pub season: Option<MiniSeason>,
    pub foundry: Option<u8>,
}

impl WeaponRequest {
    /// The request with every constraint unset.
    pub open spec fn spec_new() -> WeaponRequest {
        WeaponRequest {
            family: None,
            stats: None,
            energy: None,
            slot: None,
            adept: None,
            craftable: None,
            name: None,
            rarity: None,
            ammo: None,
            perks: None,
            season: None,
            foundry: None,
        }
    }

    pub fn new() -> (r: WeaponRequest)
        ensures
            r == WeaponRequest::spec_new(),
    {
        WeaponRequest {
            family: None,
            stats: None,
            energy: None,
            slot: None,
            adept: None,
            craftable: None,
            name: None,
            rarity: None,
            ammo: None,
            perks: None,
            season: None,
            foundry: None,
        }
    }
}

impl Default for WeaponRequest {
    fn default() -> (r: Self)
        ensures
            r == WeaponRequest::spec_new(),
    {
        Self::new()
    }
}

/// One item satisfies one request: the conjunction of every supplied
/// constraint's test.
pub open spec fn spec_check_weapon(f: WeaponFilter, item: WeaponView, search: WeaponRequest) -> bool {
    &&& (search.season matches Some(s) ==> item.season == s)
    &&& (search.foundry matches Some(x) ==> item.foundry == x)
    &&& (search.ammo matches Some(a) ==> spec_ammo_matches(item, a))
    &&& (search.energy matches Some(e) ==> spec_energy_matches(item, e))
    &&& (search.family matches Some(x) ==> spec_item_type_matches(item, x))
    &&& (search.slot matches Some(s) ==> spec_slot_matches(item, s.spec_hash()))
    &&& (search.rarity matches Some(x) ==> spec_rarity_matches(item, x))
    &&& (search.craftable matches Some(b) ==> (f.craftable@.contains(item.hash) == b))
    &&& (search.adept matches Some(b) ==> (f.adept@.contains(item.hash) == b))
    &&& (search.perks matches Some(pm) ==> perks_match(f.perks@[item.hash]@, pm@))
    &&& (search.stats matches Some(sv) ==> stats_match(item, sv@))
    &&& (search.name matches Some(n) ==> name_matches(n@, item.name))
}

impl WeaponFilter {
    /// Every catalog item has a perk table.
    pub open spec fn wf(self) -> bool {
        forall|i: int|
            0 <= i < self.weapons@.len() ==> self.perks@.contains_key(
                #[trigger] self.weapons@[i].hash,
            )
    }

    /// Assemble the engine from its loaded tables. Construction fails exactly
    /// when some catalog item has no perk table.
    pub fn new(
        weapons: Vec<MinimizedWeapon>,
        adept: BungieHashSet,
        perks: GunPerkMap,
        craftable: BungieHashSet,
    ) -> (r: Result<WeaponFilter, CatalogError>)
        ensures
            r is Ok <==> (forall|i: int|
                0 <= i < weapons@.len() ==> perks@.contains_key(#[trigger] weapons@[i].hash)),
            r matches Ok(f) ==> f == (WeaponFilter { weapons, adept, perks, craftable }) && f.wf(),
            r matches Err(e) ==> e == CatalogError::MissingPerkTable,
    {
        let mut i: usize = 0;
        while i < weapons.len()
            invariant
                i <= weapons@.len(),
                forall|j: int| 0 <= j < i ==> perks@.contains_key(#[trigger] weapons@[j].hash),
            decreases weapons@.len() - i,
        {
            if !perks.contains_key(&weapons[i].hash) {
                return Err(CatalogError::MissingPerkTable);
            }
            i += 1;
        }
        Ok(WeaponFilter { weapons, adept, perks, craftable })
    }

    /// Test one item against one request, short-circuiting on the first
    /// failing constraint.
    pub fn check_weapon(&self, item: &MinimizedWeapon, search: &WeaponRequest) -> (r: bool)
        requires
            search.perks is Some ==> self.perks@.contains_key(item.hash),
        ensures
            r == spec_check_weapon(*self, item@, *search),
    {
        if let Some(query) = search.season {
            if !filter_season(item, query) {
                return false;
            }
        }
        if let Some(query) = search.foundry {
            if !filter_foundry(item, query) {
                return false;
            }
        }
        if let Some(query) = search.ammo {
            if !filter_ammo(item, query) {
                return false;
            }
        }
        if let Some(query) = search.energy {
            if !filter_energy(item, query) {
                return false;
            }
        }
        if let Some(query) = search.family {
            if !filter_item_type(item, query) {
                return false;
            }
        }
        if let Some(query) = search.slot {
            if !filter_slot(item, query.hash()) {
                return false;
            }
        }
        if let Some(query) = search.rarity {
            if !filter_rarity(item, query) {
                return false;
            }
        }
        if let Some(query) = search.craftable {
            if !filter_craftable(item, query, &self.craftable) {
                return false;
            }
        }
        if let Some(query) = search.adept {
            if !filter_adept(item, query, &self.adept) {
                return false;
            }
        }
        if let Some(query) = &search.perks {
            if !filter_perks(&self.perks, item, query) {
                return false;
            }
        }
        if let Some(query) = &search.stats {
            if !filter_stats(item, query) {
                return false;
            }
        }
        if let Some(query) = &search.name {
            if !filter_names(item, query) {
                return false;
            }
        }
        true
    }

    /// The single query operation: every item satisfying all supplied
    /// constraints, in catalog order.
    pub fn filter_for(&self, search: WeaponRequest) -> (result: Vec<MinimizedWeapon>)
        requires
            self.wf(),
        ensures
            weapon_views(result@) == weapon_views(self.weapons@).filter(
                |w: WeaponView| spec_check_weapon(*self, w, search),
            ),
    {
        let ghost pred = |w: WeaponView| spec_check_weapon(*self, w, search);
        let mut result: Vec<MinimizedWeapon> = Vec::new();
        let mut i: usize = 0;
        proof {
            assert(weapon_views(result@) =~= weapon_views(self.weapons@.take(0)).filter(pred));
        }
        while i < self.weapons.len()
            invariant
                i <= self.weapons@.len(),
                self.wf(),
                pred == (|w: WeaponView| spec_check_weapon(*self, w, search)),
                weapon_views(result@) == weapon_views(self.weapons@.take(i as int)).filter(pred),
            decreases self.weapons@.len() - i,
        {
            let ghost prev = weapon_views(result@);
            let item = &self.weapons[i];
            if self.check_weapon(item, &search) {
                result.push(item.duplicate());
            }
            proof {
                broadcast use vstd::prelude::Seq::lemma_filter_push;

                let ws = self.weapons@;
                let a = weapon_views(ws.take(i as int));
                let b = weapon_views(ws.take(i + 1));
                assert(b =~= a.push(ws[i as int]@));
                if pred(ws[i as int]@) {
                    assert(weapon_views(result@) =~= prev.push(ws[i as int]@));
                }
                assert(weapon_views(result@) == b.filter(pred));
            }
            i += 1;
        }
        proof {
            assert(self.weapons@.take(i as int) =~= self.weapons@);
        }
        result
    }
}

/// A predicate that holds of every element filters nothing out.
proof fn lemma_filter_retains_all(s: Seq<WeaponView>, pred: spec_fn(WeaponView) -> bool)
    requires
        forall|i: int| 0 <= i < s.len() ==> pred(#[trigger] s[i]),
    ensures
        s.filter(pred) == s,
    decreases s.len(),
{
    broadcast use vstd::prelude::Seq::lemma_filter_push;

    if s.len() == 0 {
        reveal(Seq::filter);
    } else {
        lemma_filter_retains_all(s.drop_last(), pred);
        assert(pred(s[s.len() - 1]));
        assert(s.drop_last().push(s.last()) =~= s);
        assert(s.drop_last().push(s.last()).filter(pred) == s.drop_last().filter(pred).push(
            s.last(),
        ));
    }
}

/// A request with every field unset matches every item.
pub proof fn lemma_unconstrained_matches_all(
    f: WeaponFilter,
    item: WeaponView,
    search: WeaponRequest,
)
    requires
        search == WeaponRequest::spec_new(),
    ensures
        spec_check_weapon(f, item, search),
{
}

/// A query with every field unset returns the entire catalog, in catalog
/// order.
pub proof fn lemma_unconstrained_keeps_catalog(f: WeaponFilter, search: WeaponRequest)
    requires
        search == WeaponRequest::spec_new(),
    ensures
        weapon_views(f.weapons@).filter(|w: WeaponView| spec_check_weapon(f, w, search))
            == weapon_views(f.weapons@),
{
    lemma_filter_retains_all(
        weapon_views(f.weapons@),
        |w: WeaponView| spec_check_weapon(f, w, search),
    );
}

/// A request whose only constraint is an empty name matches every item: the
/// empty substring matches every name.
pub proof fn lemma_empty_name_matches_all(f: WeaponFilter, item: WeaponView, search: WeaponRequest)
    requires
        search.name matches Some(n) && n@.len() == 0,
        search == (WeaponRequest { name: search.name, ..WeaponRequest::spec_new() }),
    ensures
        spec_check_weapon(f, item, search),
{
}

/// A query whose only constraint is an empty name returns the entire
/// catalog, in catalog order.
pub proof fn lemma_empty_name_keeps_catalog(f: WeaponFilter, search: WeaponRequest)
    requires
        search.name matches Some(n) && n@.len() == 0,
        search == (WeaponRequest { name: search.name, ..WeaponRequest::spec_new() }),
    ensures
        weapon_views(f.weapons@).filter(|w: WeaponView| spec_check_weapon(f, w, search))
            == weapon_views(f.weapons@),
{
    lemma_filter_retains_all(
        weapon_views(f.weapons@),
        |w: WeaponView| spec_check_weapon(f, w, search),
    );
}

/// A request whose only constraint is the adept flag matches exactly the
/// members of the adept set when the flag is true, and exactly the
/// non-members when it is false.
pub proof fn lemma_adept_membership(
    f: WeaponFilter,
    item: WeaponView,
    search: WeaponRequest,
    b: bool,
)
    requires
        search == (WeaponRequest { adept: Some(b), ..WeaponRequest::spec_new() }),
    ensures
        spec_check_weapon(f, item, search) <==> (f.adept@.contains(item.hash) == b),
{
}

/// A request whose only constraint requires perk `p` in the `LeftRight`
/// wildcard slot matches exactly the items whose actual slot for `p` is Left
/// or Right, and excludes items where `p` is absent or sits in any other
/// slot. The item's table must store actual slots only, as classified tables
/// do.
pub proof fn lemma_perk_wildcard(
    f: WeaponFilter,
    item: WeaponView,
    search: WeaponRequest,
    p: PerkHash,
    pm: PerkMap,
)
    requires
        search == (WeaponRequest { perks: Some(pm), ..WeaponRequest::spec_new() }),
        pm@ == Map::<PerkHash, PerkSlot>::empty().insert(p, PerkSlot::LeftRight),
        forall|q: PerkHash| #[trigger]
            f.perks@[item.hash]@.contains_key(q) ==> f.perks@[item.hash]@[q]
                != PerkSlot::LeftRight,
    ensures
        spec_check_weapon(f, item, search) <==> (f.perks@[item.hash]@.contains_key(p) && (
        f.perks@[item.hash]@[p] == PerkSlot::Left || f.perks@[item.hash]@[p] == PerkSlot::Right)),
{
    let gun = f.perks@[item.hash]@;
    assert(pm@.contains_key(p));
    if f.perks@[item.hash]@.contains_key(p) && (gun[p] == PerkSlot::Left || gun[p]
        == PerkSlot::Right) {
        assert forall|q: PerkHash| #[trigger] pm@.contains_key(q) implies gun.contains_key(q)
            && perk_slot_matches(gun[q], pm@[q]) by {
            assert(q == p);
        }
    }
}

/// A request whose only constraint is `At(x)` on stat `s` matches exactly
/// the items that carry stat `s` with value exactly `x`; items missing the
/// stat are excluded.
pub proof fn lemma_stat_at_exact(
    f: WeaponFilter,
    item: WeaponView,
    search: WeaponRequest,
    s: BungieHash,
    x: i32,
    sv: StatVec,
)
    requires
        search == (WeaponRequest { stats: Some(sv), ..WeaponRequest::spec_new() }),
        sv@ == seq![(s, StatFilter::At(x))],
    ensures
        spec_check_weapon(f, item, search) <==> (item.stats.contains_key(s) && item.stats[s] as int
            == x),
{
    assert(sv@[0] == (s, StatFilter::At(x)));
    if item.stats.contains_key(s) && item.stats[s] as int == x {
        assert forall|i: int| 0 <= i < sv@.len() implies stat_entry_matches(
            item,
            #[trigger] sv@[i],
        ) by {
            assert(sv@[i] == sv@[0]);
        }
    }
}

} // verus!
