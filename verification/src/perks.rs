//! The perk classification engine: a one-time transform from a raw item's
//! socket/plug-set graph into a table mapping each perk identifier the item
//! can roll to the structural slot it occupies.
//!
//! Only the socket-category grouping carrying [`WEAPON_PERKS_CATEGORY`] is
//! walked; its socket indices are processed in order, with a zero-based
//! counter assigning slots: 0 is Barrel, 1 Magazine, 2 Left, 3 Right and
//! 4 Origin. A socket whose statically-assigned perk is the reserved
//! kill-tracker identifier is skipped entirely, without advancing the
//! counter; a socket beyond the fifth contributes nothing to the table, but
//! still advances the counter. A perk discovered at several sockets keeps the
//! slot of the last socket that mentions it.

use vstd::prelude::*;

use std::collections::HashMap;

use crate::enums::PerkSlot;
use crate::CatalogError;
use crate::GunPerkMap;
use crate::PerkHash;
use crate::PerkMap;
use crate::WeaponHash;

verus! {

broadcast use vstd::std_specs::hash::group_hash_axioms;

/// The socket-category identifier of the weapon-perks group; every other
/// grouping holds intrinsic or cosmetic sockets and is ignored.
pub const WEAPON_PERKS_CATEGORY: u32 = 4241085061;

/// The reserved kill-tracker perk identifier. A socket statically assigned
/// this perk is excluded from classification.
pub const TRACKER_PERK: u32 = 2285418970;

/// The shared perk-set table: perk-set identifier to the perks it holds.
pub type PlugSetMap = HashMap<u32, Vec<u32>>;

/// One socket-category grouping of a raw item: a category identifier and the
/// ordered socket indices belonging to it.
pub struct SocketCategory {
    pub socket_category_hash: u32,
    pub socket_indexes: Vec<usize>,
}

/// One socket of a raw item. A perk can be attached in up to four ways: a
/// single statically-assigned perk, a list of statically-reusable perks, a
/// shared reusable perk set, and a shared randomized perk set; the two shared
/// forms are resolved against the [`PlugSetMap`].
pub struct SocketEntry {
    pub single_initial_item_hash: Option<u32>,
    pub reusable_plug_items: Vec<u32>,
    pub reusable_plug_set_hash: Option<u32>,
    pub randomized_plug_set_hash: Option<u32>,
}

/// The first socket-category grouping carrying the weapon-perks category.
pub open spec fn spec_first_perk_category(cats: Seq<SocketCategory>) -> Option<SocketCategory>
    decreases cats.len(),
{
    if cats.len() == 0 {
        None
    } else if cats[0].socket_category_hash == WEAPON_PERKS_CATEGORY {
        Some(cats[0])
    } else {
        spec_first_perk_category(cats.drop_first())
    }
}

/// The perks a shared perk-set reference contributes, or an error when the
/// referenced set is absent.
pub open spec fn spec_plug_seq(h: Option<u32>, plug_sets: Map<u32, Vec<u32>>) -> Result<
    Seq<u32>,
    CatalogError,
> {
    match h {
        None => Ok(Seq::empty()),
        Some(x) => if plug_sets.contains_key(x) {
            Ok(plug_sets[x]@)
        } else {
            Err(CatalogError::MissingPlugSet)
        },
    }
}

/// The union of the perks all four attachment mechanisms of one socket
/// produce, in mechanism order.
pub open spec fn spec_socket_plugs(e: SocketEntry, plug_sets: Map<u32, Vec<u32>>) -> Result<
    Seq<u32>,
    CatalogError,
> {
    let single = match e.single_initial_item_hash {
        None => Seq::empty(),
        Some(h) => seq![h],
    };
    match (spec_plug_seq(e.reusable_plug_set_hash, plug_sets), spec_plug_seq(
        e.randomized_plug_set_hash,
        plug_sets,
    )) {
        (Ok(a), Ok(b)) => Ok(single + e.reusable_plug_items@ + a + b),
        (Err(er), _) => Err(er),
        (_, Err(er)) => Err(er),
    }
}

/// Tag every perk of `plugs` with `slot`, later writes winning over earlier
/// ones.
pub open spec fn spec_insert_all(
    m: Map<PerkHash, PerkSlot>,
    plugs: Seq<PerkHash>,
    slot: PerkSlot,
) -> Map<PerkHash, PerkSlot>
    decreases plugs.len(),
{
    if plugs.len() == 0 {
        m
    } else {
        spec_insert_all(m, plugs.drop_last(), slot).insert(plugs.last(), slot)
    }
}

/// Walk the socket indices of the weapon-perks category in order,
/// accumulating the perk table.
pub open spec fn spec_walk_sockets(
    indexes: Seq<usize>,
    entries: Seq<SocketEntry>,
    plug_sets: Map<u32, Vec<u32>>,
    counter: nat,
    acc: Map<PerkHash, PerkSlot>,
) -> Result<Map<PerkHash, PerkSlot>, CatalogError>
    decreases indexes.len(),
{
    if indexes.len() == 0 {
        Ok(acc)
    } else {
        let idx = indexes[0];
        if idx >= entries.len() {
            Err(CatalogError::MissingSocketEntry)
        } else {
            let e = entries[idx as int];
            if e.single_initial_item_hash == Some(TRACKER_PERK) {
                spec_walk_sockets(indexes.drop_first(), entries, plug_sets, counter, acc)
            } else {
                match spec_socket_plugs(e, plug_sets) {
                    Err(er) => Err(er),
                    Ok(plugs) => {
                        let acc2 = if counter <= 4 {
                            spec_insert_all(acc, plugs, PerkSlot::spec_of_index(counter))
                        } else {
                            acc
                        };
                        spec_walk_sockets(
                            indexes.drop_first(),
                            entries,
                            plug_sets,
                            counter + 1,
                            acc2,
                        )
                    },
                }
            }
        }
    }
}

/// The perk table of one raw item, or the load-time error refusing it.
pub open spec fn spec_classify(
    cats: Seq<SocketCategory>,
    entries: Seq<SocketEntry>,
    plug_sets: Map<u32, Vec<u32>>,
) -> Result<Map<PerkHash, PerkSlot>, CatalogError> {
    match spec_first_perk_category(cats) {
        None => Err(CatalogError::MissingPerkCategory),
        Some(cat) => spec_walk_sockets(
            cat.socket_indexes@,
            entries,
            plug_sets,
            0,
            Map::empty(),
        ),
    }
}

/// The mathematical value of a classification result.
pub open spec fn classify_result_view(r: Result<PerkMap, CatalogError>) -> Result<
    Map<PerkHash, PerkSlot>,
    CatalogError,
> {
    match r {
        Ok(m) => Ok(m@),
        Err(e) => Err(e),
    }
}

/// The index of the first socket-category grouping carrying the weapon-perks
/// category, if any grouping does.
fn find_perk_category(categories: &Vec<SocketCategory>) -> (r: Option<usize>)
    ensures
        (match r {
            Some(ci) => ci < categories@.len() && spec_first_perk_category(categories@) == Some(
                categories@[ci as int],
            ),
            None => spec_first_perk_category(categories@) is None,
        }),
{
    let mut ci: usize = 0;
    proof {
        assert(categories@.skip(0) =~= categories@);
    }
    while ci < categories.len()
        invariant
            ci <= categories@.len(),
            spec_first_perk_category(categories@) == spec_first_perk_category(
                categories@.skip(ci as int),
            ),
        decreases categories@.len() - ci,
    {
        proof {
            assert(categories@.skip(ci as int)[0] == categories@[ci as int]);
        }
        if categories[ci].socket_category_hash == WEAPON_PERKS_CATEGORY {
            return Some(ci);
        }
        proof {
            assert(categories@.skip(ci as int).drop_first() =~= categories@.skip(ci as int + 1));
        }
        ci += 1;
    }
    proof {
        assert(categories@.skip(ci as int) =~= Seq::<SocketCategory>::empty());
    }
    None
}

/// Append every element of `src` to `dst`.
fn append_all(dst: &mut Vec<u32>, src: &Vec<u32>)
    ensures
        final(dst)@ == old(dst)@ + src@,
{
    let mut j: usize = 0;
    while j < src.len()
        invariant
            j <= src@.len(),
            dst@ == old(dst)@ + src@.take(j as int),
        decreases src@.len() - j,
    {
        dst.push(src[j]);
        proof {
            assert(src@.take(j as int + 1) =~= src@.take(j as int).push(src@[j as int]));
            assert(dst@ =~= old(dst)@ + src@.take(j as int + 1));
        }
        j += 1;
    }
    proof {
        assert(src@.take(src@.len() as int) =~= src@);
    }
}

/// Derive the perk table of one raw item from its socket graph, resolving
/// shared perk sets against `plug_sets`. A missing weapon-perks grouping, an
/// out-of-range socket index or an unresolvable perk-set reference is a fatal
/// error for the item.
pub fn classify_perks(
    categories: &Vec<SocketCategory>,
    entries: &Vec<SocketEntry>,
    plug_sets: &PlugSetMap,
) -> (r: Result<PerkMap, CatalogError>)
    ensures
        classify_result_view(r) == spec_classify(categories@, entries@, plug_sets@),
{
    let ci = match find_perk_category(categories) {
        Some(ci) => ci,
        None => {
            return Err(CatalogError::MissingPerkCategory);
        },
    };
    let cat = &categories[ci];
    let idxs = &cat.socket_indexes;
    let mut map: PerkMap = HashMap::new();
    let mut counter: usize = 0;
    let mut k: usize = 0;
    proof {
        assert(idxs@.skip(0) =~= idxs@);
        assert(map@ =~= Map::<PerkHash, PerkSlot>::empty());
    }
    while k < idxs.len()
        invariant
            k <= idxs@.len(),
            counter <= k,
            spec_classify(categories@, entries@, plug_sets@) == spec_walk_sockets(
                idxs@.skip(k as int),
                entries@,
                plug_sets@,
                counter as nat,
                map@,
            ),
        decreases idxs@.len() - k,
    {
        let ghost walk0 = spec_walk_sockets(
            idxs@.skip(k as int),
            entries@,
            plug_sets@,
            counter as nat,
            map@,
        );
        proof {
            assert(idxs@.skip(k as int)[0] == idxs@[k as int]);
            assert(idxs@.skip(k as int).drop_first() =~= idxs@.skip(k as int + 1));
        }
        let idx = idxs[k];
        if idx >= entries.len() {
            return Err(CatalogError::MissingSocketEntry);
        }
        let entry = &entries[idx];
        let is_tracker = match entry.single_initial_item_hash {
            Some(h) => h == TRACKER_PERK,
            None => false,
        };
        if is_tracker {
            k += 1;
            continue;
        }
        let mut plugs: Vec<u32> = Vec::new();
        if let Some(h) = entry.single_initial_item_hash {
            plugs.push(h);
        }
        let ghost single = plugs@;
        append_all(&mut plugs, &entry.reusable_plug_items);
        if let Some(ph) = entry.reusable_plug_set_hash {
            match plug_sets.get(&ph) {
                Some(v) => {
                    append_all(&mut plugs, v);
                },
                None => {
                    return Err(CatalogError::MissingPlugSet);
                },
            }
        }
        if let Some(ph) = entry.randomized_plug_set_hash {
            match plug_sets.get(&ph) {
                Some(v) => {
                    append_all(&mut plugs, v);
                },
                None => {
                    return Err(CatalogError::MissingPlugSet);
                },
            }
        }
        proof {
            assert(spec_socket_plugs(entries@[idx as int], plug_sets@) matches Ok(p) && p
                =~= plugs@);
        }
        if counter <= 4 {
            let slot = PerkSlot::of_index(counter);
            let ghost m0 = map@;
            let mut t: usize = 0;
            while t < plugs.len()
                invariant
                    t <= plugs@.len(),
                    map@ == spec_insert_all(m0, plugs@.take(t as int), slot),
                decreases plugs@.len() - t,
            {
                map.insert(plugs[t], slot);
                proof {
                    assert(plugs@.take(t as int + 1).drop_last() =~= plugs@.take(t as int));
                }
                t += 1;
            }
            proof {
                assert(plugs@.take(plugs@.len() as int) =~= plugs@);
            }
        }
        counter += 1;
        k += 1;
    }
    proof {
        assert(idxs@.skip(k as int) =~= Seq::<usize>::empty());
    }
    Ok(map)
}

/// What `spec_insert_all` does to the table: every perk of `plugs` is tagged
/// with `slot`, and every other key keeps its previous binding.
proof fn lemma_insert_all_props(m: Map<PerkHash, PerkSlot>, plugs: Seq<PerkHash>, slot: PerkSlot)
    ensures
        forall|k: PerkHash| #[trigger]
            spec_insert_all(m, plugs, slot).contains_key(k) <==> (m.contains_key(k)
                || plugs.contains(k)),
        forall|k: PerkHash|
            plugs.contains(k) ==> #[trigger] spec_insert_all(m, plugs, slot)[k] == slot,
        forall|k: PerkHash|
            !plugs.contains(k) && m.contains_key(k) ==> #[trigger] spec_insert_all(
                m,
                plugs,
                slot,
            )[k] == m[k],
    decreases plugs.len(),
{
    if plugs.len() == 0 {
    } else {
        lemma_insert_all_props(m, plugs.drop_last(), slot);
        assert forall|k: PerkHash|
            plugs.contains(k) <==> (plugs.drop_last().contains(k) || k == plugs.last()) by {
            if plugs.contains(k) {
                let i = choose|i: int| 0 <= i < plugs.len() && plugs[i] == k;
                if i < plugs.len() - 1 {
                    assert(plugs.drop_last()[i] == k);
                }
            }
            if plugs.drop_last().contains(k) {
                let i = choose|i: int|
                    0 <= i < plugs.drop_last().len() && plugs.drop_last()[i] == k;
                assert(plugs[i] == k);
            }
            if k == plugs.last() {
                assert(plugs[plugs.len() - 1] == k);
            }
        }
    }
}

/// The walk writes only slots derived from the socket counter, never the
/// query-side `LeftRight` wildcard.
proof fn lemma_walk_no_wildcard(
    indexes: Seq<usize>,
    entries: Seq<SocketEntry>,
    ps: Map<u32, Vec<u32>>,
    counter: nat,
    acc: Map<PerkHash, PerkSlot>,
    m: Map<PerkHash, PerkSlot>,
)
    requires
        spec_walk_sockets(indexes, entries, ps, counter, acc) == Ok::<_, CatalogError>(m),
        forall|k: PerkHash| #[trigger] acc.contains_key(k) ==> acc[k] != PerkSlot::LeftRight,
    ensures
        forall|k: PerkHash| #[trigger] m.contains_key(k) ==> m[k] != PerkSlot::LeftRight,
    decreases indexes.len(),
{
    if indexes.len() == 0 {
    } else {
        let idx = indexes[0];
        let e = entries[idx as int];
        if e.single_initial_item_hash == Some(TRACKER_PERK) {
            lemma_walk_no_wildcard(indexes.drop_first(), entries, ps, counter, acc, m);
        } else {
            let plugs = spec_socket_plugs(e, ps)->Ok_0;
            let acc2 = if counter <= 4 {
                spec_insert_all(acc, plugs, PerkSlot::spec_of_index(counter))
            } else {
                acc
            };
            if counter <= 4 {
                lemma_insert_all_props(acc, plugs, PerkSlot::spec_of_index(counter));
            }
            lemma_walk_no_wildcard(indexes.drop_first(), entries, ps, counter + 1, acc2, m);
        }
    }
}

/// A classified perk table stores only actual slots: `LeftRight` exists on
/// the query side alone and is never a value of the table.
pub proof fn lemma_classified_table_stores_no_wildcard(
    cats: Seq<SocketCategory>,
    entries: Seq<SocketEntry>,
    ps: Map<u32, Vec<u32>>,
    m: Map<PerkHash, PerkSlot>,
)
    requires
        spec_classify(cats, entries, ps) == Ok::<_, CatalogError>(m),
    ensures
        forall|k: PerkHash| #[trigger] m.contains_key(k) ==> m[k] != PerkSlot::LeftRight,
{
    let cat = spec_first_perk_category(cats)->Some_0;
    lemma_walk_no_wildcard(cat.socket_indexes@, entries, ps, 0, Map::empty(), m);
}

/// The tracker identifier occurs in this socket only as its statically
/// assigned perk, if at all: the socket either is a tracker socket, or its
/// resolved perk list avoids the tracker identifier.
pub open spec fn entry_avoids_tracker(e: SocketEntry, ps: Map<u32, Vec<u32>>) -> bool {
    e.single_initial_item_hash == Some(TRACKER_PERK) || (spec_socket_plugs(e, ps) matches Ok(plugs)
        ==> !plugs.contains(TRACKER_PERK))
}

/// The walk never writes the tracker identifier, provided no non-tracker
/// socket's perk list holds it.
proof fn lemma_walk_no_tracker(
    indexes: Seq<usize>,
    entries: Seq<SocketEntry>,
    ps: Map<u32, Vec<u32>>,
    counter: nat,
    acc: Map<PerkHash, PerkSlot>,
    m: Map<PerkHash, PerkSlot>,
)
    requires
        spec_walk_sockets(indexes, entries, ps, counter, acc) == Ok::<_, CatalogError>(m),
        !acc.contains_key(TRACKER_PERK),
        forall|i: int| 0 <= i < entries.len() ==> entry_avoids_tracker(#[trigger] entries[i], ps),
    ensures
        !m.contains_key(TRACKER_PERK),
    decreases indexes.len(),
{
    if indexes.len() == 0 {
    } else {
        let idx = indexes[0];
        let e = entries[idx as int];
        if e.single_initial_item_hash == Some(TRACKER_PERK) {
            lemma_walk_no_tracker(indexes.drop_first(), entries, ps, counter, acc, m);
        } else {
            let plugs = spec_socket_plugs(e, ps)->Ok_0;
            assert(entry_avoids_tracker(e, ps));
            let acc2 = if counter <= 4 {
                spec_insert_all(acc, plugs, PerkSlot::spec_of_index(counter))
            } else {
                acc
            };
            if counter <= 4 {
                lemma_insert_all_props(acc, plugs, PerkSlot::spec_of_index(counter));
            }
            lemma_walk_no_tracker(indexes.drop_first(), entries, ps, counter + 1, acc2, m);
        }
    }
}

/// Sockets tagged with the reserved tracker identifier never contribute a
/// key to a classified table: whenever the tracker identifier occurs only as
/// the statically assigned perk of tracker sockets, it is absent from the
/// table.
pub proof fn lemma_tracker_never_classified(
    cats: Seq<SocketCategory>,
    entries: Seq<SocketEntry>,
    ps: Map<u32, Vec<u32>>,
    m: Map<PerkHash, PerkSlot>,
)
    requires
        spec_classify(cats, entries, ps) == Ok::<_, CatalogError>(m),
        forall|i: int| 0 <= i < entries.len() ==> entry_avoids_tracker(#[trigger] entries[i], ps),
    ensures
        !m.contains_key(TRACKER_PERK),
{
    let cat = spec_first_perk_category(cats)->Some_0;
    lemma_walk_no_tracker(cat.socket_indexes@, entries, ps, 0, Map::empty(), m);
}

/// Classification is deterministic: the perk table is a function of the
/// socket graph and the shared perk sets alone, so re-running it on an
/// unchanged raw item yields an identical table.
pub proof fn lemma_classification_deterministic(
    cats: Seq<SocketCategory>,
    entries: Seq<SocketEntry>,
    ps: Map<u32, Vec<u32>>,
    m1: PerkMap,
    m2: PerkMap,
)
    requires
        spec_classify(cats, entries, ps) == Ok::<_, CatalogError>(m1@),
        spec_classify(cats, entries, ps) == Ok::<_, CatalogError>(m2@),
    ensures
        m1@ == m2@,
{
}

/// The socket graph of one raw catalog item, keyed by the item's identity.
pub struct RawWeaponSockets {
    pub hash: WeaponHash,
    pub socket_categories: Vec<SocketCategory>,
    pub socket_entries: Vec<SocketEntry>,
}

/// The mathematical values of a whole-catalog perk table.
pub open spec fn gun_views(m: Map<WeaponHash, PerkMap>) -> Map<WeaponHash, Map<PerkHash, PerkSlot>> {
    m.map_values(|pm: PerkMap| pm@)
}

/// The perk tables of a whole raw catalog, or the first load-time error, in
/// catalog order.
pub open spec fn spec_classify_all(
    raws: Seq<RawWeaponSockets>,
    plug_sets: Map<u32, Vec<u32>>,
) -> Result<Map<WeaponHash, Map<PerkHash, PerkSlot>>, CatalogError>
    decreases raws.len(),
{
    if raws.len() == 0 {
        Ok(Map::empty())
    } else {
        match spec_classify_all(raws.drop_last(), plug_sets) {
            Err(e) => Err(e),
            Ok(acc) => match spec_classify(
                raws.last().socket_categories@,
                raws.last().socket_entries@,
                plug_sets,
            ) {
                Err(e) => Err(e),
                Ok(t) => Ok(acc.insert(raws.last().hash, t)),
            },
        }
    }
}

/// An unresolvable item refuses the whole catalog with its error, provided
/// every item before it resolved.
proof fn lemma_classify_all_err(
    raws: Seq<RawWeaponSockets>,
    plug_sets: Map<u32, Vec<u32>>,
    i: int,
    e: CatalogError,
)
    requires
        0 <= i < raws.len(),
        spec_classify_all(raws.take(i), plug_sets) is Ok,
        spec_classify(raws[i].socket_categories@, raws[i].socket_entries@, plug_sets) == Err::<
            Map<PerkHash, PerkSlot>,
            _,
        >(e),
    ensures
        spec_classify_all(raws, plug_sets) == Err::<
            Map<WeaponHash, Map<PerkHash, PerkSlot>>,
            _,
        >(e),
    decreases raws.len(),
{
    if i == raws.len() - 1 {
        assert(raws.take(i) =~= raws.drop_last());
    } else {
        assert(raws.drop_last().take(i) =~= raws.take(i));
        lemma_classify_all_err(raws.drop_last(), plug_sets, i, e);
    }
}

/// Classify every raw item of a catalog, producing the whole-catalog perk
/// table. The first item whose socket graph cannot be resolved aborts the
/// load.
pub fn classify_all(raws: &Vec<RawWeaponSockets>, plug_sets: &PlugSetMap) -> (r: Result<
    GunPerkMap,
    CatalogError,
>)
    ensures
        (match r {
            Ok(g) => spec_classify_all(raws@, plug_sets@) == Ok::<_, CatalogError>(gun_views(g@)),
            Err(e) => spec_classify_all(raws@, plug_sets@) == Err::<
                Map<WeaponHash, Map<PerkHash, PerkSlot>>,
                _,
            >(e),
        }),
{
    let mut out: GunPerkMap = HashMap::new();
    let mut i: usize = 0;
    proof {
        assert(gun_views(out@) =~= Map::<WeaponHash, Map<PerkHash, PerkSlot>>::empty());
    }
    while i < raws.len()
        invariant
            i <= raws@.len(),
            spec_classify_all(raws@.take(i as int), plug_sets@) == Ok::<_, CatalogError>(
                gun_views(out@),
            ),
        decreases raws@.len() - i,
    {
        let raw = &raws[i];
        proof {
            assert(raws@.take(i as int + 1).drop_last() =~= raws@.take(i as int));
            assert(raws@.take(i as int + 1).last() == raws@[i as int]);
        }
        match classify_perks(&raw.socket_categories, &raw.socket_entries, plug_sets) {
            Ok(table) => {
                let ghost prev = out@;
                out.insert(raw.hash, table);
                proof {
                    assert(gun_views(out@) =~= gun_views(prev).insert(raws@[i as int].hash, table@));
                }
            },
            Err(e) => {
                proof {
                    lemma_classify_all_err(raws@, plug_sets@, i as int, e);
                }
                return Err(e);
            },
        }
        i += 1;
    }
    proof {
        assert(raws@.take(i as int) =~= raws@);
    }
    Ok(out)
}

} // verus!
