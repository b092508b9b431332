//! World state: terrain resources, the global tick, and the zones indexed
//! by their identifier.

use vstd::prelude::*;
use vstd::hash_map::StringHashMap;
use vstd::string::StringExecFns;
use vstd::string::StringSliceAdditionalSpecFns;
use crate::game::zone::Zone;

verus! {

/// The seed hash over a byte sequence: a 31-based polynomial hash with
/// wrapping arithmetic.
pub open spec fn spec_hash_bytes(s: Seq<u8>) -> u64
    decreases s.len(),
{
    if s.len() == 0 {
        0u64
    } else {
        vstd::wrapping::u64_specs::wrapping_add(
            vstd::wrapping::u64_specs::wrapping_mul(spec_hash_bytes(s.drop_last()), 31u64),
            s.last() as u64,
        )
    }
}

/// The seed hash of a string: the byte hash of its UTF-8 encoding.
pub open spec fn spec_hash_of(s: Seq<char>) -> u64 {
    spec_hash_bytes(vstd::utf8::encode_utf8(s))
}

/// A terrain feature holding a resource.
pub struct Terrain {
    id: u32,
    name: String,
    resource_type: ResourceType,
    resource_amount: u32,
}

/// Kind of resource a terrain yields.
#[derive(PartialEq, Eq, Structural)]
pub enum ResourceType {
    Wood,
    Stone,
    Gold,
}

/// Total amount of a given resource over a sequence of terrains.
spec fn sum_amounts(s: Seq<Terrain>, rt: ResourceType) -> int
    decreases s.len(),
{
    if s.len() == 0 {
        0
    } else {
        sum_amounts(s.drop_last(), rt) + if s.last().resource_type == rt {
            s.last().resource_amount as int
        } else {
            0int
        }
    }
}

/// The names of a sequence of strings, as character sequences.
pub open spec fn names_of(v: Seq<String>) -> Seq<Seq<char>> {
    v.map_values(|s: String| s@)
}

/// The game world.
pub struct World {
    width: u32,
    height: u32,
    terrains: Vec<Terrain>,
    tick: u64,
    /// Zones by zone id, with the ids also kept as a list for enumeration.
    zones: StringHashMap<Zone>,
    zone_ids: Vec<String>,
}

impl World {
    /// The current tick.
    pub closed spec fn spec_tick(&self) -> u64 {
        self.tick
    }

    /// The zones, as a map from id to zone.
    pub closed spec fn spec_zones(&self) -> Map<Seq<char>, Zone> {
        self.zones@
    }

    /// The id list mirrors the zone map: no duplicates, and the same ids.
    pub closed spec fn wf(&self) -> bool {
        &&& names_of(self.zone_ids@).no_duplicates()
        &&& forall|i: int|
            0 <= i < self.zone_ids@.len() ==> self.zones@.contains_key(
                names_of(self.zone_ids@)[i],
            )
        &&& forall|k: Seq<char>|
            self.zones@.contains_key(k) ==> names_of(self.zone_ids@).contains(k)
        &&& forall|k: Seq<char>| #[trigger]
            self.zones@.contains_key(k) ==> self.zones@[k].wf() && self.zones@[k].id@ == k
    }

    /// Create an empty world.
    pub fn new() -> (r: Self)
        ensures
            r.wf(),
            r.spec_tick() == 0,
            r.spec_zones() == Map::<Seq<char>, Zone>::empty(),
    {
        World {
            width: 100,
            height: 100,
            terrains: Vec::new(),
            tick: 0,
            zones: StringHashMap::new(),
            zone_ids: Vec::new(),
        }
    }

    /// The current tick.
    pub fn get_tick(&self) -> (r: u64)
        ensures
            r == self.spec_tick(),
    {
        self.tick
    }

    fn add_terrain(&mut self, terrain: Terrain)
        ensures
            final(self).terrains@ == old(self).terrains@.push(terrain),
            final(self).tick == old(self).tick,
            final(self).zones@ == old(self).zones@,
            final(self).zone_ids@ == old(self).zone_ids@,
    {
        self.terrains.push(terrain);
    }

    fn get_terrain(&self, id: u32) -> (r: Option<&Terrain>)
        ensures
            match r {
                Some(t) => t.id == id && self.terrains@.contains(*t),
                None => forall|i: int|
                    0 <= i < self.terrains@.len() ==> (#[trigger] self.terrains@[i]).id != id,
            },
    {
        let n = self.terrains.len();
        for i in 0..n
            invariant
                n == self.terrains@.len(),
                forall|j: int| 0 <= j < i ==> (#[trigger] self.terrains@[j]).id != id,
        {
            if self.terrains[i].id == id {
                return Some(&self.terrains[i]);
            }
        }
        None
    }

    fn resource_count(&self, resource_type: ResourceType) -> (r: u32)
        requires
            sum_amounts(self.terrains@, resource_type) <= u32::MAX,
        ensures
            r == sum_amounts(self.terrains@, resource_type),
    {
        let mut total: u32 = 0;
        let n = self.terrains.len();
        for i in 0..n
            invariant
                n == self.terrains@.len(),
                sum_amounts(self.terrains@, resource_type) <= u32::MAX,
                total == sum_amounts(self.terrains@.take(i as int), resource_type),
        {
            proof {
                assert(self.terrains@.take(i + 1).drop_last() =~= self.terrains@.take(i as int));
                assert(self.terrains@.take(i + 1).last() == self.terrains@[i as int]);
                sum_amounts_take_bound(self.terrains@, resource_type, i + 1);
            }
            if self.terrains[i].resource_type == resource_type {
                total = total + self.terrains[i].resource_amount;
            }
        }
        proof {
            assert(self.terrains@.take(n as int) =~= self.terrains@);
        }
        total
    }

    /// Add a zone to the world, replacing any zone with the same id.
    pub fn add_zone(&mut self, zone: Zone)
        requires
            old(self).wf(),
            zone.wf(),
        ensures
            final(self).wf(),
            final(self).spec_zones() == old(self).spec_zones().insert(zone.id@, zone),
            final(self).spec_tick() == old(self).spec_tick(),
    {
        let ghost zid = zone.id@;
        let ghost oldnames = names_of(old(self).zone_ids@);
        if !self.zones.contains_key(zone.id.as_str()) {
            self.zone_ids.push(zone.id.clone());
            proof {
                assert(names_of(self.zone_ids@) =~= oldnames.push(zid));
                assert forall|x: int| 0 <= x < oldnames.len() implies oldnames[x] != zid by {
                    assert(old(self).zones@.contains_key(oldnames[x]));
                }
                assert forall|i: int, j: int|
                    0 <= i < j < names_of(self.zone_ids@).len() implies names_of(
                    self.zone_ids@,
                )[i] != names_of(self.zone_ids@)[j] by {
                    if j < oldnames.len() {
                        assert(oldnames.no_duplicates());
                    }
                }
            }
        }
        let key = zone.id.clone();
        self.zones.insert(key, zone);
        proof {
            let names = names_of(self.zone_ids@);
            assert forall|i: int|
                0 <= i < self.zone_ids@.len() implies self.zones@.contains_key(
                #[trigger] names[i],
            ) by {
                if i < oldnames.len() {
                    assert(old(self).zones@.contains_key(oldnames[i]) || names[i] == zid);
                }
            }
            assert forall|kk: Seq<char>|
                self.zones@.contains_key(kk) implies names.contains(kk) by {
                if kk == zid {
                    if old(self).zones@.contains_key(zid) {
                        assert(oldnames.contains(zid));
                        let w = choose|x: int| 0 <= x < oldnames.len() && oldnames[x] == zid;
                        assert(names[w] == zid);
                    } else {
                        assert(names[names.len() - 1] == zid);
                    }
                } else {
                    assert(old(self).zones@.contains_key(kk));
                    let w = choose|x: int| 0 <= x < oldnames.len() && oldnames[x] == kk;
                    assert(names[w] == kk);
                }
            }
        }
    }

    /// Get a zone by id.
    pub fn get_zone(&self, zone_id: &str) -> (r: Option<&Zone>)
        ensures
            match r {
                Some(z) => self.spec_zones().contains_key(zone_id@) && *z == self.spec_zones()[
                    zone_id@
                ],
                None => !self.spec_zones().contains_key(zone_id@),
            },
    {
        self.zones.get(zone_id)
    }

    /// All zone ids.
    pub fn get_zone_ids(&self) -> (r: Vec<String>)
        requires
            self.wf(),
        ensures
            names_of(r@).no_duplicates(),
            forall|i: int|
                0 <= i < r@.len() ==> self.spec_zones().contains_key(names_of(r@)[i]),
            forall|k: Seq<char>| self.spec_zones().contains_key(k) ==> names_of(r@).contains(k),
    {
        let mut out: Vec<String> = Vec::new();
        let n = self.zone_ids.len();
        for i in 0..n
            invariant
                n == self.zone_ids@.len(),
                out@.len() == i,
                forall|j: int| 0 <= j < i ==> names_of(out@)[j] == names_of(self.zone_ids@)[j],
        {
            let ghost prev = out@;
            out.push(self.zone_ids[i].clone());
            proof {
                assert(names_of(out@) =~= names_of(prev).push(self.zone_ids@[i as int]@));
            }
        }
        proof {
            assert(names_of(out@) =~= names_of(self.zone_ids@));
        }
        out
    }

    /// Generate and add a new zone for a player; the zone id is derived
    /// from the player id and the landscape from a hash of the zone id.
    pub fn generate_player_zone(&mut self, player_id: &str) -> (r: String)
        requires
            old(self).wf(),
        ensures
            final(self).wf(),
            r@ == "player_"@ + player_id@ + "_zone"@,
            final(self).spec_zones() == old(self).spec_zones().insert(
                r@,
                final(self).spec_zones()[r@],
            ),
            final(self).spec_zones().contains_key(r@),
            final(self).spec_zones()[r@].wf(),
            final(self).spec_zones()[r@].id@ == r@,
            final(self).spec_zones()[r@].generated_from(spec_hash_of(r@)),
    {
        let mut zone_id: String = "player_".to_owned();
        zone_id.append(player_id);
        zone_id.append("_zone");

        // Use a hash of the zone id as seed for deterministic generation.
        let seed = Self::hash_string(zone_id.as_str());

        let zone = Zone::generate(zone_id.clone(), seed);
        self.add_zone(zone);

        zone_id
    }

    /// Simple string hash used as the zone generation seed.
    fn hash_string(s: &str) -> (h: u64)
        ensures
            h == spec_hash_of(s@),
    {
        let bytes = s.as_bytes();
        let mut hash: u64 = 0;
        let n = bytes.len();
        for i in 0..n
            invariant
                n == bytes@.len(),
                bytes@ == s.spec_bytes(),
                hash == spec_hash_bytes(bytes@.take(i as int)),
        {
            proof {
                assert(bytes@.take(i + 1).drop_last() =~= bytes@.take(i as int));
                assert(bytes@.take(i + 1).last() == bytes@[i as int]);
            }
            hash = hash.wrapping_mul(31u64).wrapping_add(bytes[i] as u64);
        }
        proof {
            assert(bytes@.take(n as int) =~= bytes@);
        }
        hash
    }
}

/// Partial sums of resource amounts never exceed the total.
proof fn sum_amounts_take_bound(s: Seq<Terrain>, rt: ResourceType, i: int)
    requires
        0 <= i <= s.len(),
    ensures
        sum_amounts(s.take(i), rt) <= sum_amounts(s, rt),
        sum_amounts(s.take(i), rt) >= 0,
    decreases s.len() - i,
{
    sum_amounts_nonneg(s.take(i), rt);
    if i == s.len() {
        assert(s.take(i) =~= s);
    } else {
        sum_amounts_take_bound(s, rt, i + 1);
        assert(s.take(i + 1).drop_last() =~= s.take(i));
    }
}

/// Resource sums are nonnegative.
proof fn sum_amounts_nonneg(s: Seq<Terrain>, rt: ResourceType)
    ensures
        sum_amounts(s, rt) >= 0,
    decreases s.len(),
{
    if s.len() > 0 {
        sum_amounts_nonneg(s.drop_last(), rt);
    }
}

} // verus!
