//! Hitpoint tracking. Health records follow the engine's component-store
//! pattern: a dense record array plus a sparse map from raw entity handle to
//! dense index, compacted by swap-removal. The per-frame `update` pass clamps
//! overhealed records down to their maximum and destroys entities whose
//! hitpoints have reached zero — the only place health removes entities from
//! the manager.

use vstd::prelude::*;

use std::collections::HashMap;

use crate::entity::index_of;
use crate::entity::Entity;
use crate::entity::EntityManager;
use crate::entity::lemma_alive_same_index_same_handle;
use crate::fixed::fx_add;
use crate::fixed::fx_sub;
use crate::fixed::spec_fx_add;
use crate::fixed::spec_fx_sub;
use crate::fixed::FX_ONE;
use crate::fnv_map::map_contains;
use crate::fnv_map::map_get;
use crate::fnv_map::map_insert;
use crate::fnv_map::map_remove;
use crate::fnv_map::new_index_map;

verus! {

/// One entity's hitpoints: the current and the maximum value.
#[derive(Clone, Copy, Debug)]
pub struct HealthData {
    pub owner: Entity,
    pub hitpoints: (i64, i64),
}

/// Configuration for a new health record; every field is optional and
/// resolved to its default when the record is built.
pub struct HealthBuilder {
    hitpoints: Option<(i64, i64)>,
}

/// The record a builder resolves to: configured hitpoints, or one full point
/// of current and maximum health.
pub open spec fn spec_build(b: HealthBuilder, owner: Entity) -> HealthData {
    HealthData {
        owner,
        hitpoints: match b.spec_hitpoints() {
            Some(hp) => hp,
            None => (FX_ONE, FX_ONE),
        },
    }
}

impl HealthBuilder {
    /// The configured hitpoints, if any.
    pub closed spec fn spec_hitpoints(&self) -> Option<(i64, i64)> {
        self.hitpoints
    }

    /// A builder with every field left to its default.
    pub fn new() -> (r: HealthBuilder)
        ensures
            r.spec_hitpoints() is None,
    {
        HealthBuilder { hitpoints: None }
    }

    /// Configures the (current, maximum) hitpoints.
    pub fn with_hitpoints(self, hitpoints: (i64, i64)) -> (r: HealthBuilder)
        ensures
            r.spec_hitpoints() == Some(hitpoints),
    {
        HealthBuilder { hitpoints: Some(hitpoints) }
    }

    /// Resolves the builder against its defaults.
    fn build(self, owner: Entity) -> (r: HealthData)
        ensures
            r == spec_build(self, owner),
    {
        HealthData {
            owner,
            hitpoints: match self.hitpoints {
                Some(hp) => hp,
                None => (FX_ONE, FX_ONE),
            },
        }
    }
}

/// A record whose current hitpoints exceed the maximum is clamped down to it
/// by the update pass; otherwise it is left as it is.
pub open spec fn spec_clamped(rec: HealthData) -> HealthData {
    if rec.hitpoints.0 > rec.hitpoints.1 {
        HealthData { owner: rec.owner, hitpoints: (rec.hitpoints.1, rec.hitpoints.1) }
    } else {
        rec
    }
}

/// Whether the update pass destroys the record's owner: current hitpoints at
/// or below zero (and not in the overheal branch, which is checked first).
pub open spec fn spec_dying(rec: HealthData) -> bool {
    !(rec.hitpoints.0 > rec.hitpoints.1) && rec.hitpoints.0 <= 0
}

/// The record array after one harm call on the given key: the current
/// hitpoints of the key's record drop by the amount (saturating); a null or
/// unmapped key changes nothing.
pub open spec fn spec_after_harm(
    records: Seq<HealthData>,
    m: Map<u32, usize>,
    k: u32,
    amount: int,
) -> Seq<HealthData> {
    if k != 0 && m.contains_key(k) {
        records.update(
            m[k] as int,
            HealthData {
                owner: records[m[k] as int].owner,
                hitpoints: (
                    spec_fx_sub(records[m[k] as int].hitpoints.0 as int, amount) as i64,
                    records[m[k] as int].hitpoints.1,
                ),
            },
        )
    } else {
        records
    }
}

/// The record array after one kill call on the given key: the current
/// hitpoints of the key's record drop to the minimum representable value; a
/// null or unmapped key changes nothing.
pub open spec fn spec_after_kill(records: Seq<HealthData>, m: Map<u32, usize>, k: u32) -> Seq<
    HealthData,
> {
    if k != 0 && m.contains_key(k) {
        records.update(
            m[k] as int,
            HealthData {
                owner: records[m[k] as int].owner,
                hitpoints: (i64::MIN, records[m[k] as int].hitpoints.1),
            },
        )
    } else {
        records
    }
}

/// The health component store.
pub struct HealthSystem {
    map: HashMap<u32, usize, fnv::FnvBuildHasher>,
    data: Vec<HealthData>,
}

impl HealthSystem {
    /// The sparse side: raw entity handle to dense index.
    pub closed spec fn idx_map(&self) -> Map<u32, usize> {
        self.map@
    }

    /// The dense record array.
    pub closed spec fn records(&self) -> Seq<HealthData> {
        self.data@
    }

    /// Well-formedness: map and array describe each other — every mapped
    /// handle names a record owned by it, and every record's owner maps back
    /// to the record's slot.
    pub open spec fn inv(&self) -> bool {
        &&& forall|k: u32| #[trigger]
            self.idx_map().contains_key(k) ==> self.idx_map()[k] < self.records().len()
                && self.records()[self.idx_map()[k] as int].owner@ == k
        &&& forall|i: int|
            0 <= i < self.records().len() ==> self.idx_map().contains_key(
                #[trigger] self.records()[i].owner@,
            ) && self.idx_map()[self.records()[i].owner@] as int == i
        &&& forall|i: int| 0 <= i < self.records().len() ==> (#[trigger] self.records()[i]).owner@ != 0
    }

    /// Whether the entity has a health record.
    pub open spec fn spec_has(&self, e: Entity) -> bool {
        self.idx_map().contains_key(e@)
    }

    /// The record attached to an entity.
    pub open spec fn spec_record_of(&self, e: Entity) -> HealthData {
        self.records()[self.idx_map()[e@] as int]
    }

    /// An empty store.
    pub fn new() -> (r: HealthSystem)
        ensures
            r.inv(),
            r.records() =~= Seq::<HealthData>::empty(),
            r.idx_map() =~= Map::<u32, usize>::empty(),
    {
        let s = HealthSystem { map: new_index_map(), data: Vec::new() };
        proof {
            assert(s.idx_map() =~= Map::<u32, usize>::empty());
        }
        s
    }

    /// Whether the entity has a health record.
    pub fn entity_has_health(&self, entity: &Entity) -> (r: bool)
        requires
            self.inv(),
        ensures
            r == self.spec_has(*entity),
    {
        let k: u32 = entity.raw();
        map_contains(&self.map, k)
    }

    /// The entity's dense slot, when it has a record.
    fn lookup(&self, entity: &Entity) -> (r: Option<usize>)
        requires
            self.inv(),
        ensures
            r == if self.spec_has(*entity) {
                Some(self.idx_map()[entity@])
            } else {
                None::<usize>
            },
            r is Some ==> self.idx_map()[entity@] < self.records().len(),
    {
        let k: u32 = entity.raw();
        let r = map_get(&self.map, k);
        proof {
            if r is Some {
                assert(self.idx_map().contains_key(entity@));
            }
        }
        r
    }

    /// The entity's (current, maximum) hitpoints, when it has a record — the
    /// observable side of the store, for callers and tests.
    pub fn get_hitpoints(&self, entity: &Entity) -> (r: Option<(i64, i64)>)
        requires
            self.inv(),
        ensures
            r == if self.spec_has(*entity) {
                Some(self.spec_record_of(*entity).hitpoints)
            } else {
                None::<(i64, i64)>
            },
    {
        match self.lookup(entity) {
            Some(index) => Some(self.data[index].hitpoints),
            None => None,
        }
    }

    /// Attaches a health record built from the builder. A null entity, or
    /// one that already has health, is ignored.
    pub fn add_health_to_entity(&mut self, entity: &Entity, initial_health: HealthBuilder)
        requires
            old(self).inv(),
        ensures
            final(self).inv(),
            if entity@ == 0 || old(self).spec_has(*entity) {
                &&& final(self).records() =~= old(self).records()
                &&& final(self).idx_map() =~= old(self).idx_map()
            } else {
                &&& final(self).records() =~= old(self).records().push(
                    spec_build(initial_health, *entity),
                )
                &&& final(self).idx_map() =~= old(self).idx_map().insert(
                    entity@,
                    old(self).records().len() as usize,
                )
            },
    {
        let nul = Entity::null();
        proof {
            Entity::lemma_view_injective(*entity, nul);
        }
        if *entity != nul {
            if self.entity_has_health(entity) {
                // a second attach attempt is a designed no-op
            } else {
                self.data.push(initial_health.build(*entity));
                let k: u32 = entity.raw();
                let slot: usize = self.data.len() - 1;
                map_insert(&mut self.map, k, slot);
            }
        }
    }

    /// Detaches the entity's health record by swapping the last record into
    /// its slot and repairing the moved record's map entry. A null or absent
    /// entity is ignored; every other entity keeps its record.
    pub fn remove_health_from_entity(&mut self, entity: &Entity)
        requires
            old(self).inv(),
        ensures
            final(self).inv(),
            !final(self).spec_has(*entity),
            forall|k2: u32|
                k2 != entity@ && #[trigger] old(self).idx_map().contains_key(k2) ==> (
                final(self).idx_map().contains_key(k2)
                    && final(self).records()[final(self).idx_map()[k2] as int]
                    == old(self).records()[old(self).idx_map()[k2] as int]),
            forall|k2: u32| #[trigger]
                final(self).idx_map().contains_key(k2) ==> old(self).idx_map().contains_key(k2),
            if entity@ == 0 || !old(self).spec_has(*entity) {
                &&& final(self).records() =~= old(self).records()
                &&& final(self).idx_map() =~= old(self).idx_map()
            } else {
                final(self).records().len() == old(self).records().len() - 1
            },
    {
        let nul = Entity::null();
        proof {
            Entity::lemma_view_injective(*entity, nul);
        }
        let mut swapped: (bool, usize) = (false, 0);
        let mut removed = false;

        if *entity != nul {
            let found: Option<usize> = self.lookup(entity);
            match found {
                Some(index) => {
                    self.data.swap_remove(index);
                    removed = true;
                    if self.data.len() > 0 {
                        swapped = (true, index);
                    }
                },
                None => (),
            }
        }

        if removed == true {
            let k: u32 = entity.raw();
            map_remove(&mut self.map, k);
        }

        if swapped.0 == true && swapped.1 != self.data.len() {
            let moved_owner: u32 = self.data[swapped.1].owner.raw();
            map_insert(&mut self.map, moved_owner, swapped.1);
        }

        proof {
            if entity@ != 0 && old(self).spec_has(*entity) {
                let m0 = old(self).idx_map();
                let d0 = old(self).records();
                let i = m0[entity@] as int;
                let n = d0.len() as int;
                assert forall|k2: u32| #[trigger]
                    self.idx_map().contains_key(k2) implies self.idx_map()[k2]
                    < self.records().len() && self.records()[self.idx_map()[k2] as int].owner@
                    == k2 by {
                    if i < n - 1 && k2 == d0[n - 1].owner@ {
                    } else {
                        assert(m0.contains_key(k2) && m0[k2] as int != i);
                        assert(d0[m0[k2] as int].owner@ == k2);
                    }
                }
                assert forall|j: int|
                    0 <= j < self.records().len() implies self.idx_map().contains_key(
                    #[trigger] self.records()[j].owner@,
                ) && self.idx_map()[self.records()[j].owner@] as int == j by {
                    if i < n - 1 && j == i {
                    } else {
                        assert(self.records()[j] == d0[j]);
                        assert(m0.contains_key(d0[j].owner@) && m0[d0[j].owner@] as int == j);
                        assert(d0[j].owner@ != entity@);
                    }
                }
            }
        }
    }

    /// Adds to the entity's current hitpoints, saturating; null or absent
    /// entities are ignored. The maximum is untouched, so overhealing shows
    /// until the next update pass clamps it.
    pub fn heal(&mut self, entity: &Entity, amount: i64)
        requires
            old(self).inv(),
        ensures
            final(self).inv(),
            final(self).idx_map() == old(self).idx_map(),
            if entity@ != 0 && old(self).spec_has(*entity) {
                final(self).records() =~= old(self).records().update(
                    old(self).idx_map()[entity@] as int,
                    HealthData {
                        owner: old(self).spec_record_of(*entity).owner,
                        hitpoints: (
                            spec_fx_add(
                                old(self).spec_record_of(*entity).hitpoints.0 as int,
                                amount as int,
                            ) as i64,
                            old(self).spec_record_of(*entity).hitpoints.1,
                        ),
                    },
                )
            } else {
                final(self).records() =~= old(self).records()
            },
    {
        let nul = Entity::null();
        proof {
            Entity::lemma_view_injective(*entity, nul);
        }
        if *entity != nul {
            let found: Option<usize> = self.lookup(entity);
            match found {
                Some(index) => {
                    let mut rec = self.data[index];
                    rec.hitpoints.0 = fx_add(rec.hitpoints.0, amount);
                    self.data[index] = rec;
                },
                None => (),
            }
        }
    }

    /// Subtracts from the entity's current hitpoints, saturating; null or
    /// absent entities are ignored. The entity is not destroyed here, even at
    /// zero or below: destruction happens on the next update pass.
    pub fn harm(&mut self, entity: &Entity, amount: i64)
        requires
            old(self).inv(),
        ensures
            final(self).inv(),
            final(self).idx_map() == old(self).idx_map(),
            if entity@ != 0 && old(self).spec_has(*entity) {
                final(self).records() =~= old(self).records().update(
                    old(self).idx_map()[entity@] as int,
                    HealthData {
                        owner: old(self).spec_record_of(*entity).owner,
                        hitpoints: (
                            spec_fx_sub(
                                old(self).spec_record_of(*entity).hitpoints.0 as int,
                                amount as int,
                            ) as i64,
                            old(self).spec_record_of(*entity).hitpoints.1,
                        ),
                    },
                )
            } else {
                final(self).records() =~= old(self).records()
            },
    {
        let nul = Entity::null();
        proof {
            Entity::lemma_view_injective(*entity, nul);
        }
        if *entity != nul {
            let found: Option<usize> = self.lookup(entity);
            match found {
                Some(index) => {
                    let mut rec = self.data[index];
                    rec.hitpoints.0 = fx_sub(rec.hitpoints.0, amount);
                    self.data[index] = rec;
                },
                None => (),
            }
        }
    }

    /// Drops the entity's current hitpoints to the minimum representable
    /// value, which forces destruction on the next update pass. Null or
    /// absent entities are ignored.
    pub fn kill_entity(&mut self, entity: &Entity)
        requires
            old(self).inv(),
        ensures
            final(self).inv(),
            final(self).idx_map() == old(self).idx_map(),
            if entity@ != 0 && old(self).spec_has(*entity) {
                final(self).records() =~= old(self).records().update(
                    old(self).idx_map()[entity@] as int,
                    HealthData {
                        owner: old(self).spec_record_of(*entity).owner,
                        hitpoints: (i64::MIN, old(self).spec_record_of(*entity).hitpoints.1),
                    },
                )
            } else {
                final(self).records() =~= old(self).records()
            },
    {
        let nul = Entity::null();
        proof {
            Entity::lemma_view_injective(*entity, nul);
        }
        if *entity != nul {
            let found: Option<usize> = self.lookup(entity);
            match found {
                Some(index) => {
                    let mut rec = self.data[index];
                    rec.hitpoints.0 = i64::MIN;
                    self.data[index] = rec;
                },
                None => (),
            }
        }
    }

    /// The per-frame pass: clamps every overhealed record down to its
    /// maximum, and destroys the owner of every record whose current
    /// hitpoints are at or below zero. When every dying owner is alive
    /// beforehand, each of them is dead afterwards; slots of the manager
    /// where no record dies keep their generation.
    pub fn update(&mut self, entity_manager: &mut EntityManager)
        requires
            old(self).inv(),
            old(entity_manager).inv(),
            forall|i: int|
                0 <= i < old(self).records().len() ==> index_of(
                    (#[trigger] old(self).records()[i]).owner@,
                ) < old(entity_manager).gens().len(),
        ensures
            final(self).inv(),
            final(entity_manager).inv(),
            final(self).idx_map() == old(self).idx_map(),
            final(self).records().len() == old(self).records().len(),
            forall|i: int|
                0 <= i < old(self).records().len() ==> final(self).records()[i] == spec_clamped(
                    #[trigger] old(self).records()[i],
                ),
            final(entity_manager).gens().len() == old(entity_manager).gens().len(),
            final(entity_manager).actives() =~= old(entity_manager).actives(),
            forall|idx: int|
                0 <= idx < old(entity_manager).gens().len() && !(exists|i: int|
                    0 <= i < old(self).records().len() && spec_dying(
                        #[trigger] old(self).records()[i],
                    ) && index_of(old(self).records()[i].owner@) == idx)
                    ==> final(entity_manager).gens()[idx] == old(entity_manager).gens()[idx],
            (forall|i: int|
                0 <= i < old(self).records().len() && spec_dying(#[trigger] old(self).records()[i])
                    ==> old(entity_manager).spec_alive(old(self).records()[i].owner)) ==> (forall|i: int|

                0 <= i < old(self).records().len() && spec_dying(#[trigger] old(self).records()[i])
                    ==> !final(entity_manager).spec_alive(old(self).records()[i].owner)),
    {
        let ghost d0 = old(self).records();
        let ghost em0 = *old(entity_manager);
        let n = self.data.len();
        for p in 0..n
            invariant
                self.inv(),
                entity_manager.inv(),
                n == d0.len(),
                self.idx_map() == old(self).idx_map(),
                self.records().len() == d0.len(),
                forall|i: int| 0 <= i < p ==> self.records()[i] == spec_clamped(#[trigger] d0[i]),
                forall|i: int| p <= i < n ==> self.records()[i] == #[trigger] d0[i],
                forall|i: int|
                    0 <= i < n ==> index_of((#[trigger] d0[i]).owner@) < em0.gens().len(),
                entity_manager.gens().len() == em0.gens().len(),
                entity_manager.actives() =~= em0.actives(),
                forall|idx: int|
                    0 <= idx < em0.gens().len() && !(exists|i: int|
                        0 <= i < p && spec_dying(#[trigger] d0[i]) && index_of(d0[i].owner@) == idx)
                        ==> entity_manager.gens()[idx] == em0.gens()[idx],
                (forall|i: int|
                    0 <= i < n && spec_dying(#[trigger] d0[i]) ==> em0.spec_alive(d0[i].owner))
                    ==> (forall|i: int|
                    0 <= i < p && spec_dying(#[trigger] d0[i]) ==> !entity_manager.spec_alive(
                        d0[i].owner,
                    )),
        {
            let rec = self.data[p];
            proof {
                assert(rec == d0[p as int]);
            }
            if rec.hitpoints.0 > rec.hitpoints.1 {
                let mut rec2 = rec;
                rec2.hitpoints.0 = rec.hitpoints.1;
                self.data[p] = rec2;
                proof {
                    assert(!spec_dying(d0[p as int]));
                    assert(self.records()[p as int] == spec_clamped(d0[p as int]));
                }
            } else if rec.hitpoints.0 <= 0 {
                let owner = rec.owner;
                let ghost em_before = *entity_manager;
                proof {
                    assert(spec_dying(d0[p as int]));
                }
                entity_manager.destroy_entity(&owner);
                proof {
                    assert forall|idx: int|
                        0 <= idx < em0.gens().len() && !(exists|i: int|
                            0 <= i < p + 1 && spec_dying(#[trigger] d0[i]) && index_of(d0[i].owner@)
                                == idx) implies entity_manager.gens()[idx] == em0.gens()[idx] by {
                        assert(spec_dying(d0[p as int]) && index_of(d0[p as int].owner@) == index_of(
                            owner@,
                        ));
                        assert(idx != index_of(owner@));
                        assert(em_before.gens()[idx] == em0.gens()[idx]);
                    }
                    if forall|i: int|
                        0 <= i < n && spec_dying(#[trigger] d0[i]) ==> em0.spec_alive(d0[i].owner) {
                        assert forall|i: int|
                            0 <= i < p + 1 && spec_dying(
                                #[trigger] d0[i],
                            ) implies !entity_manager.spec_alive(d0[i].owner) by {
                            if i < p {
                                if index_of(d0[i].owner@) == index_of(owner@) {
                                    lemma_alive_same_index_same_handle(&em0, d0[i].owner, owner);
                                    assert(self.records()[i].owner@ == d0[i].owner@);
                                    assert(self.records()[p as int].owner@ == owner@);
                                    assert(self.idx_map()[self.records()[i].owner@] as int == i);
                                    assert(self.idx_map()[self.records()[p as int].owner@] as int
                                        == p);
                                    assert(false);
                                }
                            } else {
                                if exists|j: int|
                                    0 <= j < p && spec_dying(#[trigger] d0[j]) && index_of(
                                        d0[j].owner@,
                                    ) == index_of(owner@) {
                                    let j = choose|j: int|
                                        0 <= j < p && spec_dying(#[trigger] d0[j]) && index_of(
                                            d0[j].owner@,
                                        ) == index_of(owner@);
                                    lemma_alive_same_index_same_handle(&em0, d0[j].owner, owner);
                                    assert(self.records()[j].owner@ == d0[j].owner@);
                                    assert(self.records()[p as int].owner@ == owner@);
                                    assert(self.idx_map()[self.records()[j].owner@] as int == j);
                                    assert(self.idx_map()[self.records()[p as int].owner@] as int
                                        == p);
                                    assert(false);
                                } else {
                                    assert(em_before.gens()[index_of(owner@)] == em0.gens()[
                                        index_of(owner@)]);
                                    assert(em_before.spec_alive(owner));
                                }
                            }
                        }
                    }
                }
            }
        }
    }
}

} // verus!
