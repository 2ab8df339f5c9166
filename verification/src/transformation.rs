//! Spatial state of entities: position, scale, pivot and rotation, stored in
//! the engine's component-store pattern (dense record array, sparse map from
//! raw entity handle to dense index, swap-removal compaction). Every other
//! spatial component — rigid bodies, drawables, text — requires its entity to
//! carry one of these records first.

use vstd::prelude::*;

use std::collections::HashMap;

use crate::entity::Entity;
use crate::fnv_map::map_contains;
use crate::fnv_map::map_get;
use crate::fnv_map::map_insert;
use crate::fnv_map::map_remove;
use crate::fnv_map::new_index_map;
use crate::math::spec_quat_forward;
use crate::math::spec_quat_right;
use crate::math::spec_v3_add;
use crate::math::Quatfx;
use crate::math::Vec3fx;
use crate::fixed::FX_ONE;

verus! {

/// One entity's spatial state.
#[derive(Clone, Copy, Debug)]
pub struct TransformationData {
    pub owner: Entity,
    pub position: Vec3fx,
    pub scale: Vec3fx,
    pub pivot: Vec3fx,
    pub rotation: Quatfx,
}

/// Configuration for a new transformation record; every field is optional
/// and resolved to its default when the record is built.
pub struct TransformationBuilder {
    position: Option<Vec3fx>,
    scale: Option<Vec3fx>,
    pivot: Option<Vec3fx>,
    rotation: Option<Quatfx>,
}

/// The record a builder resolves to: zero position and pivot, unit scale and
/// the identity rotation unless configured.
pub open spec fn spec_build(b: TransformationBuilder, owner: Entity) -> TransformationData {
    TransformationData {
        owner,
        position: match b.spec_position() {
            Some(p) => p,
            None => Vec3fx { x: 0i64, y: 0i64, z: 0i64 },
        },
        scale: match b.spec_scale() {
            Some(s) => s,
            None => Vec3fx { x: FX_ONE, y: FX_ONE, z: FX_ONE },
        },
        pivot: match b.spec_pivot() {
            Some(p) => p,
            None => Vec3fx { x: 0i64, y: 0i64, z: 0i64 },
        },
        rotation: match b.spec_rotation() {
            Some(r) => r,
            None => Quatfx { x: 0i64, y: 0i64, z: 0i64, w: FX_ONE },
        },
    }
}

impl TransformationBuilder {
    /// The configured position, if any.
    pub closed spec fn spec_position(&self) -> Option<Vec3fx> {
        self.position
    }

    /// The configured scale, if any.
    pub closed spec fn spec_scale(&self) -> Option<Vec3fx> {
        self.scale
    }

    /// The configured pivot, if any.
    pub closed spec fn spec_pivot(&self) -> Option<Vec3fx> {
        self.pivot
    }

    /// The configured rotation, if any.
    pub closed spec fn spec_rotation(&self) -> Option<Quatfx> {
        self.rotation
    }

    /// A builder with every field left to its default.
    pub fn new() -> (r: TransformationBuilder)
        ensures
            r.spec_position() is None,
            r.spec_scale() is None,
            r.spec_pivot() is None,
            r.spec_rotation() is None,
    {
        TransformationBuilder { position: None, scale: None, pivot: None, rotation: None }
    }

    /// Configures the position.
    pub fn at_position(self, position: Vec3fx) -> (r: TransformationBuilder)
        ensures
            r.spec_position() == Some(position),
            r.spec_scale() == self.spec_scale(),
            r.spec_pivot() == self.spec_pivot(),
            r.spec_rotation() == self.spec_rotation(),
    {
        TransformationBuilder { position: Some(position), ..self }
    }

    /// Configures the scale.
    pub fn with_scale(self, scale: Vec3fx) -> (r: TransformationBuilder)
        ensures
            r.spec_scale() == Some(scale),
            r.spec_position() == self.spec_position(),
            r.spec_pivot() == self.spec_pivot(),
            r.spec_rotation() == self.spec_rotation(),
    {
        TransformationBuilder { scale: Some(scale), ..self }
    }

    /// Configures the pivot.
    pub fn with_pivot(self, pivot: Vec3fx) -> (r: TransformationBuilder)
        ensures
            r.spec_pivot() == Some(pivot),
            r.spec_position() == self.spec_position(),
            r.spec_scale() == self.spec_scale(),
            r.spec_rotation() == self.spec_rotation(),
    {
        TransformationBuilder { pivot: Some(pivot), ..self }
    }

    /// Configures the rotation.
    pub fn with_rotation(self, rotation: Quatfx) -> (r: TransformationBuilder)
        ensures
            r.spec_rotation() == Some(rotation),
            r.spec_position() == self.spec_position(),
            r.spec_scale() == self.spec_scale(),
            r.spec_pivot() == self.spec_pivot(),
    {
        TransformationBuilder { rotation: Some(rotation), ..self }
    }

    /// Resolves the builder against its defaults.
    fn build(self, owner: Entity) -> (r: TransformationData)
        ensures
            r == spec_build(self, owner),
    {
        TransformationData {
            owner,
            position: match self.position {
                Some(p) => p,
                None => Vec3fx::zero(),
            },
            scale: match self.scale {
                Some(s) => s,
                None => Vec3fx::new(FX_ONE, FX_ONE, FX_ONE),
            },
            pivot: match self.pivot {
                Some(p) => p,
                None => Vec3fx::zero(),
            },
            rotation: match self.rotation {
                Some(r) => r,
                None => Quatfx::identity(),
            },
        }
    }
}

/// The transformation component store.
pub struct TransformationSystem {
    map: HashMap<u32, usize, fnv::FnvBuildHasher>,
    data: Vec<TransformationData>,
}

impl TransformationSystem {
    /// The sparse side: raw entity handle to dense index.
    pub closed spec fn idx_map(&self) -> Map<u32, usize> {
        self.map@
    }

    /// The dense record array.
    pub closed spec fn records(&self) -> Seq<TransformationData> {
        self.data@
    }

    /// Well-formedness: map and array describe each other.
    pub open spec fn inv(&self) -> bool {
        &&& forall|k: u32| #[trigger]
            self.idx_map().contains_key(k) ==> self.idx_map()[k] < self.records().len()
                && self.records()[self.idx_map()[k] as int].owner@ == k
        &&& forall|i: int|
            0 <= i < self.records().len() ==> self.idx_map().contains_key(
                #[trigger] self.records()[i].owner@,
            ) && self.idx_map()[self.records()[i].owner@] as int == i
    }

    /// Whether the entity has a transformation record.
    pub open spec fn spec_has(&self, e: Entity) -> bool {
        self.idx_map().contains_key(e@)
    }

    /// The record attached to an entity.
    pub open spec fn spec_record_of(&self, e: Entity) -> TransformationData {
        self.records()[self.idx_map()[e@] as int]
    }

    /// An empty store.
    pub fn new() -> (r: TransformationSystem)
        ensures
            r.inv(),
            r.records() =~= Seq::<TransformationData>::empty(),
            r.idx_map() =~= Map::<u32, usize>::empty(),
    {
        let s = TransformationSystem { map: new_index_map(), data: Vec::new() };
        proof {
            assert(s.idx_map() =~= Map::<u32, usize>::empty());
        }
        s
    }

    /// Whether the entity has a transformation record.
    pub fn entity_has_transformation(&self, entity: &Entity) -> (r: bool)
        requires
            self.inv(),
        ensures
            r == self.spec_has(*entity),
    {
        let k: u32 = entity.raw();
        map_contains(&self.map, k)
    }

    /// The entity's dense slot, when it has a record.
    fn lookup(&self, entity: &Entity) -> (r: Option<usize>)
        requires
            self.inv(),
        ensures
            r == if self.spec_has(*entity) {
                Some(self.idx_map()[entity@])
            } else {
                None::<usize>
            },
            r is Some ==> self.idx_map()[entity@] < self.records().len(),
    {
        let k: u32 = entity.raw();
        let r = map_get(&self.map, k);
        proof {
            if r is Some {
                assert(self.idx_map().contains_key(entity@));
            }
        }
        r
    }

    /// Attaches a transformation record built from the builder. An entity
    /// that already has one is ignored.
    pub fn add_transformation_to_entity(
        &mut self,
        entity: &Entity,
        initial_transformation: TransformationBuilder,
    )
        requires
            old(self).inv(),
        ensures
            final(self).inv(),
            if old(self).spec_has(*entity) {
                &&& final(self).records() =~= old(self).records()
                &&& final(self).idx_map() =~= old(self).idx_map()
            } else {
                &&& final(self).records() =~= old(self).records().push(
                    spec_build(initial_transformation, *entity),
                )
                &&& final(self).idx_map() =~= old(self).idx_map().insert(
                    entity@,
                    old(self).records().len() as usize,
                )
            },
    {
        if self.entity_has_transformation(entity) {
            // a second attach attempt is a designed no-op
        } else {
            self.data.push(initial_transformation.build(*entity));
            let k: u32 = entity.raw();
            let slot: usize = self.data.len() - 1;
            map_insert(&mut self.map, k, slot);
        }
    }

    /// Detaches the entity's transformation record by swapping the last
    /// record into its slot and repairing the moved record's map entry. A
    /// null or absent entity is ignored; every other entity keeps its record.
    pub fn remove_transformation_from_entity(&mut self, entity: &Entity)
        requires
            old(self).inv(),
        ensures
            final(self).inv(),
            entity@ != 0 ==> !final(self).spec_has(*entity),
            forall|k2: u32|
                k2 != entity@ && #[trigger] old(self).idx_map().contains_key(k2) ==> (
                final(self).idx_map().contains_key(k2)
                    && final(self).records()[final(self).idx_map()[k2] as int]
                    == old(self).records()[old(self).idx_map()[k2] as int]),
            forall|k2: u32| #[trigger]
                final(self).idx_map().contains_key(k2) ==> old(self).idx_map().contains_key(k2),
            if entity@ == 0 || !old(self).spec_has(*entity) {
                &&& final(self).records() =~= old(self).records()
                &&& final(self).idx_map() =~= old(self).idx_map()
            } else {
                final(self).records().len() == old(self).records().len() - 1
            },
    {
        let nul = Entity::null();
        proof {
            Entity::lemma_view_injective(*entity, nul);
        }
        let mut swapped: (bool, usize) = (false, 0);
        let mut removed = false;

        if *entity != nul {
            let found: Option<usize> = self.lookup(entity);
            match found {
                Some(index) => {
                    self.data.swap_remove(index);
                    removed = true;
                    if self.data.len() > 0 {
                        swapped = (true, index);
                    }
                },
                None => (),
            }
        }

        if removed == true {
            let k: u32 = entity.raw();
            map_remove(&mut self.map, k);
        }

        if swapped.0 == true && swapped.1 != self.data.len() {
            let moved_owner: u32 = self.data[swapped.1].owner.raw();
            map_insert(&mut self.map, moved_owner, swapped.1);
        }

        proof {
            if entity@ != 0 && old(self).spec_has(*entity) {
                let m0 = old(self).idx_map();
                let d0 = old(self).records();
                let i = m0[entity@] as int;
                let n = d0.len() as int;
                assert forall|k2: u32| #[trigger]
                    self.idx_map().contains_key(k2) implies self.idx_map()[k2]
                    < self.records().len() && self.records()[self.idx_map()[k2] as int].owner@
                    == k2 by {
                    if i < n - 1 && k2 == d0[n - 1].owner@ {
                    } else {
                        assert(m0.contains_key(k2) && m0[k2] as int != i);
                        assert(d0[m0[k2] as int].owner@ == k2);
                    }
                }
                assert forall|j: int|
                    0 <= j < self.records().len() implies self.idx_map().contains_key(
                    #[trigger] self.records()[j].owner@,
                ) && self.idx_map()[self.records()[j].owner@] as int == j by {
                    if i < n - 1 && j == i {
                    } else {
                        assert(self.records()[j] == d0[j]);
                        assert(m0.contains_key(d0[j].owner@) && m0[d0[j].owner@] as int == j);
                        assert(d0[j].owner@ != entity@);
                    }
                }
            }
        }
    }

    /// The forward vector of the entity's rotation, when it has a record.
    pub fn get_forward_vector(&self, entity: &Entity) -> (r: Option<Vec3fx>)
        requires
            self.inv(),
        ensures
            r == if self.spec_has(*entity) {
                Some(
                    Vec3fx {
                        x: spec_quat_forward(self.spec_record_of(*entity).rotation).0 as i64,
                        y: spec_quat_forward(self.spec_record_of(*entity).rotation).1 as i64,
                        z: spec_quat_forward(self.spec_record_of(*entity).rotation).2 as i64,
                    },
                )
            } else {
                None::<Vec3fx>
            },
    {
        match self.lookup(entity) {
            Some(index) => Some(self.data[index].rotation.forward_vector()),
            None => None,
        }
    }

    /// The right vector of the entity's rotation, when it has a record.
    pub fn get_right_vector(&self, entity: &Entity) -> (r: Option<Vec3fx>)
        requires
            self.inv(),
        ensures
            r == if self.spec_has(*entity) {
                Some(
                    Vec3fx {
                        x: spec_quat_right(self.spec_record_of(*entity).rotation).0 as i64,
                        y: spec_quat_right(self.spec_record_of(*entity).rotation).1 as i64,
                        z: spec_quat_right(self.spec_record_of(*entity).rotation).2 as i64,
                    },
                )
            } else {
                None::<Vec3fx>
            },
    {
        match self.lookup(entity) {
            Some(index) => Some(self.data[index].rotation.right_vector()),
            None => None,
        }
    }

    /// The entity's position, when it has a record.
    pub fn get_position(&self, entity: &Entity) -> (r: Option<Vec3fx>)
        requires
            self.inv(),
        ensures
            r == if self.spec_has(*entity) {
                Some(self.spec_record_of(*entity).position)
            } else {
                None::<Vec3fx>
            },
    {
        match self.lookup(entity) {
            Some(index) => Some(self.data[index].position),
            None => None,
        }
    }

    /// A copy of the entity's whole record, when it has one.
    pub fn get_transformation_data(&self, entity: &Entity) -> (r: Option<TransformationData>)
        requires
            self.inv(),
        ensures
            r == if self.spec_has(*entity) {
                Some(self.spec_record_of(*entity))
            } else {
                None::<TransformationData>
            },
    {
        match self.lookup(entity) {
            Some(index) => Some(self.data[index]),
            None => None,
        }
    }

    /// Replaces an entity's position without the public null guard: the
    /// physics integrator advances every body's owner, a null entity's
    /// record included. Absent entities are ignored.
    pub(crate) fn set_position_any(&mut self, entity: &Entity, position: Vec3fx)
        requires
            old(self).inv(),
        ensures
            final(self).inv(),
            final(self).idx_map() == old(self).idx_map(),
            if old(self).spec_has(*entity) {
                final(self).records() =~= old(self).records().update(
                    old(self).idx_map()[entity@] as int,
                    TransformationData { position, ..old(self).spec_record_of(*entity) },
                )
            } else {
                final(self).records() =~= old(self).records()
            },
    {
        match self.lookup(entity) {
            Some(index) => {
                let mut rec = self.data[index];
                rec.position = position;
                self.data[index] = rec;
            },
            None => (),
        }
    }

    /// Replaces the entity's rotation; null or absent entities are ignored.
    pub fn set_rotation(&mut self, entity: &Entity, rotation: Quatfx)
        requires
            old(self).inv(),
        ensures
            final(self).inv(),
            final(self).idx_map() == old(self).idx_map(),
            if entity@ != 0 && old(self).spec_has(*entity) {
                final(self).records() =~= old(self).records().update(
                    old(self).idx_map()[entity@] as int,
                    TransformationData { rotation, ..old(self).spec_record_of(*entity) },
                )
            } else {
                final(self).records() =~= old(self).records()
            },
    {
        let nul = Entity::null();
        proof {
            Entity::lemma_view_injective(*entity, nul);
        }
        if *entity != nul {
            match self.lookup(entity) {
                Some(index) => {
                    let mut rec = self.data[index];
                    rec.rotation = rotation;
                    self.data[index] = rec;
                },
                None => (),
            }
        }
    }

    /// Replaces the entity's position; null or absent entities are ignored.
    pub fn set_position(&mut self, entity: &Entity, position: Vec3fx)
        requires
            old(self).inv(),
        ensures
            final(self).inv(),
            final(self).idx_map() == old(self).idx_map(),
            if entity@ != 0 && old(self).spec_has(*entity) {
                final(self).records() =~= old(self).records().update(
                    old(self).idx_map()[entity@] as int,
                    TransformationData { position, ..old(self).spec_record_of(*entity) },
                )
            } else {
                final(self).records() =~= old(self).records()
            },
    {
        let nul = Entity::null();
        proof {
            Entity::lemma_view_injective(*entity, nul);
        }
        if *entity != nul {
            match self.lookup(entity) {
                Some(index) => {
                    let mut rec = self.data[index];
                    rec.position = position;
                    self.data[index] = rec;
                },
                None => (),
            }
        }
    }

    /// Replaces the entity's scale; null or absent entities are ignored.
    pub fn set_scale(&mut self, entity: &Entity, scale: Vec3fx)
        requires
            old(self).inv(),
        ensures
            final(self).inv(),
            final(self).idx_map() == old(self).idx_map(),
            if entity@ != 0 && old(self).spec_has(*entity) {
                final(self).records() =~= old(self).records().update(
                    old(self).idx_map()[entity@] as int,
                    TransformationData { scale, ..old(self).spec_record_of(*entity) },
                )
            } else {
                final(self).records() =~= old(self).records()
            },
    {
        let nul = Entity::null();
        proof {
            Entity::lemma_view_injective(*entity, nul);
        }
        if *entity != nul {
            match self.lookup(entity) {
                Some(index) => {
                    let mut rec = self.data[index];
                    rec.scale = scale;
                    self.data[index] = rec;
                },
                None => (),
            }
        }
    }

    /// Adds a displacement to the entity's position (saturating); null or
    /// absent entities are ignored.
    pub fn apply_movement(&mut self, entity: &Entity, movement: Vec3fx)
        requires
            old(self).inv(),
        ensures
            final(self).inv(),
            final(self).idx_map() == old(self).idx_map(),
            if entity@ != 0 && old(self).spec_has(*entity) {
                final(self).records() =~= old(self).records().update(
                    old(self).idx_map()[entity@] as int,
                    TransformationData {
                        position: spec_v3_add(old(self).spec_record_of(*entity).position, movement),
                        ..old(self).spec_record_of(*entity)
                    },
                )
            } else {
                final(self).records() =~= old(self).records()
            },
    {
        let nul = Entity::null();
        proof {
            Entity::lemma_view_injective(*entity, nul);
        }
        if *entity != nul {
            match self.lookup(entity) {
                Some(index) => {
                    let mut rec = self.data[index];
                    rec.position = rec.position.add(movement);
                    self.data[index] = rec;
                },
                None => (),
            }
        }
    }
}

} // verus!
