//! The rigid-body simulation: axis-aligned bounding boxes integrated at a
//! fixed timestep, with pairwise overlap detection, impulse resolution,
//! positional correction, foothold detection, contact damage into the health
//! system, and ray casting. Bodies follow the engine's component-store
//! pattern. All quantities are fixed-point scalars, so every step of the
//! simulation is exact integer arithmetic.

use vstd::prelude::*;

use std::collections::HashMap;

use crate::entity::Entity;
use crate::fixed::fx_abs;
use crate::fixed::fx_add;
use crate::fixed::fx_clamp;
use crate::fixed::fx_div;
use crate::fixed::fx_max;
use crate::fixed::fx_min;
use crate::fixed::fx_mul;
use crate::fixed::fx_neg;
use crate::fixed::fx_sub;
use crate::fixed::iabs;
use crate::fixed::spec_fx_add;
use crate::fixed::spec_fx_div;
use crate::fixed::spec_fx_mul;
use crate::fixed::spec_fx_sub;
use crate::fixed::tz_div;
use crate::fixed::FX_ONE;
use crate::fnv_map::map_contains;
use crate::fnv_map::map_get;
use crate::fnv_map::map_insert;
use crate::fnv_map::map_remove;
use crate::fnv_map::new_index_map;
use crate::math::spec_v3_add;
use crate::math::spec_v3_dot;
use crate::math::spec_v3_scale;
use crate::math::spec_v3_sub;
use crate::math::Vec3fx;
use crate::transformation::TransformationData;
use crate::transformation::TransformationSystem;

verus! {

/// The fixed physics timestep: one sixtieth of a second in fixed point
/// (truncated).
pub const PHYSICS_STEP: i64 = 1092;

/// Downward gravity, 9.82 units per second squared in fixed point
/// (truncated), applied along the y axis.
pub const GRAVITY_Y: i64 = -643563;

/// One rigid body: a box of half-size `extents` centered `offset` away from
/// the owner's transform position, with its dynamic state and contact
/// configuration.
#[derive(Clone, Copy, Debug)]
pub struct RigidBody {
    pub owner: Entity,
    pub offset: Vec3fx,
    pub extents: Vec3fx,
    pub velocity: Vec3fx,
    pub locomotion: Vec3fx,
    pub elasticity: i64,
    pub inv_mass: i64,
    pub gravity_immune: bool,
    pub foothold: bool,
    pub damage: i64,
    pub die_on_collision: bool,
}

/// The geometric result of a detected collision: the smallest overlap and
/// the axis-aligned contact normal, pointing from the first body toward the
/// second along the axis of smallest overlap.
#[derive(Clone, Copy, Debug)]
pub struct CollisionManifold {
    pub penetration: i64,
    pub normal: Vec3fx,
}

/// Configuration for a new rigid body; every field is optional and resolved
/// to its default when the record is built.
pub struct RigidBodyBuilder {
    offset: Option<Vec3fx>,
    extents: Option<Vec3fx>,
    velocity: Option<Vec3fx>,
    elasticity: Option<i64>,
    inv_mass: Option<i64>,
    gravity_immune: bool,
    damage: Option<i64>,
    die_on_collision: bool,
}

/// The record a builder resolves to: a half-unit cube at rest with no
/// elasticity, infinite mass, no damage, unless configured.
pub open spec fn spec_build(b: RigidBodyBuilder, owner: Entity) -> RigidBody {
    RigidBody {
        owner,
        offset: match b.spec_offset() {
            Some(o) => o,
            None => Vec3fx { x: 0i64, y: 0i64, z: 0i64 },
        },
        extents: match b.spec_extents() {
            Some(e) => e,
            None => Vec3fx { x: 32768i64, y: 32768i64, z: 32768i64 },
        },
        velocity: match b.spec_velocity() {
            Some(v) => v,
            None => Vec3fx { x: 0i64, y: 0i64, z: 0i64 },
        },
        locomotion: Vec3fx { x: 0i64, y: 0i64, z: 0i64 },
        elasticity: match b.spec_elasticity() {
            Some(e) => e,
            None => 0i64,
        },
        inv_mass: match b.spec_inv_mass() {
            Some(m) => m,
            None => 0i64,
        },
        gravity_immune: b.spec_gravity_immune(),
        foothold: false,
        damage: match b.spec_damage() {
            Some(d) => d,
            None => 0i64,
        },
        die_on_collision: b.spec_die_on_collision(),
    }
}

impl RigidBodyBuilder {
    /// The configured local offset, if any.
    pub closed spec fn spec_offset(&self) -> Option<Vec3fx> {
        self.offset
    }

    /// The configured half-extents, if any.
    pub closed spec fn spec_extents(&self) -> Option<Vec3fx> {
        self.extents
    }

    /// The configured initial velocity, if any.
    pub closed spec fn spec_velocity(&self) -> Option<Vec3fx> {
        self.velocity
    }

    /// The configured restitution, if any.
    pub closed spec fn spec_elasticity(&self) -> Option<i64> {
        self.elasticity
    }

    /// The configured inverse mass, if any.
    pub closed spec fn spec_inv_mass(&self) -> Option<i64> {
        self.inv_mass
    }

    /// Whether gravity immunity was configured.
    pub closed spec fn spec_gravity_immune(&self) -> bool {
        self.gravity_immune
    }

    /// The configured contact damage, if any.
    pub closed spec fn spec_damage(&self) -> Option<i64> {
        self.damage
    }

    /// Whether dying on first collision was configured.
    pub closed spec fn spec_die_on_collision(&self) -> bool {
        self.die_on_collision
    }

    /// A builder with every field left to its default.
    pub fn new() -> (r: RigidBodyBuilder)
        ensures
            r.spec_offset() is None,
            r.spec_extents() is None,
            r.spec_velocity() is None,
            r.spec_elasticity() is None,
            r.spec_inv_mass() is None,
            !r.spec_gravity_immune(),
            r.spec_damage() is None,
            !r.spec_die_on_collision(),
    {
        RigidBodyBuilder {
            offset: None,
            extents: None,
            velocity: None,
            elasticity: None,
            inv_mass: None,
            gravity_immune: false,
            damage: None,
            die_on_collision: false,
        }
    }

    /// Configures the local AABB center offset.
    pub fn with_offset(self, offset: Vec3fx) -> (r: RigidBodyBuilder)
        ensures
            r.spec_offset() == Some(offset),
            r.spec_extents() == self.spec_extents(),
            r.spec_velocity() == self.spec_velocity(),
            r.spec_elasticity() == self.spec_elasticity(),
            r.spec_inv_mass() == self.spec_inv_mass(),
            r.spec_gravity_immune() == self.spec_gravity_immune(),
            r.spec_damage() == self.spec_damage(),
            r.spec_die_on_collision() == self.spec_die_on_collision(),
    {
        RigidBodyBuilder { offset: Some(offset), ..self }
    }

    /// Configures the AABB half-extents.
    pub fn with_extents(self, extents: Vec3fx) -> (r: RigidBodyBuilder)
        ensures
            r.spec_extents() == Some(extents),
            r.spec_offset() == self.spec_offset(),
            r.spec_velocity() == self.spec_velocity(),
            r.spec_elasticity() == self.spec_elasticity(),
            r.spec_inv_mass() == self.spec_inv_mass(),
            r.spec_gravity_immune() == self.spec_gravity_immune(),
            r.spec_damage() == self.spec_damage(),
            r.spec_die_on_collision() == self.spec_die_on_collision(),
    {
        RigidBodyBuilder { extents: Some(extents), ..self }
    }

    /// Configures the initial velocity.
    pub fn with_velocity(self, velocity: Vec3fx) -> (r: RigidBodyBuilder)
        ensures
            r.spec_velocity() == Some(velocity),
            r.spec_offset() == self.spec_offset(),
            r.spec_extents() == self.spec_extents(),
            r.spec_elasticity() == self.spec_elasticity(),
            r.spec_inv_mass() == self.spec_inv_mass(),
            r.spec_gravity_immune() == self.spec_gravity_immune(),
            r.spec_damage() == self.spec_damage(),
            r.spec_die_on_collision() == self.spec_die_on_collision(),
    {
        RigidBodyBuilder { velocity: Some(velocity), ..self }
    }

    /// Configures the restitution coefficient.
    pub fn with_elasticity(self, elasticity: i64) -> (r: RigidBodyBuilder)
        ensures
            r.spec_elasticity() == Some(elasticity),
            r.spec_offset() == self.spec_offset(),
            r.spec_extents() == self.spec_extents(),
            r.spec_velocity() == self.spec_velocity(),
            r.spec_inv_mass() == self.spec_inv_mass(),
            r.spec_gravity_immune() == self.spec_gravity_immune(),
            r.spec_damage() == self.spec_damage(),
            r.spec_die_on_collision() == self.spec_die_on_collision(),
    {
        RigidBodyBuilder { elasticity: Some(elasticity), ..self }
    }

    /// Configures the body to ignore gravity.
    pub fn is_gravity_immune(self) -> (r: RigidBodyBuilder)
        ensures
            r.spec_gravity_immune(),
            r.spec_offset() == self.spec_offset(),
            r.spec_extents() == self.spec_extents(),
            r.spec_velocity() == self.spec_velocity(),
            r.spec_elasticity() == self.spec_elasticity(),
            r.spec_inv_mass() == self.spec_inv_mass(),
            r.spec_damage() == self.spec_damage(),
            r.spec_die_on_collision() == self.spec_die_on_collision(),
    {
        RigidBodyBuilder { gravity_immune: true, ..self }
    }

    /// Configures the contact damage the body deals.
    pub fn dealing_damage(self, damage: i64) -> (r: RigidBodyBuilder)
        ensures
            r.spec_damage() == Some(damage),
            r.spec_offset() == self.spec_offset(),
            r.spec_extents() == self.spec_extents(),
            r.spec_velocity() == self.spec_velocity(),
            r.spec_elasticity() == self.spec_elasticity(),
            r.spec_inv_mass() == self.spec_inv_mass(),
            r.spec_gravity_immune() == self.spec_gravity_immune(),
            r.spec_die_on_collision() == self.spec_die_on_collision(),
    {
        RigidBodyBuilder { damage: Some(damage), ..self }
    }

    /// Configures the body to be destroyed by its first collision.
    pub fn dies_on_collision(self) -> (r: RigidBodyBuilder)
        ensures
            r.spec_die_on_collision(),
            r.spec_offset() == self.spec_offset(),
            r.spec_extents() == self.spec_extents(),
            r.spec_velocity() == self.spec_velocity(),
            r.spec_elasticity() == self.spec_elasticity(),
            r.spec_inv_mass() == self.spec_inv_mass(),
            r.spec_gravity_immune() == self.spec_gravity_immune(),
            r.spec_damage() == self.spec_damage(),
    {
        RigidBodyBuilder { die_on_collision: true, ..self }
    }

    /// Configures the mass: a positive mass is stored as its fixed-point
    /// reciprocal, anything else as zero inverse mass (a static body).
    pub fn with_mass(self, mass: i64) -> (r: RigidBodyBuilder)
        ensures
            r.spec_inv_mass() == Some(
                if mass > 0 {
                    spec_fx_div(FX_ONE as int, mass as int) as i64
                } else {
                    0i64
                },
            ),
            r.spec_offset() == self.spec_offset(),
            r.spec_extents() == self.spec_extents(),
            r.spec_velocity() == self.spec_velocity(),
            r.spec_elasticity() == self.spec_elasticity(),
            r.spec_gravity_immune() == self.spec_gravity_immune(),
            r.spec_damage() == self.spec_damage(),
            r.spec_die_on_collision() == self.spec_die_on_collision(),
    {
        let inv: i64 = if mass > 0 {
            fx_div(FX_ONE, mass)
        } else {
            0
        };
        RigidBodyBuilder { inv_mass: Some(inv), ..self }
    }

    /// Resolves the builder against its defaults.
    fn build(self, owner: Entity) -> (r: RigidBody)
        ensures
            r == spec_build(self, owner),
    {
        RigidBody {
            owner,
            offset: match self.offset {
                Some(o) => o,
                None => Vec3fx::zero(),
            },
            extents: match self.extents {
                Some(e) => e,
                None => Vec3fx::new(32768, 32768, 32768),
            },
            velocity: match self.velocity {
                Some(v) => v,
                None => Vec3fx::zero(),
            },
            locomotion: Vec3fx::zero(),
            elasticity: match self.elasticity {
                Some(e) => e,
                None => 0,
            },
            inv_mass: match self.inv_mass {
                Some(m) => m,
                None => 0,
            },
            gravity_immune: self.gravity_immune,
            foothold: false,
            damage: match self.damage {
                Some(d) => d,
                None => 0,
            },
            die_on_collision: self.die_on_collision,
        }
    }
}

/// The per-axis overlaps of two boxes: the sum of the half-extents minus the
/// distance between the centers, per axis.
pub open spec fn spec_overlap(a: RigidBody, b: RigidBody, direction: Vec3fx) -> (int, int, int) {
    (
        spec_fx_sub(
            spec_fx_add(a.extents.x as int, b.extents.x as int),
            fx_clamp(iabs(direction.x as int)),
        ),
        spec_fx_sub(
            spec_fx_add(a.extents.y as int, b.extents.y as int),
            fx_clamp(iabs(direction.y as int)),
        ),
        spec_fx_sub(
            spec_fx_add(a.extents.z as int, b.extents.z as int),
            fx_clamp(iabs(direction.z as int)),
        ),
    )
}

/// The manifold of two boxes at the given center positions: present exactly
/// when the overlap is positive on all three axes; its penetration is the
/// smallest overlap, its normal the axis of smallest overlap (ties broken x,
/// then y, then z), signed toward the second body.
pub open spec fn spec_manifold(a: RigidBody, b: RigidBody, p1: Vec3fx, p2: Vec3fx) -> Option<
    CollisionManifold,
> {
    let direction = spec_v3_sub(p2, p1);
    let ov = spec_overlap(a, b, direction);
    if ov.0 > 0 && ov.1 > 0 && ov.2 > 0 {
        let pen = if ov.0 <= ov.1 && ov.0 <= ov.2 {
            ov.0
        } else if ov.1 <= ov.2 {
            ov.1
        } else {
            ov.2
        };
        let normal = if pen == ov.0 {
            if direction.x < 0 {
                Vec3fx { x: (-FX_ONE) as i64, y: 0i64, z: 0i64 }
            } else {
                Vec3fx { x: FX_ONE, y: 0i64, z: 0i64 }
            }
        } else if pen == ov.1 {
            if direction.y < 0 {
                Vec3fx { x: 0i64, y: (-FX_ONE) as i64, z: 0i64 }
            } else {
                Vec3fx { x: 0i64, y: FX_ONE, z: 0i64 }
            }
        } else {
            if direction.z < 0 {
                Vec3fx { x: 0i64, y: 0i64, z: (-FX_ONE) as i64 }
            } else {
                Vec3fx { x: 0i64, y: 0i64, z: FX_ONE }
            }
        };
        Some(CollisionManifold { penetration: pen as i64, normal })
    } else {
        None
    }
}

impl RigidBody {
    /// Tests this body's box against another's, at the given world-space
    /// center positions, and computes the manifold when they overlap.
    pub fn colliding(&self, other: &RigidBody, positions: (Vec3fx, Vec3fx)) -> (r: Option<
        CollisionManifold,
    >)
        ensures
            r == spec_manifold(*self, *other, positions.0, positions.1),
    {
        let direction = positions.1.sub(positions.0);
        let overlap_x = fx_sub(fx_add(self.extents.x, other.extents.x), fx_abs(direction.x));
        let overlap_y = fx_sub(fx_add(self.extents.y, other.extents.y), fx_abs(direction.y));
        let overlap_z = fx_sub(fx_add(self.extents.z, other.extents.z), fx_abs(direction.z));

        if overlap_x > 0 && overlap_y > 0 && overlap_z > 0 {
            let penetration = fx_min(overlap_x, fx_min(overlap_y, overlap_z));
            let normal: Vec3fx = if penetration == overlap_x {
                if direction.x < 0 {
                    Vec3fx::new(-FX_ONE, 0, 0)
                } else {
                    Vec3fx::new(FX_ONE, 0, 0)
                }
            } else if penetration == overlap_y {
                if direction.y < 0 {
                    Vec3fx::new(0, -FX_ONE, 0)
                } else {
                    Vec3fx::new(0, FX_ONE, 0)
                }
            } else {
                if direction.z < 0 {
                    Vec3fx::new(0, 0, -FX_ONE)
                } else {
                    Vec3fx::new(0, 0, FX_ONE)
                }
            };
            Some(CollisionManifold { penetration, normal })
        } else {
            None
        }
    }
}

/// A builder is well-formed when any configured inverse mass is nonnegative,
/// as `with_mass` always leaves it.
pub open spec fn builder_wf(b: RigidBodyBuilder) -> bool {
    match b.spec_inv_mass() {
        Some(m) => m >= 0,
        None => true,
    }
}

/// The rigid-body component store and fixed-timestep accumulator.
pub struct RigidBodySystem {
    timer: (i64, i64),
    gravity: Vec3fx,
    map: HashMap<u32, usize, fnv::FnvBuildHasher>,
    rigid_bodies: Vec<RigidBody>,
}

impl RigidBodySystem {
    /// The accumulated, not yet simulated time.
    pub closed spec fn timer_acc(&self) -> i64 {
        self.timer.0
    }

    /// The fixed step length.
    pub closed spec fn timer_step(&self) -> i64 {
        self.timer.1
    }

    /// The gravity acceleration vector.
    pub closed spec fn gravity_vec(&self) -> Vec3fx {
        self.gravity
    }

    /// The sparse side: raw entity handle to dense index.
    pub closed spec fn idx_map(&self) -> Map<u32, usize> {
        self.map@
    }

    /// The dense record array.
    pub closed spec fn records(&self) -> Seq<RigidBody> {
        self.rigid_bodies@
    }

    /// Well-formedness: map and array describe each other, inverse masses
    /// are nonnegative, and the accumulator holds a nonnegative remainder of
    /// the fixed step.
    pub open spec fn inv(&self) -> bool {
        &&& forall|k: u32| #[trigger]
            self.idx_map().contains_key(k) ==> self.idx_map()[k] < self.records().len()
                && self.records()[self.idx_map()[k] as int].owner@ == k
        &&& forall|i: int|
            0 <= i < self.records().len() ==> self.idx_map().contains_key(
                #[trigger] self.records()[i].owner@,
            ) && self.idx_map()[self.records()[i].owner@] as int == i
        &&& forall|i: int| 0 <= i < self.records().len() ==> (#[trigger] self.records()[i]).inv_mass >= 0
        &&& self.timer_acc() >= 0
        &&& self.timer_step() == PHYSICS_STEP
        &&& self.gravity_vec() == (Vec3fx { x: 0i64, y: GRAVITY_Y, z: 0i64 })
    }

    /// Whether the entity has a rigid body.
    pub open spec fn spec_has(&self, e: Entity) -> bool {
        self.idx_map().contains_key(e@)
    }

    /// The record attached to an entity.
    pub open spec fn spec_record_of(&self, e: Entity) -> RigidBody {
        self.records()[self.idx_map()[e@] as int]
    }

    /// An empty system with a zero accumulator.
    pub fn new() -> (r: RigidBodySystem)
        ensures
            r.inv(),
            r.records() =~= Seq::<RigidBody>::empty(),
            r.idx_map() =~= Map::<u32, usize>::empty(),
            r.timer_acc() == 0,
    {
        let s = RigidBodySystem {
            timer: (0, PHYSICS_STEP),
            gravity: Vec3fx::new(0, GRAVITY_Y, 0),
            map: new_index_map(),
            rigid_bodies: Vec::new(),
        };
        proof {
            assert(s.idx_map() =~= Map::<u32, usize>::empty());
        }
        s
    }

    /// Whether the entity has a rigid body.
    pub fn entity_has_rigid_body(&self, entity: &Entity) -> (r: bool)
        requires
            self.inv(),
        ensures
            r == self.spec_has(*entity),
    {
        let k: u32 = entity.raw();
        map_contains(&self.map, k)
    }

    /// The entity's dense slot, when it has a record.
    fn lookup(&self, entity: &Entity) -> (r: Option<usize>)
        requires
            self.inv(),
        ensures
            r == if self.spec_has(*entity) {
                Some(self.idx_map()[entity@])
            } else {
                None::<usize>
            },
            r is Some ==> self.idx_map()[entity@] < self.records().len(),
    {
        let k: u32 = entity.raw();
        let r = map_get(&self.map, k);
        proof {
            if r is Some {
                assert(self.idx_map().contains_key(entity@));
            }
        }
        r
    }

    /// Attaches a rigid body built from the builder. An entity that already
    /// has one, or that has no transformation yet, is ignored.
    pub fn add_rigid_body_to_entity(
        &mut self,
        entity: &Entity,
        collider_builder: RigidBodyBuilder,
        transformation_system: &TransformationSystem,
    )
        requires
            old(self).inv(),
            transformation_system.inv(),
            builder_wf(collider_builder),
        ensures
            final(self).inv(),
            final(self).timer_acc() == old(self).timer_acc(),
            if !old(self).spec_has(*entity) && transformation_system.spec_has(*entity) {
                &&& final(self).records() =~= old(self).records().push(
                    spec_build(collider_builder, *entity),
                )
                &&& final(self).idx_map() =~= old(self).idx_map().insert(
                    entity@,
                    old(self).records().len() as usize,
                )
            } else {
                &&& final(self).records() =~= old(self).records()
                &&& final(self).idx_map() =~= old(self).idx_map()
            },
    {
        let k: u32 = entity.raw();
        if map_contains(&self.map, k) {
            // a second attach attempt is a designed no-op
        } else {
            if transformation_system.entity_has_transformation(entity) {
                self.rigid_bodies.push(collider_builder.build(*entity));
                let slot: usize = self.rigid_bodies.len() - 1;
                map_insert(&mut self.map, k, slot);
                proof {
                    assert(self.records() =~= old(self).records().push(
                        spec_build(collider_builder, *entity),
                    ));
                    assert(self.idx_map() =~= old(self).idx_map().insert(
                        entity@,
                        old(self).records().len() as usize,
                    ));
                    assert(forall|k2: u32| #[trigger]
                        self.idx_map().contains_key(k2) ==> self.idx_map()[k2]
                            < self.records().len()
                            && self.records()[self.idx_map()[k2] as int].owner@ == k2);
                    assert(forall|i: int|
                        0 <= i < self.records().len() ==> self.idx_map().contains_key(
                            #[trigger] self.records()[i].owner@,
                        ) && self.idx_map()[self.records()[i].owner@] as int == i);
                    assert(forall|i: int|
                        0 <= i < self.records().len() ==> (#[trigger] self.records()[i]).inv_mass
                            >= 0);
                }
            } else {
                // a rigid body requires a transformation; ignored without one
            }
        }
        proof {
            assert(self.timer == old(self).timer);
            assert(self.gravity == old(self).gravity);
        }
    }

    /// Detaches the entity's rigid body by swapping the last record into its
    /// slot and repairing the moved record's map entry. A null or absent
    /// entity is ignored; every other entity keeps its record.
    pub fn remove_rigid_body_from_entity(&mut self, entity: &Entity)
        requires
            old(self).inv(),
        ensures
            final(self).inv(),
            final(self).timer_acc() == old(self).timer_acc(),
            entity@ != 0 ==> !final(self).spec_has(*entity),
            forall|k2: u32|
                k2 != entity@ && #[trigger] old(self).idx_map().contains_key(k2) ==> (
                final(self).idx_map().contains_key(k2)
                    && final(self).records()[final(self).idx_map()[k2] as int]
                    == old(self).records()[old(self).idx_map()[k2] as int]),
            forall|k2: u32| #[trigger]
                final(self).idx_map().contains_key(k2) ==> old(self).idx_map().contains_key(k2),
            if entity@ == 0 || !old(self).spec_has(*entity) {
                &&& final(self).records() =~= old(self).records()
                &&& final(self).idx_map() =~= old(self).idx_map()
            } else {
                final(self).records().len() == old(self).records().len() - 1
            },
    {
        let nul = Entity::null();
        proof {
            Entity::lemma_view_injective(*entity, nul);
        }
        let mut swapped: (bool, usize) = (false, 0);
        let mut removed = false;

        if *entity != nul {
            let found: Option<usize> = self.lookup(entity);
            match found {
                Some(index) => {
                    self.rigid_bodies.swap_remove(index);
                    removed = true;
                    if self.rigid_bodies.len() > 0 {
                        swapped = (true, index);
                    }
                },
                None => (),
            }
        }

        if removed == true {
            let k: u32 = entity.raw();
            map_remove(&mut self.map, k);
        }

        if swapped.0 == true && swapped.1 != self.rigid_bodies.len() {
            let moved_owner: u32 = self.rigid_bodies[swapped.1].owner.raw();
            map_insert(&mut self.map, moved_owner, swapped.1);
        }

        proof {
            if entity@ != 0 && old(self).spec_has(*entity) {
                let m0 = old(self).idx_map();
                let d0 = old(self).records();
                let i = m0[entity@] as int;
                let n = d0.len() as int;
                assert forall|k2: u32| #[trigger]
                    self.idx_map().contains_key(k2) implies self.idx_map()[k2]
                    < self.records().len() && self.records()[self.idx_map()[k2] as int].owner@
                    == k2 by {
                    if i < n - 1 && k2 == d0[n - 1].owner@ {
                    } else {
                        assert(m0.contains_key(k2) && m0[k2] as int != i);
                        assert(d0[m0[k2] as int].owner@ == k2);
                    }
                }
                assert forall|j: int|
                    0 <= j < self.records().len() implies self.idx_map().contains_key(
                    #[trigger] self.records()[j].owner@,
                ) && self.idx_map()[self.records()[j].owner@] as int == j by {
                    if i < n - 1 && j == i {
                    } else {
                        assert(self.records()[j] == d0[j]);
                        assert(m0.contains_key(d0[j].owner@) && m0[d0[j].owner@] as int == j);
                        assert(d0[j].owner@ != entity@);
                    }
                }
            }
        }
    }

    /// The entity's box half-extents; nothing for a null or absent entity.
    pub fn get_extents(&self, entity: &Entity) -> (r: Option<Vec3fx>)
        requires
            self.inv(),
        ensures
            r == if entity@ != 0 && self.spec_has(*entity) {
                Some(self.spec_record_of(*entity).extents)
            } else {
                None::<Vec3fx>
            },
    {
        let nul = Entity::null();
        proof {
            Entity::lemma_view_injective(*entity, nul);
        }
        if *entity != nul {
            match self.lookup(entity) {
                Some(index) => Some(self.rigid_bodies[index].extents),
                None => None,
            }
        } else {
            None
        }
    }

    /// The entity's velocity, when it has a body — the observable side of
    /// the dynamic state, for callers and tests.
    pub fn get_velocity(&self, entity: &Entity) -> (r: Option<Vec3fx>)
        requires
            self.inv(),
        ensures
            r == if self.spec_has(*entity) {
                Some(self.spec_record_of(*entity).velocity)
            } else {
                None::<Vec3fx>
            },
    {
        match self.lookup(entity) {
            Some(index) => Some(self.rigid_bodies[index].velocity),
            None => None,
        }
    }

    /// Replaces the entity's per-step locomotion displacement; absent
    /// entities are ignored.
    pub fn set_locomotion(&mut self, entity: &Entity, locomotion: Vec3fx)
        requires
            old(self).inv(),
        ensures
            final(self).inv(),
            final(self).idx_map() == old(self).idx_map(),
            final(self).timer_acc() == old(self).timer_acc(),
            if old(self).spec_has(*entity) {
                final(self).records() =~= old(self).records().update(
                    old(self).idx_map()[entity@] as int,
                    RigidBody { locomotion, ..old(self).spec_record_of(*entity) },
                )
            } else {
                final(self).records() =~= old(self).records()
            },
    {
        match self.lookup(entity) {
            Some(index) => {
                let mut rec = self.rigid_bodies[index];
                rec.locomotion = locomotion;
                self.rigid_bodies[index] = rec;
            },
            None => (),
        }
    }

    /// Sets or clears the entity's gravity immunity; null or absent entities
    /// are ignored.
    pub fn set_gravity_immunity(&mut self, entity: &Entity, immunity: bool)
        requires
            old(self).inv(),
        ensures
            final(self).inv(),
            final(self).idx_map() == old(self).idx_map(),
            final(self).timer_acc() == old(self).timer_acc(),
            if entity@ != 0 && old(self).spec_has(*entity) {
                final(self).records() =~= old(self).records().update(
                    old(self).idx_map()[entity@] as int,
                    RigidBody { gravity_immune: immunity, ..old(self).spec_record_of(*entity) },
                )
            } else {
                final(self).records() =~= old(self).records()
            },
    {
        let nul = Entity::null();
        proof {
            Entity::lemma_view_injective(*entity, nul);
        }
        if *entity != nul {
            match self.lookup(entity) {
                Some(index) => {
                    let mut rec = self.rigid_bodies[index];
                    rec.gravity_immune = immunity;
                    self.rigid_bodies[index] = rec;
                },
                None => (),
            }
        }
    }

    /// Adds a force impulse to the entity's velocity (saturating); absent
    /// entities are ignored.
    pub fn apply_force(&mut self, entity: &Entity, force: Vec3fx)
        requires
            old(self).inv(),
        ensures
            final(self).inv(),
            final(self).idx_map() == old(self).idx_map(),
            final(self).timer_acc() == old(self).timer_acc(),
            if old(self).spec_has(*entity) {
                final(self).records() =~= old(self).records().update(
                    old(self).idx_map()[entity@] as int,
                    RigidBody {
                        velocity: spec_v3_add(old(self).spec_record_of(*entity).velocity, force),
                        ..old(self).spec_record_of(*entity)
                    },
                )
            } else {
                final(self).records() =~= old(self).records()
            },
    {
        match self.lookup(entity) {
            Some(index) => {
                let mut rec = self.rigid_bodies[index];
                rec.velocity = rec.velocity.add(force);
                self.rigid_bodies[index] = rec;
            },
            None => (),
        }
    }

    /// Raises the entity's upward velocity to at least the given value;
    /// absent entities are ignored.
    pub fn apply_flight_force(&mut self, entity: &Entity, force: i64)
        requires
            old(self).inv(),
        ensures
            final(self).inv(),
            final(self).idx_map() == old(self).idx_map(),
            final(self).timer_acc() == old(self).timer_acc(),
            if old(self).spec_has(*entity) && old(self).spec_record_of(*entity).velocity.y
                < force {
                final(self).records() =~= old(self).records().update(
                    old(self).idx_map()[entity@] as int,
                    RigidBody {
                        velocity: Vec3fx {
                            y: force,
                            ..old(self).spec_record_of(*entity).velocity
                        },
                        ..old(self).spec_record_of(*entity)
                    },
                )
            } else {
                final(self).records() =~= old(self).records()
            },
    {
        match self.lookup(entity) {
            Some(index) => {
                let mut rec = self.rigid_bodies[index];
                if rec.velocity.y < force {
                    rec.velocity.y = force;
                    self.rigid_bodies[index] = rec;
                }
            },
            None => (),
        }
    }

    /// Replaces the entity's velocity; absent entities are ignored.
    pub fn set_velocity(&mut self, entity: &Entity, velocity: Vec3fx)
        requires
            old(self).inv(),
        ensures
            final(self).inv(),
            final(self).idx_map() == old(self).idx_map(),
            final(self).timer_acc() == old(self).timer_acc(),
            if old(self).spec_has(*entity) {
                final(self).records() =~= old(self).records().update(
                    old(self).idx_map()[entity@] as int,
                    RigidBody { velocity, ..old(self).spec_record_of(*entity) },
                )
            } else {
                final(self).records() =~= old(self).records()
            },
    {
        match self.lookup(entity) {
            Some(index) => {
                let mut rec = self.rigid_bodies[index];
                rec.velocity = velocity;
                self.rigid_bodies[index] = rec;
            },
            None => (),
        }
    }

    /// Whether the entity currently rests on a static surface; false for a
    /// null or absent entity.
    pub fn entity_has_foothold(&self, entity: &Entity) -> (r: bool)
        requires
            self.inv(),
        ensures
            r == (entity@ != 0 && self.spec_has(*entity) && self.spec_record_of(*entity).foothold),
    {
        let nul = Entity::null();
        proof {
            Entity::lemma_view_injective(*entity, nul);
        }
        if *entity != nul {
            match self.lookup(entity) {
                Some(index) => self.rigid_bodies[index].foothold,
                None => false,
            }
        } else {
            false
        }
    }
}


/// Two bodies agree on every configuration field; only velocity, locomotion
/// and foothold may differ.
pub open spec fn spec_same_config(a: RigidBody, b: RigidBody) -> bool {
    &&& a.owner == b.owner
    &&& a.offset == b.offset
    &&& a.extents == b.extents
    &&& a.elasticity == b.elasticity
    &&& a.inv_mass == b.inv_mass
    &&& a.gravity_immune == b.gravity_immune
    &&& a.damage == b.damage
    &&& a.die_on_collision == b.die_on_collision
}

/// The velocity after one integration step: gravity scaled by the step is
/// added for a dynamic body that is not gravity-immune.
pub open spec fn spec_integrated_velocity(b: RigidBody, gravity: Vec3fx, step: i64) -> Vec3fx {
    if b.inv_mass > 0 && !b.gravity_immune {
        spec_v3_add(b.velocity, spec_v3_scale(gravity, step as int))
    } else {
        b.velocity
    }
}

/// The body after one integration step: gravity applied to the velocity, the
/// locomotion displacement consumed, the foothold flag reset.
pub open spec fn spec_integrated_body(b: RigidBody, gravity: Vec3fx, step: i64) -> RigidBody {
    RigidBody {
        velocity: spec_integrated_velocity(b, gravity, step),
        locomotion: Vec3fx { x: 0i64, y: 0i64, z: 0i64 },
        foothold: false,
        ..b
    }
}

/// The owner's position after one integration step: advanced by the
/// integrated velocity plus the locomotion displacement, scaled by the step.
pub open spec fn spec_integrated_position(
    b: RigidBody,
    gravity: Vec3fx,
    step: i64,
    pos: Vec3fx,
) -> Vec3fx {
    spec_v3_add(
        pos,
        spec_v3_scale(
            spec_v3_add(spec_integrated_velocity(b, gravity, step), b.locomotion),
            step as int,
        ),
    )
}

impl RigidBodySystem {
    /// One integration pass over the bodies in `[first, last)`: applies
    /// gravity to each dynamic, gravity-bound body's velocity, advances its
    /// owner's transform position by velocity plus locomotion over one fixed
    /// step, consumes the locomotion and resets the foothold flag. Every
    /// other body and every unrelated transform record is untouched.
    pub fn update_colliders(
        &mut self,
        first: usize,
        last: usize,
        transformation_system: &mut TransformationSystem,
    )
        requires
            old(self).inv(),
            old(transformation_system).inv(),
            first <= last <= old(self).records().len(),
            forall|i: int|
                first <= i < last ==> old(transformation_system).spec_has(
                    (#[trigger] old(self).records()[i]).owner,
                ),
        ensures
            final(self).inv(),
            final(transformation_system).inv(),
            final(self).idx_map() == old(self).idx_map(),
            final(self).timer_acc() == old(self).timer_acc(),
            final(self).records().len() == old(self).records().len(),
            forall|i: int|
                0 <= i < old(self).records().len() ==> final(self).records()[i] == (if first <= i
                    < last {
                    spec_integrated_body(
                        #[trigger] old(self).records()[i],
                        Vec3fx { x: 0i64, y: GRAVITY_Y, z: 0i64 },
                        PHYSICS_STEP,
                    )
                } else {
                    old(self).records()[i]
                }),
            final(transformation_system).idx_map() == old(transformation_system).idx_map(),
            final(transformation_system).records().len() == old(
                transformation_system,
            ).records().len(),
            forall|i: int|
                first <= i < last ==> final(transformation_system).records()[old(
                    transformation_system,
                ).idx_map()[(#[trigger] old(self).records()[i]).owner@] as int] == (
                TransformationData {
                    position: spec_integrated_position(
                        old(self).records()[i],
                        Vec3fx { x: 0i64, y: GRAVITY_Y, z: 0i64 },
                        PHYSICS_STEP,
                        old(transformation_system).records()[old(
                            transformation_system,
                        ).idx_map()[old(self).records()[i].owner@] as int].position,
                    ),
                    ..old(transformation_system).records()[old(transformation_system).idx_map()[old(
                        self,
                    ).records()[i].owner@] as int]
                }),
            forall|t: int|
                0 <= t < old(transformation_system).records().len() && !(exists|i: int|
                    first <= i < last && old(transformation_system).idx_map()[(#[trigger] old(
                        self,
                    ).records()[i]).owner@] as int == t)
                    ==> final(transformation_system).records()[t]
                    == old(transformation_system).records()[t],
    {
        let ghost d0 = old(self).records();
        let ghost t0 = old(transformation_system).records();
        let ghost tm0 = old(transformation_system).idx_map();
        for p in first..last
            invariant
                self.inv(),
                transformation_system.inv(),
                d0 == old(self).records(),
                t0 == old(transformation_system).records(),
                tm0 == old(transformation_system).idx_map(),
                first <= p <= last <= d0.len(),
                self.idx_map() == old(self).idx_map(),
                self.timer_acc() == old(self).timer_acc(),
                self.timer_step() == PHYSICS_STEP,
                self.records().len() == d0.len(),
                forall|i: int|
                    first <= i < last ==> old(transformation_system).spec_has(
                        (#[trigger] d0[i]).owner,
                    ),
                forall|i: int|
                    0 <= i < d0.len() ==> self.records()[i] == (if first <= i < p {
                        spec_integrated_body(
                            #[trigger] d0[i],
                            Vec3fx { x: 0i64, y: GRAVITY_Y, z: 0i64 },
                            PHYSICS_STEP,
                        )
                    } else {
                        d0[i]
                    }),
                transformation_system.idx_map() == tm0,
                transformation_system.records().len() == t0.len(),
                forall|i: int|
                    first <= i < p ==> transformation_system.records()[tm0[(#[trigger] d0[i]).owner@] as int]
                        == (TransformationData {
                        position: spec_integrated_position(
                            d0[i],
                            Vec3fx { x: 0i64, y: GRAVITY_Y, z: 0i64 },
                            PHYSICS_STEP,
                            t0[tm0[d0[i].owner@] as int].position,
                        ),
                        ..t0[tm0[d0[i].owner@] as int]
                    }),
                forall|t: int|
                    0 <= t < t0.len() && !(exists|i: int|
                        first <= i < p && tm0[(#[trigger] d0[i]).owner@] as int == t)
                        ==> transformation_system.records()[t] == t0[t],
        {
            let rec = self.rigid_bodies[p];
            proof {
                assert(rec == d0[p as int]);
                assert(old(transformation_system).spec_has(d0[p as int].owner));
                assert(tm0.contains_key(rec.owner@));
            }
            let mut rec2 = rec;
            if rec.inv_mass > 0 && rec.gravity_immune == false {
                rec2.velocity = rec.velocity.add(self.gravity.scale(self.timer.1));
            }
            let ghost tslot = tm0[rec.owner@] as int;
            proof {
                // no earlier body shares this owner's transform slot, so its
                // position still reads as it did on entry
                assert forall|i: int|
                    first <= i < p implies tm0[(#[trigger] d0[i]).owner@] as int != tslot by {
                    if tm0[d0[i].owner@] as int == tslot {
                        assert(old(transformation_system).spec_has(d0[i].owner));
                        assert(transformation_system.idx_map().contains_key(d0[i].owner@));
                        assert(transformation_system.idx_map().contains_key(rec.owner@));
                        assert(transformation_system.records()[tslot].owner@ == d0[i].owner@);
                        assert(transformation_system.records()[tslot].owner@ == rec.owner@);
                        assert(self.records()[i].owner == d0[i].owner);
                        assert(self.idx_map()[d0[i].owner@] as int == i);
                        assert(self.idx_map()[d0[p as int].owner@] as int == p);
                    }
                }
                assert(transformation_system.records()[tslot] == t0[tslot]);
            }
            let pos = match transformation_system.get_position(&rec.owner) {
                Some(position) => position,
                None => {
                    proof {
                        assert(false);
                    }
                    Vec3fx::zero()
                },
            };
            let newpos = pos.add(rec2.velocity.add(rec.locomotion).scale(self.timer.1));
            transformation_system.set_position_any(&rec.owner, newpos);
            rec2.locomotion = Vec3fx::zero();
            rec2.foothold = false;
            self.rigid_bodies[p] = rec2;
            proof {
                assert(transformation_system.records()[tslot] == (TransformationData {
                    position: spec_integrated_position(
                        d0[p as int],
                        Vec3fx { x: 0i64, y: GRAVITY_Y, z: 0i64 },
                        PHYSICS_STEP,
                        t0[tslot].position,
                    ),
                    ..t0[tslot]
                }));
            }
        }
    }
}


/// What one pairwise resolution leaves behind: the two bodies afterwards,
/// whether the impulse branch ran, and the positional corrections it applied.
pub struct PairOutcome {
    pub body_i: RigidBody,
    pub body_j: RigidBody,
    pub resolved: bool,
    pub corr_i: Vec3fx,
    pub corr_j: Vec3fx,
}

/// The outcome of testing and resolving one ordered pair of bodies at the
/// given world-space box centers: nothing for a static-static pair or
/// without overlap; footholds alone for a separating contact; otherwise the
/// restitution impulse split by inverse mass, and the penetration distributed
/// as positional correction in the same proportion.
pub open spec fn spec_pair_outcome(bi: RigidBody, bj: RigidBody, p1: Vec3fx, p2: Vec3fx) -> PairOutcome {
    let zero = Vec3fx { x: 0i64, y: 0i64, z: 0i64 };
    let skip = PairOutcome { body_i: bi, body_j: bj, resolved: false, corr_i: zero, corr_j: zero };
    if bi.inv_mass == 0 && bj.inv_mass == 0 {
        skip
    } else {
        match spec_manifold(bi, bj, p1, p2) {
            Option::None => skip,
            Option::Some(man) => {
                let up = Vec3fx { x: 0i64, y: FX_ONE, z: 0i64 };
                let down = Vec3fx { x: 0i64, y: (-FX_ONE) as i64, z: 0i64 };
                let bj1 = if bi.inv_mass == 0 && man.normal == up {
                    RigidBody { foothold: true, ..bj }
                } else {
                    bj
                };
                let bi1 = if !(bi.inv_mass == 0 && man.normal == up) && bj.inv_mass == 0
                    && man.normal == down {
                    RigidBody { foothold: true, ..bi }
                } else {
                    bi
                };
                let nv = spec_v3_dot(spec_v3_sub(bj.velocity, bi.velocity), man.normal);
                if nv >= 0 {
                    PairOutcome {
                        body_i: bi1,
                        body_j: bj1,
                        resolved: false,
                        corr_i: zero,
                        corr_j: zero,
                    }
                } else {
                    let e = if bi.elasticity >= bj.elasticity {
                        bi.elasticity
                    } else {
                        bj.elasticity
                    };
                    let msum = spec_fx_add(bi.inv_mass as int, bj.inv_mass as int);
                    let mag = spec_fx_div(
                        spec_fx_mul(fx_clamp(-spec_fx_add(FX_ONE as int, e as int)), nv),
                        msum,
                    );
                    let impulse = spec_v3_scale(man.normal, mag);
                    let mf = spec_fx_div(FX_ONE as int, msum);
                    let corr_i = spec_v3_scale(
                        spec_v3_scale(spec_v3_scale(man.normal, mf), bi.inv_mass as int),
                        man.penetration as int,
                    );
                    let corr_j = spec_v3_scale(
                        spec_v3_scale(spec_v3_scale(man.normal, mf), bj.inv_mass as int),
                        man.penetration as int,
                    );
                    PairOutcome {
                        body_i: RigidBody {
                            velocity: spec_v3_sub(
                                bi1.velocity,
                                spec_v3_scale(impulse, bi.inv_mass as int),
                            ),
                            ..bi1
                        },
                        body_j: RigidBody {
                            velocity: spec_v3_add(
                                bj1.velocity,
                                spec_v3_scale(impulse, bj.inv_mass as int),
                            ),
                            ..bj1
                        },
                        resolved: true,
                        corr_i,
                        corr_j,
                    }
                }
            },
        }
    }
}

/// The bodies after one integration pass over the first `n` of them.
pub open spec fn spec_integrated_bodies(bodies: Seq<RigidBody>, n: int) -> Seq<RigidBody> {
    Seq::new(
        bodies.len(),
        |i: int|
            if 0 <= i < n {
                spec_integrated_body(
                    bodies[i],
                    Vec3fx { x: 0i64, y: GRAVITY_Y, z: 0i64 },
                    PHYSICS_STEP,
                )
            } else {
                bodies[i]
            },
    )
}

/// The transform records after one integration pass over the first `n`
/// bodies: each body's owner slot advances by the body's integrated velocity
/// plus locomotion over one step. (Bodies own distinct slots, so each slot is
/// read and written once.)
pub open spec fn spec_integrated_transforms(
    bodies: Seq<RigidBody>,
    transforms: Seq<TransformationData>,
    tm: Map<u32, usize>,
    n: int,
) -> Seq<TransformationData>
    decreases n,
{
    if n <= 0 {
        transforms
    } else {
        let prev = spec_integrated_transforms(bodies, transforms, tm, n - 1);
        let b = bodies[n - 1];
        let t = tm[b.owner@] as int;
        prev.update(
            t,
            TransformationData {
                position: spec_integrated_position(
                    b,
                    Vec3fx { x: 0i64, y: GRAVITY_Y, z: 0i64 },
                    PHYSICS_STEP,
                    transforms[t].position,
                ),
                ..transforms[t]
            },
        )
    }
}

/// What the integration fold leaves in each slot: every body's slot holds
/// the advanced record, every other slot is untouched.
proof fn lemma_integrated_transforms_char(
    bodies: Seq<RigidBody>,
    transforms: Seq<TransformationData>,
    tm: Map<u32, usize>,
    n: int,
)
    requires
        0 <= n <= bodies.len(),
        forall|i: int|
            0 <= i < n ==> tm.contains_key((#[trigger] bodies[i]).owner@) && tm[bodies[i].owner@]
                < transforms.len(),
        forall|i: int, j: int|
            0 <= i < j < n ==> tm[(#[trigger] bodies[i]).owner@] != tm[(
            #[trigger] bodies[j]).owner@],
    ensures
        spec_integrated_transforms(bodies, transforms, tm, n).len() == transforms.len(),
        forall|i: int|
            0 <= i < n ==> spec_integrated_transforms(bodies, transforms, tm, n)[tm[(
            #[trigger] bodies[i]).owner@] as int] == (TransformationData {
                position: spec_integrated_position(
                    bodies[i],
                    Vec3fx { x: 0i64, y: GRAVITY_Y, z: 0i64 },
                    PHYSICS_STEP,
                    transforms[tm[bodies[i].owner@] as int].position,
                ),
                ..transforms[tm[bodies[i].owner@] as int]
            }),
        forall|t: int|
            0 <= t < transforms.len() && !(exists|i: int|
                0 <= i < n && tm[(#[trigger] bodies[i]).owner@] as int == t)
                ==> spec_integrated_transforms(bodies, transforms, tm, n)[t] == transforms[t],
    decreases n,
{
    if n > 0 {
        lemma_integrated_transforms_char(bodies, transforms, tm, n - 1);
    }
}

/// The whole state one pair resolution leaves behind, as `resolve_pair`
/// writes it: the two bodies replaced by the pair outcome and, when the
/// contact resolved, both owners' positions corrected and the contact damage
/// folded into the health records.
pub open spec fn spec_pair_step(
    bodies: Seq<RigidBody>,
    transforms: Seq<TransformationData>,
    healths: Seq<crate::health::HealthData>,
    tm: Map<u32, usize>,
    hm: Map<u32, usize>,
    i: int,
    j: int,
    p1: Vec3fx,
) -> (Seq<RigidBody>, Seq<TransformationData>, Seq<crate::health::HealthData>) {
    let bi = bodies[i];
    let bj = bodies[j];
    let p2 = spec_v3_add(transforms[tm[bj.owner@] as int].position, bj.offset);
    let out = spec_pair_outcome(bi, bj, p1, p2);
    let ti = tm[bi.owner@] as int;
    let tj = tm[bj.owner@] as int;
    let bodies2 = bodies.update(i, out.body_i).update(j, out.body_j);
    let transforms2 = if out.resolved {
        transforms.update(
            ti,
            TransformationData {
                position: spec_v3_sub(transforms[ti].position, out.corr_i),
                ..transforms[ti]
            },
        ).update(
            tj,
            TransformationData {
                position: spec_v3_add(transforms[tj].position, out.corr_j),
                ..transforms[tj]
            },
        )
    } else {
        transforms
    };
    let h1 = crate::health::spec_after_harm(healths, hm, bi.owner@, bj.damage as int);
    let h2 = if bi.die_on_collision {
        crate::health::spec_after_kill(h1, hm, bi.owner@)
    } else {
        h1
    };
    let h3 = crate::health::spec_after_harm(h2, hm, bj.owner@, bi.damage as int);
    let h4 = if bj.die_on_collision {
        crate::health::spec_after_kill(h3, hm, bj.owner@)
    } else {
        h3
    };
    let healths2 = if out.resolved {
        h4
    } else {
        healths
    };
    (bodies2, transforms2, healths2)
}

/// The state after body `i` has been tested against the bodies before index
/// `j`: pairs (i, i+1) up to (i, j-1), in scan order, each applied to the
/// state the previous one left. `p1` is body i's box center as computed at
/// the start of its scan line.
pub open spec fn spec_scan_pairs(
    bodies: Seq<RigidBody>,
    transforms: Seq<TransformationData>,
    healths: Seq<crate::health::HealthData>,
    tm: Map<u32, usize>,
    hm: Map<u32, usize>,
    i: int,
    p1: Vec3fx,
    j: int,
) -> (Seq<RigidBody>, Seq<TransformationData>, Seq<crate::health::HealthData>)
    decreases j - i,
{
    if j <= i + 1 {
        (bodies, transforms, healths)
    } else {
        let prev = spec_scan_pairs(bodies, transforms, healths, tm, hm, i, p1, j - 1);
        spec_pair_step(prev.0, prev.1, prev.2, tm, hm, i, j - 1, p1)
    }
}

/// The state after the first `i` scan lines of the pairwise pass: line `l`
/// fixes body `l`'s box center from the state the previous lines left, then
/// resolves pairs (l, l+1) .. (l, count-1).
pub open spec fn spec_scan_bodies(
    bodies: Seq<RigidBody>,
    transforms: Seq<TransformationData>,
    healths: Seq<crate::health::HealthData>,
    tm: Map<u32, usize>,
    hm: Map<u32, usize>,
    count: int,
    i: int,
) -> (Seq<RigidBody>, Seq<TransformationData>, Seq<crate::health::HealthData>)
    decreases i,
{
    if i <= 0 {
        (bodies, transforms, healths)
    } else {
        let prev = spec_scan_bodies(bodies, transforms, healths, tm, hm, count, i - 1);
        let b = prev.0[i - 1];
        let p1 = spec_v3_add(prev.1[tm[b.owner@] as int].position, b.offset);
        spec_scan_pairs(prev.0, prev.1, prev.2, tm, hm, i - 1, p1, count)
    }
}

/// One whole sub-step of the simulation: the integration pass over every
/// body, then the pairwise scan over every ordered pair.
pub open spec fn spec_substep(
    bodies: Seq<RigidBody>,
    transforms: Seq<TransformationData>,
    healths: Seq<crate::health::HealthData>,
    tm: Map<u32, usize>,
    hm: Map<u32, usize>,
) -> (Seq<RigidBody>, Seq<TransformationData>, Seq<crate::health::HealthData>) {
    let n = bodies.len() as int;
    let ib = spec_integrated_bodies(bodies, n);
    let it = spec_integrated_transforms(bodies, transforms, tm, n);
    spec_scan_bodies(ib, it, healths, tm, hm, n, n - 1)
}

/// `k` whole sub-steps, applied in order.
pub open spec fn spec_substeps(
    bodies: Seq<RigidBody>,
    transforms: Seq<TransformationData>,
    healths: Seq<crate::health::HealthData>,
    tm: Map<u32, usize>,
    hm: Map<u32, usize>,
    k: nat,
) -> (Seq<RigidBody>, Seq<TransformationData>, Seq<crate::health::HealthData>)
    decreases k,
{
    if k == 0 {
        (bodies, transforms, healths)
    } else {
        let prev = spec_substeps(bodies, transforms, healths, tm, hm, (k - 1) as nat);
        spec_substep(prev.0, prev.1, prev.2, tm, hm)
    }
}

impl RigidBodySystem {
    /// Tests the ordered pair `(i, j)` and resolves any contact: static
    /// pairs are skipped; a contact marks footholds against static ground; a
    /// closing contact additionally exchanges the restitution impulse,
    /// corrects both owners' positions by their inverse-mass share of the
    /// penetration, deals each body's contact damage to the other's health,
    /// and kills a body configured to die on collision. `position_1` is the
    /// first body's world-space box center, as the caller computed it before
    /// any correction of this scan line.
    #[verifier::rlimit(100)]
    #[verifier::spinoff_prover]
    fn resolve_pair(
        &mut self,
        i: usize,
        j: usize,
        position_1: Vec3fx,
        transformation_system: &mut TransformationSystem,
        health_system: &mut crate::health::HealthSystem,
    )
        requires
            old(self).inv(),
            old(transformation_system).inv(),
            old(health_system).inv(),
            i < j < old(self).records().len(),
            old(transformation_system).spec_has(old(self).records()[i as int].owner),
            old(transformation_system).spec_has(old(self).records()[j as int].owner),
        ensures
            final(self).inv(),
            final(transformation_system).inv(),
            final(health_system).inv(),
            final(self).idx_map() == old(self).idx_map(),
            final(self).timer_acc() == old(self).timer_acc(),
            final(self).records().len() == old(self).records().len(),
            final(transformation_system).idx_map() == old(transformation_system).idx_map(),
            final(transformation_system).records().len() == old(
                transformation_system,
            ).records().len(),
            final(health_system).idx_map() == old(health_system).idx_map(),
            final(health_system).records().len() == old(health_system).records().len(),
            forall|t: int|
                0 <= t < old(self).records().len() ==> spec_same_config(
                    #[trigger] final(self).records()[t],
                    old(self).records()[t],
                ),
            forall|t: int|
                0 <= t < old(transformation_system).records().len() ==> {
                    let a = #[trigger] final(transformation_system).records()[t];
                    let b = old(transformation_system).records()[t];
                    a.owner == b.owner && a.scale == b.scale && a.pivot == b.pivot && a.rotation
                        == b.rotation
                },
            forall|t: int|
                0 <= t < old(health_system).records().len() ==> {
                    let a = #[trigger] final(health_system).records()[t];
                    let b = old(health_system).records()[t];
                    a.owner == b.owner && a.hitpoints.1 == b.hitpoints.1
                },
            ({
                let bi = old(self).records()[i as int];
                let bj = old(self).records()[j as int];
                let p2 = spec_v3_add(
                    old(transformation_system).spec_record_of(bj.owner).position,
                    bj.offset,
                );
                let out = spec_pair_outcome(bi, bj, position_1, p2);
                let tm = old(transformation_system).idx_map();
                let ti = tm[bi.owner@] as int;
                let tj = tm[bj.owner@] as int;
                let trecs = old(transformation_system).records();
                let hm = old(health_system).idx_map();
                let h1 = crate::health::spec_after_harm(
                    old(health_system).records(),
                    hm,
                    bi.owner@,
                    bj.damage as int,
                );
                let h2 = if bi.die_on_collision {
                    crate::health::spec_after_kill(h1, hm, bi.owner@)
                } else {
                    h1
                };
                let h3 = crate::health::spec_after_harm(h2, hm, bj.owner@, bi.damage as int);
                let h4 = if bj.die_on_collision {
                    crate::health::spec_after_kill(h3, hm, bj.owner@)
                } else {
                    h3
                };
                &&& final(self).records() =~= old(self).records().update(
                    i as int,
                    out.body_i,
                ).update(j as int, out.body_j)
                &&& final(transformation_system).records() =~= if out.resolved {
                    trecs.update(
                        ti,
                        TransformationData {
                            position: spec_v3_sub(trecs[ti].position, out.corr_i),
                            ..trecs[ti]
                        },
                    ).update(
                        tj,
                        TransformationData {
                            position: spec_v3_add(trecs[tj].position, out.corr_j),
                            ..trecs[tj]
                        },
                    )
                } else {
                    trecs
                }
                &&& final(health_system).records() =~= if out.resolved {
                    h4
                } else {
                    old(health_system).records()
                }
            }),
    {
        let bi = self.rigid_bodies[i];
        let bj = self.rigid_bodies[j];
        let ghost out = spec_pair_outcome(
            bi,
            bj,
            position_1,
            spec_v3_add(old(transformation_system).spec_record_of(bj.owner).position, bj.offset),
        );
        proof {
            // the two bodies sit in distinct transform slots
            assert(self.idx_map()[bi.owner@] as int == i);
            assert(self.idx_map()[bj.owner@] as int == j);
            assert(bi.owner@ != bj.owner@);
            assert(transformation_system.idx_map().contains_key(bi.owner@));
            assert(transformation_system.idx_map().contains_key(bj.owner@));
            assert(transformation_system.records()[transformation_system.idx_map()[bi.owner@] as int].owner@
                == bi.owner@);
            assert(transformation_system.records()[transformation_system.idx_map()[bj.owner@] as int].owner@
                == bj.owner@);
        }
        if bi.inv_mass != 0 || bj.inv_mass != 0 {
            let pos_j = match transformation_system.get_position(&bj.owner) {
                Some(position) => position,
                None => {
                    proof {
                        assert(false);
                    }
                    Vec3fx::zero()
                },
            };
            let position_2 = pos_j.add(bj.offset);
            match bi.colliding(&bj, (position_1, position_2)) {
                Some(manifold) => {
                    if bi.inv_mass == 0 && manifold.normal == Vec3fx::new(0, FX_ONE, 0) {
                        let mut b = self.rigid_bodies[j];
                        b.foothold = true;
                        self.rigid_bodies[j] = b;
                    } else if bj.inv_mass == 0 && manifold.normal == Vec3fx::new(0, -FX_ONE, 0) {
                        let mut b = self.rigid_bodies[i];
                        b.foothold = true;
                        self.rigid_bodies[i] = b;
                    }

                    let rv = self.rigid_bodies[j].velocity.sub(self.rigid_bodies[i].velocity);
                    let normal_vel = rv.dot(manifold.normal);
                    let masses = (bi.inv_mass, bj.inv_mass);

                    // a separating or resting contact (nonnegative closing
                    // speed) takes no impulse, correction or damage
                    if normal_vel >= 0 {
                        proof {
                            assert(!out.resolved && out.body_i == self.records()[i as int]
                                && out.body_j == self.records()[j as int]);
                            assert(self.records() =~= old(self).records().update(
                                i as int,
                                out.body_i,
                            ).update(j as int, out.body_j));
                        }
                        return ;
                    }
                    let e = fx_max(bi.elasticity, bj.elasticity);
                    let msum = fx_add(masses.0, masses.1);
                    proof {
                        assert(msum > 0);
                    }
                    let normal_magnitude = fx_div(fx_mul(fx_neg(fx_add(FX_ONE, e)), normal_vel), msum);
                    let impulse = manifold.normal.scale(normal_magnitude);

                    let mut bi2 = self.rigid_bodies[i];
                    bi2.velocity = bi2.velocity.sub(impulse.scale(masses.0));
                    self.rigid_bodies[i] = bi2;
                    let mut bj2 = self.rigid_bodies[j];
                    bj2.velocity = bj2.velocity.add(impulse.scale(masses.1));
                    self.rigid_bodies[j] = bj2;

                    let mass_factor = fx_div(FX_ONE, msum);
                    let corr_i = manifold.normal.scale(mass_factor).scale(masses.0).scale(
                        manifold.penetration,
                    );
                    let corr_j = manifold.normal.scale(mass_factor).scale(masses.1).scale(
                        manifold.penetration,
                    );

                    let pos_i_now = match transformation_system.get_position(&bi.owner) {
                        Some(position) => position,
                        None => {
                            proof {
                                assert(false);
                            }
                            Vec3fx::zero()
                        },
                    };
                    transformation_system.set_position_any(&bi.owner, pos_i_now.sub(corr_i));
                    let pos_j_now = match transformation_system.get_position(&bj.owner) {
                        Some(position) => position,
                        None => {
                            proof {
                                assert(false);
                            }
                            Vec3fx::zero()
                        },
                    };
                    transformation_system.set_position_any(&bj.owner, pos_j_now.add(corr_j));

                    if health_system.entity_has_health(&self.rigid_bodies[i].owner) {
                        let dmg = self.rigid_bodies[j].damage;
                        health_system.harm(&self.rigid_bodies[i].owner, dmg);
                        if self.rigid_bodies[i].die_on_collision {
                            health_system.kill_entity(&self.rigid_bodies[i].owner);
                        }
                    }
                    if health_system.entity_has_health(&self.rigid_bodies[j].owner) {
                        let dmg = self.rigid_bodies[i].damage;
                        health_system.harm(&self.rigid_bodies[j].owner, dmg);
                        if self.rigid_bodies[j].die_on_collision {
                            health_system.kill_entity(&self.rigid_bodies[j].owner);
                        }
                    }
                    proof {
                        assert(out.resolved && out.body_i == self.records()[i as int]
                            && out.body_j == self.records()[j as int]);
                        assert(self.records() =~= old(self).records().update(
                            i as int,
                            out.body_i,
                        ).update(j as int, out.body_j));
                    }
                },
                None => {
                    proof {
                        assert(!out.resolved && out.body_i == bi && out.body_j == bj);
                        assert(self.records() =~= old(self).records().update(
                            i as int,
                            out.body_i,
                        ).update(j as int, out.body_j));
                    }
                },
            }
        } else {
            proof {
                assert(!out.resolved && out.body_i == bi && out.body_j == bj);
                assert(self.records() =~= old(self).records().update(i as int, out.body_i).update(
                    j as int,
                    out.body_j,
                ));
            }
        }
    }
}


impl RigidBodySystem {
    /// Advances the simulation by the elapsed time `dt`: the accumulator
    /// grows by `dt` and, while at least one body exists, each whole fixed
    /// step in it is simulated — one integration pass over every body, then
    /// every ordered pair tested and resolved in scan order. The final state
    /// is exactly `spec_substeps` iterated once per whole step in the
    /// accumulator, and the accumulator keeps the remainder.
    #[verifier::rlimit(100)]
    pub fn update(
        &mut self,
        dt: i64,
        transformation_system: &mut TransformationSystem,
        health_system: &mut crate::health::HealthSystem,
    )
        requires
            old(self).inv(),
            old(transformation_system).inv(),
            old(health_system).inv(),
            dt >= 0,
            forall|i: int|
                0 <= i < old(self).records().len() ==> old(transformation_system).spec_has(
                    (#[trigger] old(self).records()[i]).owner,
                ),
        ensures
            final(self).inv(),
            final(transformation_system).inv(),
            final(health_system).inv(),
            final(self).idx_map() == old(self).idx_map(),
            final(self).records().len() == old(self).records().len(),
            forall|t: int|
                0 <= t < old(self).records().len() ==> spec_same_config(
                    #[trigger] final(self).records()[t],
                    old(self).records()[t],
                ),
            final(transformation_system).idx_map() == old(transformation_system).idx_map(),
            final(transformation_system).records().len() == old(
                transformation_system,
            ).records().len(),
            forall|t: int|
                0 <= t < old(transformation_system).records().len() ==> {
                    let a = #[trigger] final(transformation_system).records()[t];
                    let b = old(transformation_system).records()[t];
                    a.owner == b.owner && a.scale == b.scale && a.pivot == b.pivot && a.rotation
                        == b.rotation
                },
            final(health_system).idx_map() == old(health_system).idx_map(),
            final(health_system).records().len() == old(health_system).records().len(),
            forall|t: int|
                0 <= t < old(health_system).records().len() ==> {
                    let a = #[trigger] final(health_system).records()[t];
                    let b = old(health_system).records()[t];
                    a.owner == b.owner && a.hitpoints.1 == b.hitpoints.1
                },
            ({
                let t = spec_fx_add(old(self).timer_acc() as int, dt as int);
                if old(self).records().len() > 0 {
                    final(self).timer_acc() as int == t % (PHYSICS_STEP as int)
                } else {
                    final(self).timer_acc() as int == t
                }
            }),
            ({
                let t = spec_fx_add(old(self).timer_acc() as int, dt as int);
                let k = if old(self).records().len() > 0 {
                    t / (PHYSICS_STEP as int)
                } else {
                    0
                };
                let st = spec_substeps(
                    old(self).records(),
                    old(transformation_system).records(),
                    old(health_system).records(),
                    old(transformation_system).idx_map(),
                    old(health_system).idx_map(),
                    k as nat,
                );
                final(self).records() == st.0 && final(transformation_system).records() == st.1
                    && final(health_system).records() == st.2
            }),
    {
        self.timer.0 = fx_add(self.timer.0, dt);
        let ghost t_total = self.timer_acc() as int;
        let ghost b0 = old(self).records();
        let ghost t0 = old(transformation_system).records();
        let ghost h0 = old(health_system).records();
        let ghost tm = old(transformation_system).idx_map();
        let ghost hm = old(health_system).idx_map();
        let ghost mut k_done: int = 0;
        let count = self.rigid_bodies.len();
        proof {
            assert(self.records() == old(self).records());
            assert(self.idx_map() == old(self).idx_map());
            assert(self.timer_acc() >= 0);
        }

        while self.timer.0 >= self.timer.1 && count > 0
            invariant
                self.inv(),
                transformation_system.inv(),
                health_system.inv(),
                b0 == old(self).records(),
                t0 == old(transformation_system).records(),
                h0 == old(health_system).records(),
                tm == old(transformation_system).idx_map(),
                hm == old(health_system).idx_map(),
                count == old(self).records().len(),
                self.records().len() == count,
                self.idx_map() == old(self).idx_map(),
                forall|t: int|
                    0 <= t < count ==> spec_same_config(
                        #[trigger] self.records()[t],
                        old(self).records()[t],
                    ),
                transformation_system.idx_map() == old(transformation_system).idx_map(),
                transformation_system.records().len() == old(
                    transformation_system,
                ).records().len(),
                forall|t: int|
                    0 <= t < old(transformation_system).records().len() ==> {
                        let a = #[trigger] transformation_system.records()[t];
                        let b = old(transformation_system).records()[t];
                        a.owner == b.owner && a.scale == b.scale && a.pivot == b.pivot
                            && a.rotation == b.rotation
                    },
                health_system.idx_map() == old(health_system).idx_map(),
                health_system.records().len() == old(health_system).records().len(),
                forall|t: int|
                    0 <= t < old(health_system).records().len() ==> {
                        let a = #[trigger] health_system.records()[t];
                        let b = old(health_system).records()[t];
                        a.owner == b.owner && a.hitpoints.1 == b.hitpoints.1
                    },
                forall|i: int|
                    0 <= i < count ==> old(transformation_system).spec_has(
                        (#[trigger] old(self).records()[i]).owner,
                    ),
                self.timer_acc() >= 0,
                t_total >= 0,
                0 <= k_done,
                self.timer_acc() as int == t_total - k_done * (PHYSICS_STEP as int),
                self.timer_acc() as int % (PHYSICS_STEP as int) == t_total % (PHYSICS_STEP as int),
                self.timer_acc() as int <= t_total,
                count == 0 ==> self.timer_acc() as int == t_total,
                ({
                    let st = spec_substeps(b0, t0, h0, tm, hm, k_done as nat);
                    self.records() == st.0 && transformation_system.records() == st.1
                        && health_system.records() == st.2
                }),
            decreases self.timer_acc(),
        {
            proof {
                vstd::arithmetic::div_mod::lemma_mod_sub_multiples_vanish(
                    self.timer_acc() as int,
                    PHYSICS_STEP as int,
                );
            }
            self.timer.0 = fx_sub(self.timer.0, self.timer.1);
            let ghost acc_now = self.timer_acc();
            let ghost pre_bodies = self.records();
            let ghost pre_ts = transformation_system.records();
            let ghost pre_hs = health_system.records();
            let ghost pre_tm = transformation_system.idx_map();

            proof {
                // each body's owner holds a distinct transform slot
                assert forall|a: int, b: int|
                    0 <= a < b < count implies tm[(#[trigger] pre_bodies[a]).owner@] != tm[(
                #[trigger] pre_bodies[b]).owner@] by {
                    assert(old(transformation_system).spec_has(old(self).records()[a].owner));
                    assert(old(transformation_system).spec_has(old(self).records()[b].owner));
                    assert(pre_bodies[a].owner == old(self).records()[a].owner);
                    assert(pre_bodies[b].owner == old(self).records()[b].owner);
                    if tm[pre_bodies[a].owner@] == tm[pre_bodies[b].owner@] {
                        assert(transformation_system.idx_map().contains_key(pre_bodies[a].owner@));
                        assert(transformation_system.idx_map().contains_key(pre_bodies[b].owner@));
                        let slot = tm[pre_bodies[a].owner@] as int;
                        assert(transformation_system.records()[slot].owner@ == pre_bodies[a].owner@);
                        assert(transformation_system.records()[slot].owner@ == pre_bodies[b].owner@);
                        assert(self.idx_map()[self.records()[a].owner@] as int == a);
                        assert(self.idx_map()[self.records()[b].owner@] as int == b);
                    }
                }
                assert forall|i: int|
                    0 <= i < count implies tm.contains_key((#[trigger] pre_bodies[i]).owner@)
                        && tm[pre_bodies[i].owner@] < pre_ts.len() by {
                    assert(old(transformation_system).spec_has(old(self).records()[i].owner));
                    assert(pre_bodies[i].owner == old(self).records()[i].owner);
                    assert(transformation_system.idx_map().contains_key(pre_bodies[i].owner@));
                }
            }

            self.update_colliders(0, count, transformation_system);

            let ghost ib = spec_integrated_bodies(pre_bodies, count as int);
            let ghost it = spec_integrated_transforms(pre_bodies, pre_ts, tm, count as int);
            proof {
                lemma_integrated_transforms_char(pre_bodies, pre_ts, tm, count as int);
                assert(self.records() =~= ib);
                assert forall|t: int|
                    0 <= t < pre_ts.len() implies transformation_system.records()[t] == it[t] by {
                    if exists|i: int|
                        0 <= i < count && tm[(#[trigger] pre_bodies[i]).owner@] as int == t {
                        let i = choose|i: int|
                            0 <= i < count && tm[(#[trigger] pre_bodies[i]).owner@] as int == t;
                        assert(transformation_system.records()[t] == (TransformationData {
                            position: spec_integrated_position(
                                pre_bodies[i],
                                Vec3fx { x: 0i64, y: GRAVITY_Y, z: 0i64 },
                                PHYSICS_STEP,
                                pre_ts[t].position,
                            ),
                            ..pre_ts[t]
                        }));
                    } else {
                        assert(transformation_system.records()[t] == pre_ts[t]);
                    }
                }
                assert(transformation_system.records() =~= it);
                assert forall|t: int| 0 <= t < count implies spec_same_config(
                    #[trigger] self.records()[t],
                    old(self).records()[t],
                ) by {
                    assert(self.records()[t] == spec_integrated_body(
                        pre_bodies[t],
                        Vec3fx { x: 0i64, y: GRAVITY_Y, z: 0i64 },
                        PHYSICS_STEP,
                    ) || self.records()[t] == pre_bodies[t]);
                }
                assert forall|t: int|
                    0 <= t < old(transformation_system).records().len() implies {
                        let a = #[trigger] transformation_system.records()[t];
                        let b = old(transformation_system).records()[t];
                        a.owner == b.owner && a.scale == b.scale && a.pivot == b.pivot
                            && a.rotation == b.rotation
                    } by {
                    if exists|i: int|
                        0 <= i < count && tm[(#[trigger] pre_bodies[i]).owner@] as int == t {
                    } else {
                        assert(transformation_system.records()[t] == pre_ts[t]);
                    }
                }
            }

            if count >= 1 {
                let scan_end = count - 1;
                for i in 0..scan_end
                    invariant
                        scan_end == count - 1,
                        self.inv(),
                        transformation_system.inv(),
                        health_system.inv(),
                        count == old(self).records().len(),
                        self.records().len() == count,
                        self.idx_map() == old(self).idx_map(),
                        tm == old(transformation_system).idx_map(),
                        hm == old(health_system).idx_map(),
                        forall|t: int|
                            0 <= t < count ==> spec_same_config(
                                #[trigger] self.records()[t],
                                old(self).records()[t],
                            ),
                        transformation_system.idx_map() == old(transformation_system).idx_map(),
                        transformation_system.records().len() == old(
                            transformation_system,
                        ).records().len(),
                        forall|t: int|
                            0 <= t < old(transformation_system).records().len() ==> {
                                let a = #[trigger] transformation_system.records()[t];
                                let b = old(transformation_system).records()[t];
                                a.owner == b.owner && a.scale == b.scale && a.pivot == b.pivot
                                    && a.rotation == b.rotation
                            },
                        health_system.idx_map() == old(health_system).idx_map(),
                        health_system.records().len() == old(health_system).records().len(),
                        forall|t: int|
                            0 <= t < old(health_system).records().len() ==> {
                                let a = #[trigger] health_system.records()[t];
                                let b = old(health_system).records()[t];
                                a.owner == b.owner && a.hitpoints.1 == b.hitpoints.1
                            },
                        forall|t: int|
                            0 <= t < count ==> old(transformation_system).spec_has(
                                (#[trigger] old(self).records()[t]).owner,
                            ),
                        self.timer_acc() == acc_now,
                        (acc_now as int) < t_total,
                        self.timer_acc() >= 0,
                        self.timer_acc() as int % (PHYSICS_STEP as int) == t_total % (
                        PHYSICS_STEP as int),
                        self.timer_acc() as int <= t_total,
                        ({
                            let st = spec_scan_bodies(ib, it, pre_hs, tm, hm, count as int, i as int);
                            self.records() == st.0 && transformation_system.records() == st.1
                                && health_system.records() == st.2
                        }),
                {
                    let ghost sb_i = self.records();
                    let ghost st_i = transformation_system.records();
                    let ghost sh_i = health_system.records();
                    let body_i = self.rigid_bodies[i];
                    proof {
                        assert(spec_same_config(self.records()[i as int], old(self).records()[
                        i as int]));
                        assert(old(transformation_system).spec_has(old(self).records()[
                        i as int].owner));
                        assert(body_i.owner == old(self).records()[i as int].owner);
                        assert(transformation_system.idx_map().contains_key(body_i.owner@));
                    }
                    let p = match transformation_system.get_position(&body_i.owner) {
                        Some(position) => position,
                        None => {
                            proof {
                                assert(false);
                            }
                            Vec3fx::zero()
                        },
                    };
                    let position_1 = p.add(body_i.offset);
                    proof {
                        assert(p == st_i[tm[body_i.owner@] as int].position);
                        assert(position_1 == spec_v3_add(
                            st_i[tm[sb_i[i as int].owner@] as int].position,
                            sb_i[i as int].offset,
                        ));
                    }

                    let jstart = i + 1;
                    for j in jstart..count
                        invariant
                            jstart == i + 1,
                            self.inv(),
                            transformation_system.inv(),
                            health_system.inv(),
                            i < count,
                            count == old(self).records().len(),
                            self.records().len() == count,
                            self.idx_map() == old(self).idx_map(),
                            tm == old(transformation_system).idx_map(),
                            hm == old(health_system).idx_map(),
                            forall|t: int|
                                0 <= t < count ==> spec_same_config(
                                    #[trigger] self.records()[t],
                                    old(self).records()[t],
                                ),
                            transformation_system.idx_map() == old(
                                transformation_system,
                            ).idx_map(),
                            transformation_system.records().len() == old(
                                transformation_system,
                            ).records().len(),
                            forall|t: int|
                                0 <= t < old(transformation_system).records().len() ==> {
                                    let a = #[trigger] transformation_system.records()[t];
                                    let b = old(transformation_system).records()[t];
                                    a.owner == b.owner && a.scale == b.scale && a.pivot == b.pivot
                                        && a.rotation == b.rotation
                                },
                            health_system.idx_map() == old(health_system).idx_map(),
                            health_system.records().len() == old(health_system).records().len(),
                            forall|t: int|
                                0 <= t < old(health_system).records().len() ==> {
                                    let a = #[trigger] health_system.records()[t];
                                    let b = old(health_system).records()[t];
                                    a.owner == b.owner && a.hitpoints.1 == b.hitpoints.1
                                },
                            forall|t: int|
                                0 <= t < count ==> old(transformation_system).spec_has(
                                    (#[trigger] old(self).records()[t]).owner,
                                ),
                            self.timer_acc() == acc_now,
                            (acc_now as int) < t_total,
                            self.timer_acc() >= 0,
                            self.timer_acc() as int % (PHYSICS_STEP as int) == t_total % (
                            PHYSICS_STEP as int),
                            self.timer_acc() as int <= t_total,
                            ({
                                let st = spec_scan_bodies(
                                    ib,
                                    it,
                                    pre_hs,
                                    tm,
                                    hm,
                                    count as int,
                                    i as int,
                                );
                                sb_i == st.0 && st_i == st.1 && sh_i == st.2
                            }),
                            position_1 == spec_v3_add(
                                st_i[tm[sb_i[i as int].owner@] as int].position,
                                sb_i[i as int].offset,
                            ),
                            ({
                                let stj = spec_scan_pairs(
                                    sb_i,
                                    st_i,
                                    sh_i,
                                    tm,
                                    hm,
                                    i as int,
                                    position_1,
                                    j as int,
                                );
                                self.records() == stj.0 && transformation_system.records() == stj.1
                                    && health_system.records() == stj.2
                            }),
                    {
                        let ghost prev = spec_scan_pairs(
                            sb_i,
                            st_i,
                            sh_i,
                            tm,
                            hm,
                            i as int,
                            position_1,
                            j as int,
                        );
                        proof {
                            assert(spec_same_config(self.records()[i as int], old(self).records()[
                            i as int]));
                            assert(spec_same_config(self.records()[j as int], old(self).records()[
                            j as int]));
                            assert(old(transformation_system).spec_has(old(self).records()[
                            i as int].owner));
                            assert(old(transformation_system).spec_has(old(self).records()[
                            j as int].owner));
                            assert(transformation_system.idx_map().contains_key(self.records()[
                            i as int].owner@));
                            assert(transformation_system.idx_map().contains_key(self.records()[
                            j as int].owner@));
                        }
                        self.resolve_pair(i, j, position_1, transformation_system, health_system);
                        proof {
                            let step = spec_pair_step(
                                prev.0,
                                prev.1,
                                prev.2,
                                tm,
                                hm,
                                i as int,
                                j as int,
                                position_1,
                            );
                            assert(self.records() == step.0);
                            assert(transformation_system.records() == step.1);
                            assert(health_system.records() == step.2);
                        }
                    }
                }
            }
            proof {
                let st1 = spec_substeps(b0, t0, h0, tm, hm, (k_done + 1) as nat);
                assert(st1 == spec_substep(pre_bodies, pre_ts, pre_hs, tm, hm));
                assert(pre_bodies.len() == count as int);
                assert(self.records() == st1.0 && transformation_system.records() == st1.1
                    && health_system.records() == st1.2);
                k_done = k_done + 1;
            }
        }
        proof {
            if count > 0 {
                vstd::arithmetic::div_mod::lemma_small_mod(
                    self.timer_acc() as nat,
                    PHYSICS_STEP as nat,
                );
                vstd::arithmetic::div_mod::lemma_fundamental_div_mod_converse(
                    t_total,
                    PHYSICS_STEP as int,
                    k_done,
                    self.timer_acc() as int,
                );
            } else {
                assert(k_done * (PHYSICS_STEP as int) == 0);
                assert(k_done == 0) by (nonlinear_arith)
                    requires
                        k_done * (PHYSICS_STEP as int) == 0,
                        k_done >= 0,
                ;
            }
        }
    }
}


/// The componentwise fixed-point reciprocal of a direction vector.
pub open spec fn spec_inv_dir(d: Vec3fx) -> Vec3fx {
    Vec3fx {
        x: spec_fx_div(FX_ONE as int, d.x as int) as i64,
        y: spec_fx_div(FX_ONE as int, d.y as int) as i64,
        z: spec_fx_div(FX_ONE as int, d.z as int) as i64,
    }
}

/// The slab test a ray cast applies to one box: the entry and exit times of
/// the ray through the box's x slab, compared after clamping the entry time
/// at zero. Only the x axis bounds the test; the y and z slabs do not
/// tighten it.
pub open spec fn spec_slab_hit(pos: Vec3fx, ext: Vec3fx, origin: Vec3fx, inv_dir: Vec3fx) -> bool {
    let t1 = spec_fx_mul(
        spec_fx_sub(spec_fx_sub(pos.x as int, ext.x as int), origin.x as int),
        inv_dir.x as int,
    );
    let t2 = spec_fx_mul(
        spec_fx_sub(spec_fx_add(pos.x as int, ext.x as int), origin.x as int),
        inv_dir.x as int,
    );
    let tmin = if t1 <= t2 {
        t1
    } else {
        t2
    };
    let tmax = if t1 >= t2 {
        t1
    } else {
        t2
    };
    tmax > (if tmin >= 0 {
        tmin
    } else {
        0
    })
}

impl RigidBodySystem {
    /// Whether a ray intersects a box, by the slab test the ray cast uses.
    /// `aabb` is (center position, half-extents); `ray` is (origin,
    /// direction, componentwise reciprocal of the direction). Only the
    /// x-axis slab bounds the result.
    pub fn ray_vs_aabb_intersecting(aabb: &(Vec3fx, Vec3fx), ray: (&Vec3fx, &Vec3fx, &Vec3fx)) -> (r:
        bool)
        ensures
            r == spec_slab_hit(aabb.0, aabb.1, *ray.0, *ray.2),
    {
        let t1 = fx_mul(fx_sub(fx_sub(aabb.0.x, aabb.1.x), ray.0.x), ray.2.x);
        let t2 = fx_mul(fx_sub(fx_add(aabb.0.x, aabb.1.x), ray.0.x), ray.2.x);
        let tmin = fx_min(t1, t2);
        let tmax = fx_max(t1, t2);

        tmax > fx_max(tmin, 0)
    }

    /// Whether the ray hits the body at the given slot: the body is not the
    /// excluded caller and the slab test passes against its box centered at
    /// its owner's transform position.
    pub open spec fn spec_ray_hit(
        &self,
        ts: TransformationSystem,
        origin: Vec3fx,
        inv_dir: Vec3fx,
        user: Entity,
        i: int,
    ) -> bool {
        let b = self.records()[i];
        b.owner != user && spec_slab_hit(
            ts.spec_record_of(b.owner).position,
            b.extents,
            origin,
            inv_dir,
        )
    }

    /// The squared distance from the ray origin to the body's owner's
    /// position.
    pub open spec fn spec_ray_dist(&self, ts: TransformationSystem, origin: Vec3fx, i: int) -> int {
        spec_v3_dot(
            spec_v3_sub(ts.spec_record_of(self.records()[i].owner).position, origin),
            spec_v3_sub(ts.spec_record_of(self.records()[i].owner).position, origin),
        )
    }

    /// Casts `ray` (origin, direction) through all bodies except the
    /// caller's own, and returns the squared distance and owner of the
    /// nearest hit box — the first-scanned one on a tie. The direction must
    /// have no zero component.
    pub fn ray_cast(
        &self,
        ray: (Vec3fx, Vec3fx),
        transformation_system: &TransformationSystem,
        user: Entity,
    ) -> (r: Option<(i64, Entity)>)
        requires
            self.inv(),
            transformation_system.inv(),
            ray.1.x != 0 && ray.1.y != 0 && ray.1.z != 0,
            forall|i: int|
                0 <= i < self.records().len() ==> transformation_system.spec_has(
                    (#[trigger] self.records()[i]).owner,
                ),
        ensures
            ({
                let ts = *transformation_system;
                let ivd = spec_inv_dir(ray.1);
                match r {
                    Option::None => forall|i: int|
                        0 <= i < self.records().len() ==> !self.spec_ray_hit(
                            ts,
                            ray.0,
                            ivd,
                            user,
                            i,
                        ),
                    Option::Some((d, e)) => {
                        &&& exists|i: int|
                            0 <= i < self.records().len() && #[trigger] self.spec_ray_hit(
                                ts,
                                ray.0,
                                ivd,
                                user,
                                i,
                            ) && self.spec_ray_dist(ts, ray.0, i) == d as int
                                && self.records()[i].owner == e && (forall|j: int|
                                0 <= j < i && #[trigger] self.spec_ray_hit(ts, ray.0, ivd, user, j)
                                    ==> self.spec_ray_dist(ts, ray.0, j) > d as int)
                        &&& forall|j: int|
                            0 <= j < self.records().len() && #[trigger] self.spec_ray_hit(
                                ts,
                                ray.0,
                                ivd,
                                user,
                                j,
                            ) ==> self.spec_ray_dist(ts, ray.0, j) >= d as int
                    },
                }
            }),
    {
        let inv = Vec3fx::new(
            fx_div(FX_ONE, ray.1.x),
            fx_div(FX_ONE, ray.1.y),
            fx_div(FX_ONE, ray.1.z),
        );
        let mut result: Option<(i64, Entity)> = None;
        let ghost ts = *transformation_system;
        let ghost ivd = spec_inv_dir(ray.1);
        let n = self.rigid_bodies.len();

        for p in 0..n
            invariant
                self.inv(),
                transformation_system.inv(),
                ts == *transformation_system,
                ivd == spec_inv_dir(ray.1),
                inv == ivd,
                n == self.records().len(),
                forall|i: int|
                    0 <= i < n ==> transformation_system.spec_has(
                        (#[trigger] self.records()[i]).owner,
                    ),
                match result {
                    Option::None => forall|i: int|
                        0 <= i < p ==> !self.spec_ray_hit(ts, ray.0, ivd, user, i),
                    Option::Some((d, e)) => {
                        &&& exists|i: int|
                            0 <= i < p && #[trigger] self.spec_ray_hit(ts, ray.0, ivd, user, i)
                                && self.spec_ray_dist(ts, ray.0, i) == d as int
                                && self.records()[i].owner == e && (forall|j: int|
                                0 <= j < i && #[trigger] self.spec_ray_hit(ts, ray.0, ivd, user, j)
                                    ==> self.spec_ray_dist(ts, ray.0, j) > d as int)
                        &&& forall|j: int|
                            0 <= j < p && #[trigger] self.spec_ray_hit(ts, ray.0, ivd, user, j)
                                ==> self.spec_ray_dist(ts, ray.0, j) >= d as int
                    },
                },
        {
            let collider = self.rigid_bodies[p];
            proof {
                assert(transformation_system.spec_has(collider.owner));
            }
            let pos = match transformation_system.get_position(&collider.owner) {
                Some(position) => position,
                None => {
                    proof {
                        assert(false);
                    }
                    Vec3fx::zero()
                },
            };
            let aabb = (pos, collider.extents);

            if !(collider.owner == user)
                && RigidBodySystem::ray_vs_aabb_intersecting(&aabb, (&ray.0, &ray.1, &inv)) {
                let distance = pos.sub(ray.0).length_squared();
                proof {
                    assert(self.spec_ray_hit(ts, ray.0, ivd, user, p as int));
                    assert(self.spec_ray_dist(ts, ray.0, p as int) == distance as int);
                }
                match result {
                    None => {
                        result = Some((distance, collider.owner));
                    },
                    Some(best) => {
                        if distance < best.0 {
                            result = Some((distance, collider.owner));
                        }
                    },
                }
            } else {
                proof {
                    assert(!self.spec_ray_hit(ts, ray.0, ivd, user, p as int));
                }
            }
        }
        result
    }
}


/// The scalar core of impulse conservation along one axis: for equal
/// inverse masses, zero restitution and a closing contact, the two velocity
/// components meet exactly after the impulse, whenever the closing speed is
/// even and its scaled value divides exactly by the mass sum.
proof fn lemma_axis_impulse(vic: int, vjc: int, m: int, s: int)
    requires
        s == 1 || s == -1,
        0 < m <= 0x10000000000,
        iabs(vic) <= 0x10000000000,
        iabs(vjc) <= 0x10000000000,
        s * (vjc - vic) < 0,
        (s * (vjc - vic)) % 2 == 0,
        ((-(s * (vjc - vic))) * (FX_ONE as int)) % (2 * m) == 0,
    ensures
        ({
            let nv = s * (vjc - vic);
            let msum = spec_fx_add(m, m);
            let mag = spec_fx_div(
                spec_fx_mul(fx_clamp(-spec_fx_add(FX_ONE as int, 0)), nv),
                msum,
            );
            let imp = spec_fx_mul(s * (FX_ONE as int), mag);
            let di = spec_fx_mul(imp, m);
            &&& spec_fx_add(vjc, di) == spec_fx_sub(vic, di)
            &&& spec_fx_add(vjc, di) + spec_fx_sub(vic, di) == vjc + vic
        }),
{
    let nv = s * (vjc - vic);
    assert(iabs(nv) <= 0x20000000000) by (nonlinear_arith)
        requires
            s == 1 || s == -1,
            iabs(vic) <= 0x10000000000,
            iabs(vjc) <= 0x10000000000,
            nv == s * (vjc - vic),
    ;
    let msum = spec_fx_add(m, m);
    assert(msum == 2 * m);
    assert(fx_clamp(-spec_fx_add(FX_ONE as int, 0)) == (-1) * (FX_ONE as int));
    crate::fixed::lemma_fx_mul_pm_one(nv, -1);
    assert(spec_fx_mul(fx_clamp(-spec_fx_add(FX_ONE as int, 0)), nv) == -nv);

    // the division is exact
    let num = (-nv) * (FX_ONE as int);
    assert(num > 0 && num <= 0x200000000000000) by (nonlinear_arith)
        requires
            nv < 0,
            iabs(nv) <= 0x20000000000,
            num == (-nv) * (FX_ONE as int),
    ;
    let q = num / (2 * m);
    vstd::arithmetic::div_mod::lemma_fundamental_div_mod(num, 2 * m);
    assert(num == 2 * m * q);
    assert(q >= 0 && q <= num) by (nonlinear_arith)
        requires
            num == 2 * m * q,
            num > 0,
            m > 0,
    ;
    assert(tz_div(num, 2 * m) == q) by {
        assert(iabs(num) == num && iabs(2 * m) == 2 * m);
    }
    let mag = spec_fx_div(-nv, msum);
    assert(mag == q);

    // the rescaling of the per-body impulse is exact
    crate::fixed::lemma_fx_mul_pm_one(q, s);
    let imp = spec_fx_mul(s * (FX_ONE as int), mag);
    assert(imp == s * q);
    let delta = (-nv) / 2;
    vstd::arithmetic::div_mod::lemma_fundamental_div_mod(-nv, 2);
    assert((-nv) % 2 == 0) by (nonlinear_arith)
        requires
            nv % 2 == 0,
    ;
    assert(-nv == 2 * delta);
    assert(q * m == delta * (FX_ONE as int)) by (nonlinear_arith)
        requires
            num == 2 * m * q,
            num == (-nv) * (FX_ONE as int),
            -nv == 2 * delta,
    ;
    assert(delta > 0 && delta <= 0x10000000000) by (nonlinear_arith)
        requires
            -nv == 2 * delta,
            nv < 0,
            iabs(nv) <= 0x20000000000,
    ;
    let di = spec_fx_mul(imp, m);
    assert((s * q) * m == (s * delta) * (FX_ONE as int)) by (nonlinear_arith)
        requires
            q * m == delta * (FX_ONE as int),
            s == 1 || s == -1,
    ;
    crate::fixed::lemma_tz_scale_exact(s * delta, FX_ONE as int);
    assert(iabs(s * delta) <= 0x10000000000) by (nonlinear_arith)
        requires
            s == 1 || s == -1,
            0 < delta <= 0x10000000000,
    ;
    assert(di == s * delta);

    // both velocities land on the same value
    assert(spec_fx_add(vjc, di) == vjc + s * delta && spec_fx_sub(vic, di) == vic - s * delta)
        by (nonlinear_arith)
        requires
            di == s * delta,
            s == 1 || s == -1,
            0 < delta <= 0x10000000000,
            iabs(vic) <= 0x10000000000,
            iabs(vjc) <= 0x10000000000,
    ;
    assert(vjc + s * delta == vic - s * delta) by (nonlinear_arith)
        requires
            s == 1 || s == -1,
            s * (vjc - vic) == nv,
            -nv == 2 * delta,
    ;
}

/// A static body never moves: a pair resolution leaves a zero-inverse-mass
/// body's velocity untouched and applies it no positional correction, since
/// both scale by the inverse mass.
pub proof fn lemma_static_body_unmoved(bi: RigidBody, bj: RigidBody, p1: Vec3fx, p2: Vec3fx)
    ensures
        ({
            let out = spec_pair_outcome(bi, bj, p1, p2);
            &&& (bi.inv_mass == 0 ==> out.body_i.velocity == bi.velocity && out.corr_i == (Vec3fx {
                x: 0i64,
                y: 0i64,
                z: 0i64,
            }))
            &&& (bj.inv_mass == 0 ==> out.body_j.velocity == bj.velocity && out.corr_j == (Vec3fx {
                x: 0i64,
                y: 0i64,
                z: 0i64,
            }))
        }),
{
    let out = spec_pair_outcome(bi, bj, p1, p2);
    if !(bi.inv_mass == 0 && bj.inv_mass == 0) && spec_manifold(bi, bj, p1, p2) is Some {
        let man = spec_manifold(bi, bj, p1, p2)->Some_0;
        let nv = spec_v3_dot(spec_v3_sub(bj.velocity, bi.velocity), man.normal);
        if nv < 0 {
            let e = if bi.elasticity >= bj.elasticity {
                bi.elasticity
            } else {
                bj.elasticity
            };
            let msum = spec_fx_add(bi.inv_mass as int, bj.inv_mass as int);
            let mag = spec_fx_div(
                spec_fx_mul(fx_clamp(-spec_fx_add(FX_ONE as int, e as int)), nv),
                msum,
            );
            let impulse = spec_v3_scale(man.normal, mag);
            let mf = spec_fx_div(FX_ONE as int, msum);
            crate::fixed::lemma_fx_mul_zero(impulse.x as int);
            crate::fixed::lemma_fx_mul_zero(impulse.y as int);
            crate::fixed::lemma_fx_mul_zero(impulse.z as int);
            crate::fixed::lemma_fx_mul_zero(spec_fx_mul(man.normal.x as int, mf));
            crate::fixed::lemma_fx_mul_zero(spec_fx_mul(man.normal.y as int, mf));
            crate::fixed::lemma_fx_mul_zero(spec_fx_mul(man.normal.z as int, mf));
            crate::fixed::lemma_fx_mul_zero(man.penetration as int);
        }
    }
}

/// Impulse conservation: resolving a closing contact of two dynamic bodies
/// of equal mass and zero elasticity leaves the post-impulse relative
/// velocity along the contact normal exactly zero, and the componentwise sum
/// of the two velocities unchanged (momentum, for equal masses), whenever
/// the closing speed is even (in fixed-point units) and its scaled value
/// divides exactly by the summed inverse masses.
pub proof fn lemma_impulse_conservation(bi: RigidBody, bj: RigidBody, p1: Vec3fx, p2: Vec3fx)
    requires
        bi.inv_mass == bj.inv_mass,
        0 < bi.inv_mass as int <= 0x10000000000,
        bi.elasticity == 0,
        bj.elasticity == 0,
        spec_manifold(bi, bj, p1, p2) is Some,
        iabs(bi.velocity.x as int) <= 0x10000000000,
        iabs(bi.velocity.y as int) <= 0x10000000000,
        iabs(bi.velocity.z as int) <= 0x10000000000,
        iabs(bj.velocity.x as int) <= 0x10000000000,
        iabs(bj.velocity.y as int) <= 0x10000000000,
        iabs(bj.velocity.z as int) <= 0x10000000000,
        ({
            let man = spec_manifold(bi, bj, p1, p2)->Some_0;
            let nv = spec_v3_dot(spec_v3_sub(bj.velocity, bi.velocity), man.normal);
            nv < 0 && nv % 2 == 0 && ((-nv) * (FX_ONE as int)) % (2 * (bi.inv_mass as int)) == 0
        }),
    ensures
        ({
            let man = spec_manifold(bi, bj, p1, p2)->Some_0;
            let out = spec_pair_outcome(bi, bj, p1, p2);
            &&& out.resolved
            &&& spec_v3_dot(spec_v3_sub(out.body_j.velocity, out.body_i.velocity), man.normal)
                == 0
            &&& out.body_i.velocity.x as int + out.body_j.velocity.x as int == bi.velocity.x as int
                + bj.velocity.x as int
            &&& out.body_i.velocity.y as int + out.body_j.velocity.y as int == bi.velocity.y as int
                + bj.velocity.y as int
            &&& out.body_i.velocity.z as int + out.body_j.velocity.z as int == bi.velocity.z as int
                + bj.velocity.z as int
        }),
{
    let man = spec_manifold(bi, bj, p1, p2)->Some_0;
    let n = man.normal;
    let out = spec_pair_outcome(bi, bj, p1, p2);
    let m = bi.inv_mass as int;
    assert(crate::math::spec_axis_unit(n));
    let diff = spec_v3_sub(bj.velocity, bi.velocity);
    crate::math::lemma_dot_axis_unit(diff, n);
    let nv = spec_v3_dot(diff, n);
    crate::fixed::lemma_fx_mul_zero(spec_fx_div(
        spec_fx_mul(fx_clamp(-spec_fx_add(FX_ONE as int, 0)), nv),
        spec_fx_add(m, m),
    ));
    let diff2 = spec_v3_sub(out.body_j.velocity, out.body_i.velocity);
    if n.x != 0 {
        let s: int = if n.x > 0 {
            1
        } else {
            -1
        };
        assert(n.x as int == s * (FX_ONE as int)) by (nonlinear_arith)
            requires
                s == 1 && n.x == FX_ONE || s == -1 && n.x as int == -(FX_ONE as int),
        ;
        assert(nv == s * (bj.velocity.x as int - bi.velocity.x as int)) by (nonlinear_arith)
            requires
                nv == crate::math::spec_axis_val(diff, n),
                s == 1 && n.x > 0 || s == -1 && !(n.x > 0),
                n.x != 0,
                diff.x as int == bj.velocity.x as int - bi.velocity.x as int,
        ;
        lemma_axis_impulse(bi.velocity.x as int, bj.velocity.x as int, m, s);
        crate::fixed::lemma_fx_mul_zero(m);
        crate::math::lemma_dot_axis_unit(diff2, n);
        assert(diff2.x == 0);
    } else if n.y != 0 {
        let s: int = if n.y > 0 {
            1
        } else {
            -1
        };
        assert(n.y as int == s * (FX_ONE as int)) by (nonlinear_arith)
            requires
                s == 1 && n.y == FX_ONE || s == -1 && n.y as int == -(FX_ONE as int),
        ;
        assert(nv == s * (bj.velocity.y as int - bi.velocity.y as int)) by (nonlinear_arith)
            requires
                nv == crate::math::spec_axis_val(diff, n),
                s == 1 && n.y > 0 || s == -1 && !(n.y > 0),
                n.x == 0,
                n.y != 0,
                diff.y as int == bj.velocity.y as int - bi.velocity.y as int,
        ;
        lemma_axis_impulse(bi.velocity.y as int, bj.velocity.y as int, m, s);
        crate::fixed::lemma_fx_mul_zero(m);
        crate::math::lemma_dot_axis_unit(diff2, n);
        assert(diff2.y == 0);
    } else {
        let s: int = if n.z > 0 {
            1
        } else {
            -1
        };
        assert(n.z as int == s * (FX_ONE as int)) by (nonlinear_arith)
            requires
                s == 1 && n.z == FX_ONE || s == -1 && n.z as int == -(FX_ONE as int),
        ;
        assert(nv == s * (bj.velocity.z as int - bi.velocity.z as int)) by (nonlinear_arith)
            requires
                nv == crate::math::spec_axis_val(diff, n),
                s == 1 && n.z > 0 || s == -1 && !(n.z > 0),
                n.x == 0,
                n.y == 0,
                n.z != 0,
                diff.z as int == bj.velocity.z as int - bi.velocity.z as int,
        ;
        lemma_axis_impulse(bi.velocity.z as int, bj.velocity.z as int, m, s);
        crate::fixed::lemma_fx_mul_zero(m);
        crate::math::lemma_dot_axis_unit(diff2, n);
        assert(diff2.z == 0);
    }
}

} // verus!
