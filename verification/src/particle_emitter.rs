//! Particle emitters: each emitter owns a pool of recycled entities that it
//! wires with transformation, rigid-body and drawable records at build time,
//! then activates one pooled particle per emission step with a random
//! lifetime and velocity, and deactivates particles whose lifetime has run
//! out. Emitters follow the engine's component-store pattern.

use vstd::prelude::*;

use std::collections::HashMap;

use crate::drawable::DrawableBuilder;
use crate::drawable::DrawableSystem;
use crate::entity::gen_of;
use crate::entity::index_of;
use crate::entity::Entity;
use crate::entity::EntityManager;
use crate::entity::lemma_alive_same_index_same_handle;
use crate::entity::ENTITY_INDEX_LIMIT;
use crate::fixed::fx_add;
use crate::fixed::fx_div;
use crate::fixed::fx_mul;
use crate::fixed::fx_sub;
use crate::fixed::fx_trunc;
use crate::fixed::FX_HALF;
use crate::fixed::FX_ONE;
use crate::fnv_map::map_contains;
use crate::fnv_map::map_get;
use crate::fnv_map::map_insert;
use crate::fnv_map::map_remove;
use crate::fnv_map::new_index_map;
use crate::math::Quatfx;
use crate::math::Vec3fx;
use crate::range::Range;
use crate::fixed::spec_fx_add;
use crate::fixed::spec_fx_div;
use crate::fixed::spec_fx_mul;
use crate::fixed::spec_fx_sub;
use crate::rigid_body::RigidBody;
use crate::rigid_body::RigidBodyBuilder;
use crate::rigid_body::RigidBodySystem;
use crate::transformation::TransformationData;
use crate::transformation::TransformationBuilder;
use crate::transformation::TransformationSystem;

verus! {

/// The emission step: one fiftieth of a second in fixed point (truncated).
pub const EMITTER_STEP: i64 = 1310;

/// The shortest particle lifetime: a quarter second.
pub const PARTICLE_LIFETIME_MIN: i64 = 16384;

/// The longest particle lifetime: half a second.
pub const PARTICLE_LIFETIME_MAX: i64 = 32768;

/// Half-width of the random velocity range on each axis: a quarter unit.
pub const PARTICLE_VELOCITY_SPREAD: i64 = 16384;

/// Particle render scale on each axis (1/64 unit).
pub const PARTICLE_SCALE: i64 = 1024;

/// Particle box half-extent on each axis (1/128 unit).
pub const PARTICLE_EXTENT: i64 = 512;

/// Particle restitution: a quarter.
pub const PARTICLE_ELASTICITY: i64 = 16384;

/// Particle mass: the smallest representable approximation of a
/// ten-thousandth of a unit.
pub const PARTICLE_MASS: i64 = 7;

/// The pool size every emitter is built with: the longest lifetime times the
/// emission rate, rounded.
pub const PARTICLE_POOL: usize = 25;

/// One emitter: its pooled particles as (entity, age, lifetime) triples, the
/// lifetime and per-axis velocity ranges particles draw from, and the
/// emission accumulator.
pub struct ParticleEmitterData {
    pub owner: Entity,
    pub particle_lifetime: Range,
    pub particle_velocity: (Range, Range, Range),
    pub emission_timer: (i64, i64),
    pub particles: Vec<(Entity, i64, i64)>,
}

/// Configuration for a new particle emitter. Every setting of an emitter is
/// fixed by the engine, so there is nothing to configure yet.
pub struct ParticleEmitterBuilder {}

impl ParticleEmitterBuilder {
    /// A builder with every field left to its default.
    pub fn new() -> ParticleEmitterBuilder {
        ParticleEmitterBuilder {  }
    }
}

/// The transformation record every pooled particle is wired with: particle
/// scale, everything else at its default.
pub open spec fn spec_particle_transform(p: Entity) -> TransformationData {
    TransformationData {
        owner: p,
        position: Vec3fx { x: 0i64, y: 0i64, z: 0i64 },
        scale: Vec3fx { x: PARTICLE_SCALE, y: PARTICLE_SCALE, z: PARTICLE_SCALE },
        pivot: Vec3fx { x: 0i64, y: 0i64, z: 0i64 },
        rotation: Quatfx { x: 0i64, y: 0i64, z: 0i64, w: crate::fixed::FX_ONE },
    }
}

/// The rigid body every pooled particle is wired with: a tiny, light,
/// slightly elastic, gravity-immune box.
pub open spec fn spec_particle_body(p: Entity) -> RigidBody {
    RigidBody {
        owner: p,
        offset: Vec3fx { x: 0i64, y: 0i64, z: 0i64 },
        extents: Vec3fx { x: PARTICLE_EXTENT, y: PARTICLE_EXTENT, z: PARTICLE_EXTENT },
        velocity: Vec3fx { x: 0i64, y: 0i64, z: 0i64 },
        locomotion: Vec3fx { x: 0i64, y: 0i64, z: 0i64 },
        elasticity: PARTICLE_ELASTICITY,
        inv_mass: spec_fx_div(FX_ONE as int, PARTICLE_MASS as int) as i64,
        gravity_immune: true,
        foothold: false,
        damage: 0i64,
        die_on_collision: false,
    }
}

/// One pooled particle, fully wired: a zeroed (entity, age, lifetime)
/// triple whose entity is alive and inactive in the manager and carries a
/// transformation, rigid-body and drawable record. The record contents are
/// pinned wherever the stores did not already map the handle beforehand (a
/// mapped handle keeps its record, as component attachment never overwrites).
pub open spec fn spec_particle_wired(
    p: (Entity, i64, i64),
    ts0: TransformationSystem,
    rbs0: RigidBodySystem,
    ds0: DrawableSystem,
    em: EntityManager,
    ts: TransformationSystem,
    rbs: RigidBodySystem,
    ds: DrawableSystem,
    drawable: DrawableBuilder,
) -> bool {
    &&& p.1 == 0 && p.2 == 0
    &&& index_of(p.0@) < em.gens().len()
    &&& em.spec_alive(p.0)
    &&& !em.actives()[index_of(p.0@)]
    &&& ts.spec_has(p.0)
    &&& rbs.spec_has(p.0)
    &&& ds.spec_has(p.0)
    &&& !ts0.spec_has(p.0) ==> ts.spec_record_of(p.0) == spec_particle_transform(p.0)
    &&& !rbs0.spec_has(p.0) ==> rbs.spec_record_of(p.0) == spec_particle_body(p.0)
    &&& !ds0.spec_has(p.0) ==> ds.spec_record_of(p.0) == crate::drawable::spec_build(drawable, p.0)
}

/// The ranges every emitter is built with.
pub open spec fn spec_emitter_lifetime_range() -> Range {
    Range {
        min: PARTICLE_LIFETIME_MIN,
        diff: spec_fx_sub(PARTICLE_LIFETIME_MAX as int, PARTICLE_LIFETIME_MIN as int) as i64,
    }
}

/// The velocity range every emitter is built with, on each axis.
pub open spec fn spec_emitter_velocity_range() -> Range {
    Range {
        min: (-PARTICLE_VELOCITY_SPREAD) as i64,
        diff: spec_fx_sub(
            PARTICLE_VELOCITY_SPREAD as int,
            -(PARTICLE_VELOCITY_SPREAD as int),
        ) as i64,
    }
}

/// How one particle's (age, lifetime) pair may evolve in one emitter step:
/// untouched, aged by the elapsed time, or reset by an activation whose
/// lifetime was drawn from the range.
pub open spec fn spec_particle_ticked(
    o: (Entity, i64, i64),
    f: (Entity, i64, i64),
    dt: i64,
    lifetime: Range,
) -> bool {
    &&& f.0 == o.0
    &&& ((f.1 == o.1 && f.2 == o.2) || (f.1 as int == spec_fx_add(o.1 as int, dt as int) && f.2
        == o.2) || (f.1 == 0 && exists|ff: int|
        0 <= ff <= FX_ONE as int && f.2 as int == spec_fx_add(
            lifetime.min as int,
            #[trigger] spec_fx_mul(ff, lifetime.diff as int),
        )))
}

/// How one rigid-body row may evolve in one emitter step: untouched, or its
/// velocity alone rewritten on a pooled particle's body, each component
/// drawn from the matching per-axis range.
pub open spec fn spec_body_row_ticked(
    b: RigidBody,
    a: RigidBody,
    pool: Seq<(Entity, i64, i64)>,
    vr: (Range, Range, Range),
) -> bool {
    a == b || ({
        &&& a == (RigidBody { velocity: a.velocity, ..b })
        &&& exists|j: int| 0 <= j < pool.len() && (#[trigger] pool[j]).0 == b.owner
        &&& exists|f: int|
            0 <= f <= FX_ONE as int && a.velocity.x as int == spec_fx_add(
                vr.0.min as int,
                #[trigger] spec_fx_mul(f, vr.0.diff as int),
            )
        &&& exists|f: int|
            0 <= f <= FX_ONE as int && a.velocity.y as int == spec_fx_add(
                vr.1.min as int,
                #[trigger] spec_fx_mul(f, vr.1.diff as int),
            )
        &&& exists|f: int|
            0 <= f <= FX_ONE as int && a.velocity.z as int == spec_fx_add(
                vr.2.min as int,
                #[trigger] spec_fx_mul(f, vr.2.diff as int),
            )
    })
}

/// How one transform row may evolve in one emitter step: untouched, or its
/// position alone rewritten on a pooled particle's slot.
pub open spec fn spec_transform_row_ticked(
    b: TransformationData,
    a: TransformationData,
    pool: Seq<(Entity, i64, i64)>,
) -> bool {
    a == b || ({
        &&& a == (TransformationData { position: a.position, ..b })
        &&& exists|j: int| 0 <= j < pool.len() && (#[trigger] pool[j]).0 == b.owner
    })
}

/// How many of the first `n` pooled particles sit at the given slot index.
pub open spec fn spec_pool_hits(particles: Seq<(Entity, i64, i64)>, n: int, idx: int) -> int
    decreases n,
{
    if n <= 0 {
        0
    } else {
        spec_pool_hits(particles, n - 1, idx) + if index_of(particles[n - 1].0@) == idx {
            1int
        } else {
            0int
        }
    }
}

/// The hit count lies between zero and the prefix length.
proof fn lemma_pool_hits_bounds(particles: Seq<(Entity, i64, i64)>, n: int, idx: int)
    requires
        0 <= n,
    ensures
        0 <= spec_pool_hits(particles, n, idx) <= n,
    decreases n,
{
    if n > 0 {
        lemma_pool_hits_bounds(particles, n - 1, idx);
    }
}

/// A slot holding some pooled particle is hit at least once.
proof fn lemma_pool_hits_positive(particles: Seq<(Entity, i64, i64)>, n: int, idx: int, j: int)
    requires
        0 <= j < n,
        index_of(particles[j].0@) == idx,
    ensures
        spec_pool_hits(particles, n, idx) >= 1,
    decreases n,
{
    lemma_pool_hits_bounds(particles, n - 1, idx);
    if j < n - 1 {
        lemma_pool_hits_positive(particles, n - 1, idx, j);
    }
}

/// A slot holding no pooled particle is never hit.
proof fn lemma_pool_hits_zero(particles: Seq<(Entity, i64, i64)>, n: int, idx: int)
    requires
        0 <= n,
        forall|j: int| 0 <= j < n ==> index_of((#[trigger] particles[j]).0@) != idx,
    ensures
        spec_pool_hits(particles, n, idx) == 0,
    decreases n,
{
    if n > 0 {
        lemma_pool_hits_zero(particles, n - 1, idx);
    }
}

/// Advancing a reduced value by one advances the value modulo the divisor.
proof fn lemma_mod_bump(x: int, m: int)
    requires
        m > 0,
    ensures
        ((x % m) + 1) % m == (x + 1) % m,
{
    vstd::arithmetic::div_mod::lemma_fundamental_div_mod(x, m);
    vstd::arithmetic::div_mod::lemma_mod_multiples_vanish(x / m, x % m + 1, m);
}

/// The particle-emitter component store.
pub struct ParticleEmitterSystem {
    map: HashMap<u32, usize, fnv::FnvBuildHasher>,
    data: Vec<ParticleEmitterData>,
}

impl ParticleEmitterSystem {
    /// The sparse side: raw entity handle to dense index.
    pub closed spec fn idx_map(&self) -> Map<u32, usize> {
        self.map@
    }

    /// The dense record array.
    pub closed spec fn records(&self) -> Seq<ParticleEmitterData> {
        self.data@
    }

    /// Well-formedness: map and array describe each other.
    pub open spec fn inv(&self) -> bool {
        &&& forall|k: u32| #[trigger]
            self.idx_map().contains_key(k) ==> self.idx_map()[k] < self.records().len()
                && self.records()[self.idx_map()[k] as int].owner@ == k
        &&& forall|i: int|
            0 <= i < self.records().len() ==> self.idx_map().contains_key(
                #[trigger] self.records()[i].owner@,
            ) && self.idx_map()[self.records()[i].owner@] as int == i
    }

    /// Every pooled particle of every emitter names an existing slot of the
    /// manager.
    pub open spec fn particles_in_range(&self, em: EntityManager) -> bool {
        forall|i: int, j: int|
            0 <= i < self.records().len() && 0 <= j < self.records()[i].particles@.len()
                ==> index_of((#[trigger] self.records()[i].particles@[j]).0@) < em.gens().len()
    }

    /// Whether the entity has a particle emitter.
    pub open spec fn spec_has(&self, e: Entity) -> bool {
        self.idx_map().contains_key(e@)
    }

    /// An empty store.
    pub fn new() -> (r: ParticleEmitterSystem)
        ensures
            r.inv(),
            r.records().len() == 0,
            r.idx_map() =~= Map::<u32, usize>::empty(),
    {
        let s = ParticleEmitterSystem { map: new_index_map(), data: Vec::new() };
        proof {
            assert(s.idx_map() =~= Map::<u32, usize>::empty());
        }
        s
    }

    /// Whether the entity has a particle emitter.
    pub fn entity_has_particle_emitter(&self, entity: &Entity) -> (r: bool)
        requires
            self.inv(),
        ensures
            r == self.spec_has(*entity),
    {
        let k: u32 = entity.raw();
        map_contains(&self.map, k)
    }

    /// Attaches an emitter to the entity, creating its pool of inactive
    /// particle entities, each wired with a transformation, a rigid body and
    /// a drawable built from the given template. An entity that already has
    /// an emitter is ignored. Every handle that existed before keeps its
    /// aliveness.
    pub fn add_particle_emitter_to_entity(
        &mut self,
        entity: &Entity,
        _init_data: ParticleEmitterBuilder,
        particle_drawable: DrawableBuilder,
        entity_manager: &mut EntityManager,
        transformation_system: &mut TransformationSystem,
        rigid_body_system: &mut RigidBodySystem,
        drawable_system: &mut DrawableSystem,
    )
        requires
            old(self).inv(),
            old(entity_manager).inv(),
            old(transformation_system).inv(),
            old(rigid_body_system).inv(),
            old(drawable_system).inv(),
            old(entity_manager).gens().len() + 32 <= ENTITY_INDEX_LIMIT as int,
        ensures
            final(self).inv(),
            final(entity_manager).inv(),
            final(transformation_system).inv(),
            final(rigid_body_system).inv(),
            final(drawable_system).inv(),
            final(self).idx_map().contains_key(entity@),
            forall|e2: Entity|
                index_of(e2@) < old(entity_manager).gens().len() ==> (
                #[trigger] final(entity_manager).spec_alive(e2)) == old(entity_manager).spec_alive(e2),
            final(entity_manager).gens().len() >= old(entity_manager).gens().len(),
            forall|k2: u32| #[trigger]
                old(self).idx_map().contains_key(k2) ==> final(self).idx_map().contains_key(k2),
            forall|k2: u32| #[trigger]
                old(transformation_system).idx_map().contains_key(k2) ==> (
                final(transformation_system).idx_map().contains_key(k2)
                    && final(transformation_system).records()[final(transformation_system).idx_map()[k2] as int]
                    == old(transformation_system).records()[old(transformation_system).idx_map()[k2] as int]),
            forall|k2: u32| #[trigger]
                old(rigid_body_system).idx_map().contains_key(k2) ==> (
                final(rigid_body_system).idx_map().contains_key(k2)
                    && final(rigid_body_system).records()[final(rigid_body_system).idx_map()[k2] as int]
                    == old(rigid_body_system).records()[old(rigid_body_system).idx_map()[k2] as int]),
            forall|k2: u32| #[trigger]
                old(drawable_system).idx_map().contains_key(k2) ==> (
                final(drawable_system).idx_map().contains_key(k2)
                    && final(drawable_system).records()[final(drawable_system).idx_map()[k2] as int]
                    == old(drawable_system).records()[old(drawable_system).idx_map()[k2] as int]),
            if old(self).spec_has(*entity) {
                &&& final(self).records() =~= old(self).records()
                &&& final(self).idx_map() =~= old(self).idx_map()
            } else {
                ({
                    let rec = final(self).records()[old(self).records().len() as int];
                    &&& final(self).records().len() == old(self).records().len() + 1
                    &&& forall|i: int|
                        0 <= i < old(self).records().len() ==> final(self).records()[i] == old(self).records()[i]
                    &&& final(self).idx_map() =~= old(self).idx_map().insert(
                        entity@,
                        old(self).records().len() as usize,
                    )
                    &&& rec.owner == *entity
                    &&& rec.particles@.len() == PARTICLE_POOL
                    &&& rec.particle_lifetime == spec_emitter_lifetime_range()
                    &&& rec.particle_velocity.0 == spec_emitter_velocity_range()
                    &&& rec.particle_velocity.1 == spec_emitter_velocity_range()
                    &&& rec.particle_velocity.2 == spec_emitter_velocity_range()
                    &&& rec.emission_timer == (0i64, EMITTER_STEP)
                    &&& forall|j: int|
                        0 <= j < rec.particles@.len() ==> spec_particle_wired(
                            #[trigger] rec.particles@[j],
                            *old(transformation_system),
                            *old(rigid_body_system),
                            *old(drawable_system),
                            *final(entity_manager),
                            *final(transformation_system),
                            *final(rigid_body_system),
                            *final(drawable_system),
                            particle_drawable,
                        )
                })
            },
    {
        if self.entity_has_particle_emitter(entity) {
            // a second attach attempt is a designed no-op
        } else {
            let emitter = ParticleEmitterSystem::build_emitter(
                *entity,
                particle_drawable,
                entity_manager,
                transformation_system,
                rigid_body_system,
                drawable_system,
            );
            self.data.push(emitter);
            let k: u32 = entity.raw();
            let slot: usize = self.data.len() - 1;
            map_insert(&mut self.map, k, slot);
            proof {
                assert(self.records() =~= old(self).records().push(
                    self.records().last(),
                ));
                assert(self.records().last().owner == *entity);
                assert(self.idx_map() =~= old(self).idx_map().insert(entity@, slot));
                assert(forall|k2: u32| #[trigger]
                    self.idx_map().contains_key(k2) ==> self.idx_map()[k2] < self.records().len()
                        && self.records()[self.idx_map()[k2] as int].owner@ == k2);
                assert(forall|i: int|
                    0 <= i < self.records().len() ==> self.idx_map().contains_key(
                        #[trigger] self.records()[i].owner@,
                    ) && self.idx_map()[self.records()[i].owner@] as int == i);
            }
        }
    }

    /// Builds one emitter: computes the pool size from the longest lifetime
    /// and the emission rate, then creates that many inactive entities, each
    /// with a particle-sized transformation, a light elastic gravity-immune
    /// rigid body, and a drawable from the template.
    fn build_emitter(
        owner: Entity,
        particle_drawable: DrawableBuilder,
        entity_manager: &mut EntityManager,
        transformation_system: &mut TransformationSystem,
        rigid_body_system: &mut RigidBodySystem,
        drawable_system: &mut DrawableSystem,
    ) -> (r: ParticleEmitterData)
        requires
            old(entity_manager).inv(),
            old(transformation_system).inv(),
            old(rigid_body_system).inv(),
            old(drawable_system).inv(),
            old(entity_manager).gens().len() + 32 <= ENTITY_INDEX_LIMIT as int,
        ensures
            final(entity_manager).inv(),
            final(transformation_system).inv(),
            final(rigid_body_system).inv(),
            final(drawable_system).inv(),
            r.owner == owner,
            forall|e2: Entity|
                index_of(e2@) < old(entity_manager).gens().len() ==> (
                #[trigger] final(entity_manager).spec_alive(e2)) == old(entity_manager).spec_alive(e2),
            final(entity_manager).gens().len() >= old(entity_manager).gens().len(),
            r.particles@.len() == PARTICLE_POOL,
            r.particle_lifetime == spec_emitter_lifetime_range(),
            r.particle_velocity.0 == spec_emitter_velocity_range(),
            r.particle_velocity.1 == spec_emitter_velocity_range(),
            r.particle_velocity.2 == spec_emitter_velocity_range(),
            r.emission_timer == (0i64, EMITTER_STEP),
            forall|j: int|
                0 <= j < r.particles@.len() ==> spec_particle_wired(
                    #[trigger] r.particles@[j],
                    *old(transformation_system),
                    *old(rigid_body_system),
                    *old(drawable_system),
                    *final(entity_manager),
                    *final(transformation_system),
                    *final(rigid_body_system),
                    *final(drawable_system),
                    particle_drawable,
                ),
            forall|k2: u32| #[trigger]
                old(transformation_system).idx_map().contains_key(k2) ==> (
                final(transformation_system).idx_map().contains_key(k2)
                    && final(transformation_system).records()[final(transformation_system).idx_map()[k2] as int] == old(transformation_system).records()[old(transformation_system).idx_map()[k2] as int]),
            forall|k2: u32| #[trigger]
                old(rigid_body_system).idx_map().contains_key(k2) ==> (
                final(rigid_body_system).idx_map().contains_key(k2)
                    && final(rigid_body_system).records()[final(rigid_body_system).idx_map()[k2] as int] == old(rigid_body_system).records()[old(rigid_body_system).idx_map()[k2] as int]),
            forall|k2: u32| #[trigger]
                old(drawable_system).idx_map().contains_key(k2) ==> (
                final(drawable_system).idx_map().contains_key(k2)
                    && final(drawable_system).records()[final(drawable_system).idx_map()[k2] as int] == old(drawable_system).records()[old(drawable_system).idx_map()[k2] as int]),
    {
        let particle_lifetime = Range::new(PARTICLE_LIFETIME_MIN, PARTICLE_LIFETIME_MAX);
        let particle_velocity = (
            Range::new(-PARTICLE_VELOCITY_SPREAD, PARTICLE_VELOCITY_SPREAD),
            Range::new(-PARTICLE_VELOCITY_SPREAD, PARTICLE_VELOCITY_SPREAD),
            Range::new(-PARTICLE_VELOCITY_SPREAD, PARTICLE_VELOCITY_SPREAD),
        );
        let mut particles: Vec<(Entity, i64, i64)> = Vec::new();

        // pool size: lifetime ceiling times the emission rate, rounded
        let max_lifetime = particle_lifetime.get_max();
        let rate = fx_div(FX_ONE, EMITTER_STEP);
        let count_fx = fx_add(fx_mul(max_lifetime, rate), FX_HALF);
        let count_whole = fx_trunc(count_fx);
        let count: usize = if count_whole < 0 {
            0
        } else if count_whole > 32 {
            32
        } else {
            count_whole as usize
        };
        proof {
            assert(max_lifetime == PARTICLE_LIFETIME_MAX);
            assert(4294967296int == 1310 * 3278600 + 1296) by (nonlinear_arith);
            vstd::arithmetic::div_mod::lemma_fundamental_div_mod_converse(
                4294967296,
                1310,
                3278600,
                1296,
            );
            assert(rate == 3278600);
            assert(32768 * 3278600int == 107433164800int && 107433164800int == 65536 * 1639300)
                by (nonlinear_arith);
            vstd::arithmetic::div_mod::lemma_fundamental_div_mod_converse(
                107433164800,
                65536,
                1639300,
                0,
            );
            assert(count_fx == 1672068);
            assert(1672068int == 65536 * 25 + 33668) by (nonlinear_arith);
            vstd::arithmetic::div_mod::lemma_fundamental_div_mod_converse(1672068, 65536, 25, 33668);
            assert(count_whole == 25);
            assert(count == PARTICLE_POOL);
        }

        let mut created: usize = 0;
        while created < count
            invariant
                count <= 32,
                created <= count,
                entity_manager.inv(),
                transformation_system.inv(),
                rigid_body_system.inv(),
                drawable_system.inv(),
                old(entity_manager).gens().len() + 32 <= ENTITY_INDEX_LIMIT as int,
                entity_manager.gens().len() <= old(entity_manager).gens().len() + created,
                entity_manager.gens().len() >= old(entity_manager).gens().len(),
                forall|e2: Entity|
                    index_of(e2@) < old(entity_manager).gens().len() ==> (
                    #[trigger] entity_manager.spec_alive(e2)) == old(entity_manager).spec_alive(e2),
                particles@.len() == created,
                forall|j: int|
                    0 <= j < particles@.len() ==> index_of((#[trigger] particles@[j]).0@)
                        < entity_manager.gens().len(),
                forall|j: int|
                    0 <= j < particles@.len() ==> spec_particle_wired(
                        #[trigger] particles@[j],
                        *old(transformation_system),
                        *old(rigid_body_system),
                        *old(drawable_system),
                        *entity_manager,
                        *transformation_system,
                        *rigid_body_system,
                        *drawable_system,
                        particle_drawable,
                    ),
                forall|k2: u32| #[trigger]
                    old(transformation_system).idx_map().contains_key(k2) ==> (
                    transformation_system.idx_map().contains_key(k2)
                        && transformation_system.records()[transformation_system.idx_map()[k2] as int]
                        == old(transformation_system).records()[old(transformation_system).idx_map()[k2] as int]),
                forall|k2: u32| #[trigger]
                    old(rigid_body_system).idx_map().contains_key(k2) ==> (
                    rigid_body_system.idx_map().contains_key(k2)
                        && rigid_body_system.records()[rigid_body_system.idx_map()[k2] as int]
                        == old(rigid_body_system).records()[old(rigid_body_system).idx_map()[k2] as int]),
                forall|k2: u32| #[trigger]
                    old(drawable_system).idx_map().contains_key(k2) ==> (
                    drawable_system.idx_map().contains_key(k2)
                        && drawable_system.records()[drawable_system.idx_map()[k2] as int]
                        == old(drawable_system).records()[old(drawable_system).idx_map()[k2] as int]),
                forall|k2: u32| #[trigger]
                    transformation_system.idx_map().contains_key(k2) ==> (old(transformation_system).idx_map().contains_key(k2) || exists|j: int|
                        0 <= j < particles@.len() && (#[trigger] particles@[j]).0@ == k2),
                forall|k2: u32| #[trigger]
                    rigid_body_system.idx_map().contains_key(k2) ==> (old(rigid_body_system).idx_map().contains_key(k2) || exists|j: int|
                        0 <= j < particles@.len() && (#[trigger] particles@[j]).0@ == k2),
                forall|k2: u32| #[trigger]
                    drawable_system.idx_map().contains_key(k2) ==> (old(drawable_system).idx_map().contains_key(k2) || exists|j: int|
                        0 <= j < particles@.len() && (#[trigger] particles@[j]).0@ == k2),
            decreases count - created,
        {
            let ghost em_iter = *entity_manager;
            let ghost parts_pre = particles@;
            let p = entity_manager.create_new_entity();
            let ghost em_created = *entity_manager;
            entity_manager.set_entity_is_active(&p, false);
            proof {
                assert forall|e2: Entity|
                    index_of(e2@) < old(entity_manager).gens().len() implies (
                #[trigger] entity_manager.spec_alive(e2)) == old(entity_manager).spec_alive(
                    e2,
                ) by {
                    assert(em_iter.spec_alive(e2) == old(entity_manager).spec_alive(e2));
                    assert(em_created.spec_alive(e2) == em_iter.spec_alive(e2));
                    assert(entity_manager.spec_alive(e2) == em_created.spec_alive(e2));
                }
                assert(entity_manager.spec_alive(p));
                assert(!entity_manager.actives()[index_of(p@)]);
                // earlier pooled particles stay alive and inactive: only the
                // fresh handle's slot was touched, and two handles alive at
                // one slot are the same handle
                assert forall|j: int|
                    0 <= j < parts_pre.len() implies entity_manager.spec_alive(
                    (#[trigger] parts_pre[j]).0,
                ) && !entity_manager.actives()[index_of(parts_pre[j].0@)] by {
                    let q = parts_pre[j].0;
                    assert(em_iter.spec_alive(q));
                    assert(em_created.spec_alive(q));
                    assert(entity_manager.spec_alive(q));
                    if index_of(q@) == index_of(p@) {
                        lemma_alive_same_index_same_handle(entity_manager, q, p);
                        Entity::lemma_view_injective(q, p);
                    }
                }
            }

            let ghost ts_pre = *transformation_system;
            let transform_template = TransformationBuilder::new().with_scale(
                Vec3fx::new(PARTICLE_SCALE, PARTICLE_SCALE, PARTICLE_SCALE),
            );
            transformation_system.add_transformation_to_entity(&p, transform_template);

            let ghost rbs_pre = *rigid_body_system;
            let body_template = RigidBodyBuilder::new().with_extents(
                Vec3fx::new(PARTICLE_EXTENT, PARTICLE_EXTENT, PARTICLE_EXTENT),
            ).with_mass(PARTICLE_MASS).with_elasticity(PARTICLE_ELASTICITY).is_gravity_immune();
            rigid_body_system.add_rigid_body_to_entity(&p, body_template, transformation_system);

            let ghost ds_pre = *drawable_system;
            drawable_system.add_drawable_to_entity(&p, transformation_system, particle_drawable);

            particles.push((p, 0, 0));
            created = created + 1;
            proof {
                // the fresh particle's stores
                assert(transformation_system.spec_has(p));
                assert(rigid_body_system.spec_has(p));
                assert(drawable_system.spec_has(p));
                if !old(transformation_system).spec_has(p) {
                    if ts_pre.spec_has(p) {
                        let j = choose|j: int|
                            0 <= j < parts_pre.len() && (#[trigger] parts_pre[j]).0@ == p@;
                        Entity::lemma_view_injective(parts_pre[j].0, p);
                        assert(ts_pre.spec_record_of(p) == spec_particle_transform(p));
                        assert(transformation_system.spec_record_of(p) == ts_pre.spec_record_of(p));
                    } else {
                        assert(transformation_system.spec_record_of(p)
                            == crate::transformation::spec_build(transform_template, p));
                        assert(crate::transformation::spec_build(transform_template, p)
                            == spec_particle_transform(p));
                    }
                }
                if !old(rigid_body_system).spec_has(p) {
                    if rbs_pre.spec_has(p) {
                        let j = choose|j: int|
                            0 <= j < parts_pre.len() && (#[trigger] parts_pre[j]).0@ == p@;
                        Entity::lemma_view_injective(parts_pre[j].0, p);
                        assert(rbs_pre.spec_record_of(p) == spec_particle_body(p));
                        assert(rigid_body_system.spec_record_of(p) == rbs_pre.spec_record_of(p));
                    } else {
                        assert(rigid_body_system.spec_record_of(p) == crate::rigid_body::spec_build(
                            body_template,
                            p,
                        ));
                        assert(crate::rigid_body::spec_build(body_template, p)
                            == spec_particle_body(p));
                    }
                }
                if !old(drawable_system).spec_has(p) {
                    if ds_pre.spec_has(p) {
                        let j = choose|j: int|
                            0 <= j < parts_pre.len() && (#[trigger] parts_pre[j]).0@ == p@;
                        Entity::lemma_view_injective(parts_pre[j].0, p);
                        assert(ds_pre.spec_record_of(p) == crate::drawable::spec_build(
                            particle_drawable,
                            p,
                        ));
                        assert(drawable_system.spec_record_of(p) == ds_pre.spec_record_of(p));
                    } else {
                        assert(drawable_system.spec_record_of(p) == crate::drawable::spec_build(
                            particle_drawable,
                            p,
                        ));
                    }
                }
                // earlier particles keep their records: attachment never
                // overwrites an existing mapping
                assert forall|j: int|
                    0 <= j < parts_pre.len() implies spec_particle_wired(
                    #[trigger] parts_pre[j],
                    *old(transformation_system),
                    *old(rigid_body_system),
                    *old(drawable_system),
                    *entity_manager,
                    *transformation_system,
                    *rigid_body_system,
                    *drawable_system,
                    particle_drawable,
                ) by {
                    let q = parts_pre[j].0;
                    assert(ts_pre.spec_has(q) && rbs_pre.spec_has(q) && ds_pre.spec_has(q));
                    assert(transformation_system.spec_has(q) && transformation_system.spec_record_of(
                        q,
                    ) == ts_pre.spec_record_of(q));
                    assert(rigid_body_system.spec_has(q) && rigid_body_system.spec_record_of(q)
                        == rbs_pre.spec_record_of(q));
                    assert(drawable_system.spec_has(q) && drawable_system.spec_record_of(q)
                        == ds_pre.spec_record_of(q));
                }
                assert(particles@ =~= parts_pre.push((p, 0i64, 0i64)));
                // provenance: every mapped key was mapped before the pool, or
                // belongs to a pooled particle
                assert forall|k2: u32| #[trigger]
                    transformation_system.idx_map().contains_key(k2) implies (old(transformation_system).idx_map().contains_key(k2) || exists|j: int|
                    0 <= j < particles@.len() && (#[trigger] particles@[j]).0@ == k2) by {
                    if !old(transformation_system).idx_map().contains_key(k2) {
                        if ts_pre.idx_map().contains_key(k2) {
                            let j = choose|j: int|
                                0 <= j < parts_pre.len() && (#[trigger] parts_pre[j]).0@ == k2;
                            assert(particles@[j].0@ == k2);
                        } else {
                            assert(k2 == p@);
                            assert(particles@[particles@.len() - 1].0@ == k2);
                        }
                    }
                }
                assert forall|k2: u32| #[trigger]
                    rigid_body_system.idx_map().contains_key(k2) implies (old(rigid_body_system).idx_map().contains_key(k2) || exists|j: int|
                    0 <= j < particles@.len() && (#[trigger] particles@[j]).0@ == k2) by {
                    if !old(rigid_body_system).idx_map().contains_key(k2) {
                        if rbs_pre.idx_map().contains_key(k2) {
                            let j = choose|j: int|
                                0 <= j < parts_pre.len() && (#[trigger] parts_pre[j]).0@ == k2;
                            assert(particles@[j].0@ == k2);
                        } else {
                            assert(k2 == p@);
                            assert(particles@[particles@.len() - 1].0@ == k2);
                        }
                    }
                }
                assert forall|k2: u32| #[trigger]
                    drawable_system.idx_map().contains_key(k2) implies (old(drawable_system).idx_map().contains_key(k2) || exists|j: int|
                    0 <= j < particles@.len() && (#[trigger] particles@[j]).0@ == k2) by {
                    if !old(drawable_system).idx_map().contains_key(k2) {
                        if ds_pre.idx_map().contains_key(k2) {
                            let j = choose|j: int|
                                0 <= j < parts_pre.len() && (#[trigger] parts_pre[j]).0@ == k2;
                            assert(particles@[j].0@ == k2);
                        } else {
                            assert(k2 == p@);
                            assert(particles@[particles@.len() - 1].0@ == k2);
                        }
                    }
                }
            }
        }

        ParticleEmitterData {
            owner,
            particle_lifetime,
            particle_velocity,
            emission_timer: (0, EMITTER_STEP),
            particles,
        }
    }

    /// Detaches the entity's emitter, destroying its pooled particle
    /// entities, by swapping the last record into its slot and repairing the
    /// moved record's map entry. A null or absent entity is ignored; every
    /// other entity keeps its emitter.
    pub fn remove_particle_emitter_from_entity(
        &mut self,
        entity: &Entity,
        entity_manager: &mut EntityManager,
    )
        requires
            old(self).inv(),
            old(entity_manager).inv(),
            old(self).particles_in_range(*old(entity_manager)),
            forall|i: int|
                0 <= i < old(self).records().len() ==> (#[trigger] old(self).records()[i]).particles@.len() < 256,
        ensures
            final(self).inv(),
            final(entity_manager).inv(),
            entity@ != 0 ==> !final(self).spec_has(*entity),
            forall|k2: u32| #[trigger]
                final(self).idx_map().contains_key(k2) ==> old(self).idx_map().contains_key(k2),
            forall|k2: u32|
                k2 != entity@ && #[trigger] old(self).idx_map().contains_key(k2) ==> (
                final(self).idx_map().contains_key(k2)
                    && final(self).records()[final(self).idx_map()[k2] as int]
                    == old(self).records()[old(self).idx_map()[k2] as int]),
            final(entity_manager).gens().len() == old(entity_manager).gens().len(),
            final(entity_manager).actives() =~= old(entity_manager).actives(),
            if entity@ != 0 && old(self).spec_has(*entity) {
                ({
                    let pool = old(self).records()[old(self).idx_map()[entity@] as int].particles@;
                    &&& final(self).records().len() == old(self).records().len() - 1
                    &&& forall|idx: int|
                        0 <= idx < old(entity_manager).gens().len() && !(exists|j: int|
                            0 <= j < pool.len() && index_of((#[trigger] pool[j]).0@) == idx)
                            ==> final(entity_manager).gens()[idx] == old(entity_manager).gens()[idx]
                    &&& forall|j: int|
                        0 <= j < pool.len() && old(entity_manager).spec_alive(
                            (#[trigger] pool[j]).0,
                        ) ==> !final(entity_manager).spec_alive(pool[j].0)
                })
            } else {
                &&& final(self).records() =~= old(self).records()
                &&& final(self).idx_map() =~= old(self).idx_map()
                &&& final(entity_manager).gens() =~= old(entity_manager).gens()
            },
    {
        let nul = Entity::null();
        proof {
            Entity::lemma_view_injective(*entity, nul);
        }
        let mut swapped: (bool, usize) = (false, 0);
        let mut removed = false;

        if *entity != nul {
            let k: u32 = entity.raw();
            let found: Option<usize> = map_get(&self.map, k);
            proof {
                if found is Some {
                    assert(self.idx_map().contains_key(entity@));
                }
            }
            match found {
                Some(index) => {
                    let pcount = self.data[index].particles.len();
                    let ghost pool = self.records()[index as int].particles@;
                    proof {
                        assert forall|idx: int|
                            0 <= idx < entity_manager.gens().len() implies entity_manager.gens()[idx] as int
                            == (old(entity_manager).gens()[idx] as int + spec_pool_hits(
                            pool,
                            0,
                            idx,
                        )) % 256 by {
                            vstd::arithmetic::div_mod::lemma_small_mod(
                                old(entity_manager).gens()[idx] as nat,
                                256,
                            );
                        }
                    }
                    for pi in 0..pcount
                        invariant
                            self.inv(),
                            entity_manager.inv(),
                            index < self.records().len(),
                            self == old(self),
                            pool == self.records()[index as int].particles@,
                            pcount == self.records()[index as int].particles@.len(),
                            pcount < 256,
                            old(self).particles_in_range(*old(entity_manager)),
                            entity_manager.gens().len() == old(entity_manager).gens().len(),
                            entity_manager.actives() =~= old(entity_manager).actives(),
                            forall|idx: int|
                                0 <= idx < entity_manager.gens().len()
                                    ==> #[trigger] entity_manager.gens()[idx] as int == (old(entity_manager).gens()[idx] as int + spec_pool_hits(pool, pi as int, idx)) % 256,
                    {
                        let particle = self.data[index].particles[pi];
                        let ghost em_pre = *entity_manager;
                        entity_manager.destroy_entity(&particle.0);
                        proof {
                            let d = index_of(particle.0@);
                            assert(particle == pool[pi as int]);
                            assert forall|idx: int|
                                0 <= idx < entity_manager.gens().len()
                                    implies #[trigger] entity_manager.gens()[idx] as int == (old(entity_manager).gens()[idx] as int + spec_pool_hits(pool, pi + 1, idx)) % 256 by {
                                if idx == d {
                                    lemma_mod_bump(
                                        old(entity_manager).gens()[idx] as int + spec_pool_hits(
                                            pool,
                                            pi as int,
                                            idx,
                                        ),
                                        256,
                                    );
                                } else {
                                    assert(entity_manager.gens()[idx] == em_pre.gens()[idx]);
                                }
                            }
                        }
                    }
                    proof {
                        // every pooled particle that was alive is dead now:
                        // its slot advanced between one and pool-size times
                        assert forall|j: int|
                            0 <= j < pool.len() && old(entity_manager).spec_alive(
                                (#[trigger] pool[j]).0,
                            ) implies !entity_manager.spec_alive(pool[j].0) by {
                            let q = pool[j].0;
                            let d = index_of(q@);
                            let h = spec_pool_hits(pool, pcount as int, d);
                            lemma_pool_hits_positive(pool, pcount as int, d, j);
                            lemma_pool_hits_bounds(pool, pcount as int, d);
                            assert(0 <= gen_of(q@) < 256) by {
                                let raw = q@;
                                assert(raw / 0x1000000u32 < 256u32) by (bit_vector);
                            }
                            crate::entity::lemma_generation_no_alias(gen_of(q@) as u8, h);
                        }
                        // untouched slots keep their generation
                        assert forall|idx: int|
                            0 <= idx < old(entity_manager).gens().len() && !(exists|j: int|
                                0 <= j < pool.len() && index_of((#[trigger] pool[j]).0@) == idx)
                                implies entity_manager.gens()[idx] == old(entity_manager).gens()[idx] by {
                            lemma_pool_hits_zero(pool, pcount as int, idx);
                            vstd::arithmetic::div_mod::lemma_small_mod(
                                old(entity_manager).gens()[idx] as nat,
                                256,
                            );
                        }
                    }

                    self.data.swap_remove(index);
                    removed = true;
                    if self.data.len() > 0 {
                        swapped = (true, index);
                    }
                },
                None => (),
            }
        }

        if removed == true {
            let k: u32 = entity.raw();
            map_remove(&mut self.map, k);
        }

        if swapped.0 == true && swapped.1 != self.data.len() {
            let moved_owner: u32 = self.data[swapped.1].owner.raw();
            map_insert(&mut self.map, moved_owner, swapped.1);
        }

        proof {
            if entity@ != 0 && old(self).spec_has(*entity) {
                let m0 = old(self).idx_map();
                let d0 = old(self).records();
                let i = m0[entity@] as int;
                let n = d0.len() as int;
                assert forall|k2: u32| #[trigger]
                    self.idx_map().contains_key(k2) implies self.idx_map()[k2]
                    < self.records().len() && self.records()[self.idx_map()[k2] as int].owner@
                    == k2 by {
                    if i < n - 1 && k2 == d0[n - 1].owner@ {
                    } else {
                        assert(m0.contains_key(k2) && m0[k2] as int != i);
                        assert(d0[m0[k2] as int].owner@ == k2);
                    }
                }
                assert forall|j: int|
                    0 <= j < self.records().len() implies self.idx_map().contains_key(
                    #[trigger] self.records()[j].owner@,
                ) && self.idx_map()[self.records()[j].owner@] as int == j by {
                    if i < n - 1 && j == i {
                    } else {
                        assert(self.records()[j] == d0[j]);
                        assert(m0.contains_key(d0[j].owner@) && m0[d0[j].owner@] as int == j);
                        assert(d0[j].owner@ != entity@);
                    }
                }
            }
        }
    }

    /// The per-frame pass: every emitter owned by an active entity advances
    /// its particles' ages, deactivates particles whose lifetime has run
    /// out, and activates one pooled particle per whole emission step with a
    /// random velocity and lifetime at the owner's position. Slot
    /// generations never change, so aliveness of every handle is untouched.
    /// The per-frame pass: every emitter owned by an active entity ages its
    /// particles, deactivates those whose lifetime has run out, and activates
    /// one pooled particle per whole emission step with a lifetime and
    /// velocity drawn from its configured ranges, at its owner's position.
    /// Slot generations never change, so aliveness of every handle is
    /// untouched; active flags change only on pooled particles' slots; the
    /// transform and body stores change only in a pooled particle's position
    /// or velocity.
    pub fn update(
        &mut self,
        dt: i64,
        prng: &mut gameprng::xorshift128plus::XorShift128Plus,
        entity_manager: &mut EntityManager,
        transformation_system: &mut TransformationSystem,
        rigid_body_system: &mut RigidBodySystem,
    )
        requires
            old(self).inv(),
            old(entity_manager).inv(),
            old(transformation_system).inv(),
            old(rigid_body_system).inv(),
            old(self).particles_in_range(*old(entity_manager)),
            dt >= 0,
            forall|i: int|
                0 <= i < old(self).records().len() ==> index_of(
                    (#[trigger] old(self).records()[i]).owner@,
                ) < old(entity_manager).gens().len(),
            forall|i: int|
                0 <= i < old(self).records().len() ==> old(transformation_system).spec_has(
                    (#[trigger] old(self).records()[i]).owner,
                ),
        ensures
            final(self).inv(),
            final(entity_manager).inv(),
            final(transformation_system).inv(),
            final(rigid_body_system).inv(),
            final(self).idx_map() == old(self).idx_map(),
            final(self).records().len() == old(self).records().len(),
            forall|i: int|
                0 <= i < old(self).records().len() ==> ({
                    let o = #[trigger] old(self).records()[i];
                    let f = final(self).records()[i];
                    &&& f.owner == o.owner
                    &&& f.particle_lifetime == o.particle_lifetime
                    &&& f.particle_velocity == o.particle_velocity
                    &&& f.emission_timer.1 == o.emission_timer.1
                    &&& f.particles@.len() == o.particles@.len()
                    &&& forall|j: int|
                        0 <= j < o.particles@.len() ==> spec_particle_ticked(
                            #[trigger] o.particles@[j],
                            f.particles@[j],
                            dt,
                            o.particle_lifetime,
                        )
                }),
            final(entity_manager).gens() =~= old(entity_manager).gens(),
            forall|idx: int|
                0 <= idx < old(entity_manager).actives().len() && !(exists|i: int, j: int|
                    0 <= i < old(self).records().len() && 0 <= j < old(self).records()[i].particles@.len() && index_of(
                        (#[trigger] old(self).records()[i].particles@[j]).0@,
                    ) == idx) ==> final(entity_manager).actives()[idx] == old(entity_manager).actives()[idx],
            final(transformation_system).idx_map() == old(transformation_system).idx_map(),
            final(transformation_system).records().len() == old(transformation_system).records().len(),
            forall|t: int|
                0 <= t < old(transformation_system).records().len() ==> (#[trigger] final(transformation_system).records()[t] == old(transformation_system).records()[t] || exists|i: int|
                    0 <= i < old(self).records().len() && spec_transform_row_ticked(
                        old(transformation_system).records()[t],
                        final(transformation_system).records()[t],
                        (#[trigger] old(self).records()[i]).particles@,
                    )),
            final(rigid_body_system).idx_map() == old(rigid_body_system).idx_map(),
            final(rigid_body_system).records().len() == old(rigid_body_system).records().len(),
            forall|t: int|
                0 <= t < old(rigid_body_system).records().len() ==> (#[trigger] final(rigid_body_system).records()[t] == old(rigid_body_system).records()[t] || exists|i: int|
                    0 <= i < old(self).records().len() && spec_body_row_ticked(
                        old(rigid_body_system).records()[t],
                        final(rigid_body_system).records()[t],
                        (#[trigger] old(self).records()[i]).particles@,
                        old(self).records()[i].particle_velocity,
                    )),
    {
        let n = self.data.len();
        for i in 0..n
            invariant
                self.inv(),
                entity_manager.inv(),
                transformation_system.inv(),
                rigid_body_system.inv(),
                n == self.records().len(),
                n == old(self).records().len(),
                self.idx_map() == old(self).idx_map(),
                dt >= 0,
                entity_manager.gens() =~= old(entity_manager).gens(),
                entity_manager.actives().len() == old(entity_manager).actives().len(),
                transformation_system.idx_map() == old(transformation_system).idx_map(),
                rigid_body_system.idx_map() == old(rigid_body_system).idx_map(),
                forall|i2: int|
                    i <= i2 < n ==> self.records()[i2] == #[trigger] old(self).records()[i2],
                forall|i2: int|
                    0 <= i2 < i ==> ({
                        let o = #[trigger] old(self).records()[i2];
                        let f = self.records()[i2];
                        &&& f.owner == o.owner
                        &&& f.particle_lifetime == o.particle_lifetime
                        &&& f.particle_velocity == o.particle_velocity
                        &&& f.emission_timer.1 == o.emission_timer.1
                        &&& f.particles@.len() == o.particles@.len()
                        &&& forall|j: int|
                            0 <= j < o.particles@.len() ==> spec_particle_ticked(
                                #[trigger] o.particles@[j],
                                f.particles@[j],
                                dt,
                                o.particle_lifetime,
                            )
                    }),
                forall|idx: int|
                    0 <= idx < old(entity_manager).actives().len() && !(exists|i2: int, j: int|
                        0 <= i2 < n && 0 <= j < old(self).records()[i2].particles@.len()
                            && index_of((#[trigger] old(self).records()[i2].particles@[j]).0@)
                            == idx) ==> entity_manager.actives()[idx] == old(entity_manager).actives()[idx],
                transformation_system.records().len() == old(transformation_system).records().len(),
                forall|t: int|
                    0 <= t < old(transformation_system).records().len() ==> (
                    #[trigger] transformation_system.records()[t] == old(transformation_system).records()[t] || exists|i2: int|
                        0 <= i2 < n && spec_transform_row_ticked(
                            old(transformation_system).records()[t],
                            transformation_system.records()[t],
                            (#[trigger] old(self).records()[i2]).particles@,
                        )),
                rigid_body_system.records().len() == old(rigid_body_system).records().len(),
                forall|t: int|
                    0 <= t < old(rigid_body_system).records().len() ==> (
                    #[trigger] rigid_body_system.records()[t] == old(rigid_body_system).records()[t] || exists|i2: int|
                        0 <= i2 < n && spec_body_row_ticked(
                            old(rigid_body_system).records()[t],
                            rigid_body_system.records()[t],
                            (#[trigger] old(self).records()[i2]).particles@,
                            old(self).records()[i2].particle_velocity,
                        )),
                forall|i2: int, j: int|
                    0 <= i2 < n && 0 <= j < old(self).records()[i2].particles@.len() ==> index_of(
                        (#[trigger] old(self).records()[i2].particles@[j]).0@,
                    ) < entity_manager.gens().len(),
                forall|i2: int|
                    0 <= i2 < n ==> index_of((#[trigger] old(self).records()[i2]).owner@)
                        < entity_manager.gens().len(),
                forall|i2: int|
                    0 <= i2 < n ==> transformation_system.spec_has(
                        (#[trigger] old(self).records()[i2]).owner,
                    ),
        {
            let owner = self.data[i].owner;
            proof {
                assert(self.records()[i as int] == old(self).records()[i as int]);
                assert(owner == old(self).records()[i as int].owner);
            }
            if entity_manager.entity_is_active(&owner) == true {
                let ghost pre_self = self.records();
                let ghost pre_ts = transformation_system.records();
                let ghost pre_rbs = rigid_body_system.records();
                let ghost pre_act = entity_manager.actives();
                proof {
                    assert forall|i2: int, j: int|
                        0 <= i2 < n && 0 <= j < self.records()[i2].particles@.len() implies index_of(
                        (#[trigger] self.records()[i2].particles@[j]).0@,
                    ) < entity_manager.gens().len() by {
                        assert(self.records()[i2].particles@.len() == old(self).records()[i2].particles@.len());
                        if i2 < i {
                            assert(spec_particle_ticked(
                                old(self).records()[i2].particles@[j],
                                self.records()[i2].particles@[j],
                                dt,
                                old(self).records()[i2].particle_lifetime,
                            ));
                        } else {
                            assert(self.records()[i2] == old(self).records()[i2]);
                        }
                        assert(self.records()[i2].particles@[j].0 == old(self).records()[i2].particles@[j].0);
                    }
                }
                self.update_emitter(
                    i,
                    dt,
                    prng,
                    entity_manager,
                    transformation_system,
                    rigid_body_system,
                );
                proof {
                    // the call touched only emitter i's record, rows of its
                    // pool, and active flags of its pool slots; fold that
                    // into the cumulative picture
                    assert(pre_self[i as int] == old(self).records()[i as int]);
                    assert forall|t: int|
                        0 <= t < old(transformation_system).records().len() implies (
                    #[trigger] transformation_system.records()[t] == old(transformation_system).records()[t] || exists|i2: int|
                        0 <= i2 < n && spec_transform_row_ticked(
                            old(transformation_system).records()[t],
                            transformation_system.records()[t],
                            (#[trigger] old(self).records()[i2]).particles@,
                        )) by {
                        assert(spec_transform_row_ticked(
                            pre_ts[t],
                            transformation_system.records()[t],
                            pre_self[i as int].particles@,
                        ));
                        if transformation_system.records()[t] != pre_ts[t] {
                            assert(spec_transform_row_ticked(
                                old(transformation_system).records()[t],
                                transformation_system.records()[t],
                                old(self).records()[i as int].particles@,
                            ));
                        }
                    }
                    assert forall|t: int|
                        0 <= t < old(rigid_body_system).records().len() implies (
                    #[trigger] rigid_body_system.records()[t] == old(rigid_body_system).records()[t] || exists|i2: int|
                        0 <= i2 < n && spec_body_row_ticked(
                            old(rigid_body_system).records()[t],
                            rigid_body_system.records()[t],
                            (#[trigger] old(self).records()[i2]).particles@,
                            old(self).records()[i2].particle_velocity,
                        )) by {
                        assert(spec_body_row_ticked(
                            pre_rbs[t],
                            rigid_body_system.records()[t],
                            pre_self[i as int].particles@,
                            pre_self[i as int].particle_velocity,
                        ));
                        if rigid_body_system.records()[t] != pre_rbs[t] {
                            assert(spec_body_row_ticked(
                                old(rigid_body_system).records()[t],
                                rigid_body_system.records()[t],
                                old(self).records()[i as int].particles@,
                                old(self).records()[i as int].particle_velocity,
                            ));
                        }
                    }
                    assert forall|idx: int|
                        0 <= idx < old(entity_manager).actives().len() && !(exists|i2: int, j: int|
                            0 <= i2 < n && 0 <= j < old(self).records()[i2].particles@.len()
                                && index_of((#[trigger] old(self).records()[i2].particles@[j]).0@)
                                == idx) implies entity_manager.actives()[idx] == old(entity_manager).actives()[idx] by {
                        assert(!(exists|j: int|
                            0 <= j < pre_self[i as int].particles@.len() && index_of(
                                (#[trigger] pre_self[i as int].particles@[j]).0@,
                            ) == idx));
                        assert(entity_manager.actives()[idx] == pre_act[idx]);
                    }
                }
            }
        }
    }

    /// One emitter's step: age and deactivate live particles, then activate
    /// one pooled particle per whole emission step.
    fn update_emitter(
        &mut self,
        i: usize,
        dt: i64,
        prng: &mut gameprng::xorshift128plus::XorShift128Plus,
        entity_manager: &mut EntityManager,
        transformation_system: &mut TransformationSystem,
        rigid_body_system: &mut RigidBodySystem,
    )
        requires
            old(self).inv(),
            old(entity_manager).inv(),
            old(transformation_system).inv(),
            old(rigid_body_system).inv(),
            i < old(self).records().len(),
            dt >= 0,
            forall|i2: int, j: int|
                0 <= i2 < old(self).records().len() && 0 <= j < old(self).records()[i2].particles@.len() ==> index_of(
                    (#[trigger] old(self).records()[i2].particles@[j]).0@,
                ) < old(entity_manager).gens().len(),
            old(transformation_system).spec_has(old(self).records()[i as int].owner),
        ensures
            final(self).inv(),
            final(entity_manager).inv(),
            final(transformation_system).inv(),
            final(rigid_body_system).inv(),
            final(self).idx_map() == old(self).idx_map(),
            final(self).records().len() == old(self).records().len(),
            forall|i2: int|
                0 <= i2 < old(self).records().len() && i2 != i ==> final(self).records()[i2] == old(self).records()[i2],
            forall|i2: int|
                0 <= i2 < old(self).records().len() ==> (#[trigger] final(self).records()[i2]).owner
                    == old(self).records()[i2].owner,
            forall|i2: int|
                0 <= i2 < old(self).records().len() ==> (#[trigger] final(self).records()[i2]).particles@.len() == old(self).records()[i2].particles@.len(),
            forall|i2: int, j: int|
                0 <= i2 < old(self).records().len() && 0 <= j < old(self).records()[i2].particles@.len() ==> (#[trigger] final(self).records()[i2].particles@[j]).0 == old(self).records()[i2].particles@[j].0,
            final(self).records()[i as int].particle_lifetime == old(self).records()[i as int].particle_lifetime,
            final(self).records()[i as int].particle_velocity == old(self).records()[i as int].particle_velocity,
            final(self).records()[i as int].emission_timer.1 == old(self).records()[i as int].emission_timer.1,
            forall|j: int|
                0 <= j < old(self).records()[i as int].particles@.len() ==> spec_particle_ticked(
                    #[trigger] old(self).records()[i as int].particles@[j],
                    final(self).records()[i as int].particles@[j],
                    dt,
                    old(self).records()[i as int].particle_lifetime,
                ),
            ({
                let acc0 = old(self).records()[i as int].emission_timer.0;
                let step0 = old(self).records()[i as int].emission_timer.1;
                &&& (acc0 >= 0 && step0 > 0 ==> final(self).records()[i as int].emission_timer.0 as int
                    == spec_fx_add(acc0 as int, dt as int) % (step0 as int))
                &&& (step0 <= 0 ==> final(self).records()[i as int].emission_timer.0 as int
                    == spec_fx_add(acc0 as int, dt as int))
            }),
            final(entity_manager).gens() =~= old(entity_manager).gens(),
            forall|idx: int|
                0 <= idx < old(entity_manager).actives().len() && !(exists|j: int|
                    0 <= j < old(self).records()[i as int].particles@.len() && index_of(
                        (#[trigger] old(self).records()[i as int].particles@[j]).0@,
                    ) == idx) ==> final(entity_manager).actives()[idx] == old(entity_manager).actives()[idx],
            final(transformation_system).idx_map() == old(transformation_system).idx_map(),
            final(transformation_system).records().len() == old(transformation_system).records().len(),
            forall|t: int|
                0 <= t < old(transformation_system).records().len() ==> spec_transform_row_ticked(
                    #[trigger] old(transformation_system).records()[t],
                    final(transformation_system).records()[t],
                    old(self).records()[i as int].particles@,
                ),
            final(rigid_body_system).idx_map() == old(rigid_body_system).idx_map(),
            final(rigid_body_system).records().len() == old(rigid_body_system).records().len(),
            forall|t: int|
                0 <= t < old(rigid_body_system).records().len() ==> spec_body_row_ticked(
                    #[trigger] old(rigid_body_system).records()[t],
                    final(rigid_body_system).records()[t],
                    old(self).records()[i as int].particles@,
                    old(self).records()[i as int].particle_velocity,
                ),
    {
        let ghost pool0 = old(self).records()[i as int].particles@;
        let ghost lt_range = old(self).records()[i as int].particle_lifetime;
        let ghost v_ranges = old(self).records()[i as int].particle_velocity;
        let ghost rbs0 = old(rigid_body_system).records();
        let ghost ts0 = old(transformation_system).records();
        let ghost act0 = old(entity_manager).actives();
        let ghost acc0 = old(self).records()[i as int].emission_timer.0;
        let ghost step0 = old(self).records()[i as int].emission_timer.1;

        self.data[i].emission_timer.0 = fx_add(self.data[i].emission_timer.0, dt);
        let ghost t_em = self.records()[i as int].emission_timer.0;

        let pcount = self.data[i].particles.len();
        for pi in 0..pcount
            invariant
                self.inv(),
                entity_manager.inv(),
                transformation_system.inv(),
                rigid_body_system.inv(),
                i < self.records().len(),
                self.records().len() == old(self).records().len(),
                self.idx_map() == old(self).idx_map(),
                pool0 == old(self).records()[i as int].particles@,
                lt_range == old(self).records()[i as int].particle_lifetime,
                v_ranges == old(self).records()[i as int].particle_velocity,
                rbs0 == old(rigid_body_system).records(),
                ts0 == old(transformation_system).records(),
                act0 == old(entity_manager).actives(),
                act0.len() == entity_manager.gens().len(),
                dt >= 0,
                pcount == pool0.len(),
                forall|i2: int|
                    0 <= i2 < old(self).records().len() && i2 != i ==> self.records()[i2] == old(self).records()[i2],
                self.records()[i as int].owner == old(self).records()[i as int].owner,
                self.records()[i as int].particle_lifetime == lt_range,
                self.records()[i as int].particle_velocity == v_ranges,
                self.records()[i as int].emission_timer == (t_em, step0),
                t_em as int == spec_fx_add(acc0 as int, dt as int),
                self.records()[i as int].particles@.len() == pool0.len(),
                forall|j: int|
                    pi <= j < pool0.len() ==> self.records()[i as int].particles@[j] == #[trigger] pool0[j],
                forall|j: int|
                    0 <= j < pi ==> spec_particle_ticked(
                        #[trigger] pool0[j],
                        self.records()[i as int].particles@[j],
                        dt,
                        lt_range,
                    ),
                forall|i2: int, j: int|
                    0 <= i2 < old(self).records().len() && 0 <= j < old(self).records()[i2].particles@.len() ==> index_of(
                        (#[trigger] old(self).records()[i2].particles@[j]).0@,
                    ) < entity_manager.gens().len(),
                entity_manager.gens() =~= old(entity_manager).gens(),
                forall|idx: int|
                    0 <= idx < act0.len() && !(exists|j: int|
                        0 <= j < pool0.len() && index_of((#[trigger] pool0[j]).0@) == idx)
                        ==> entity_manager.actives()[idx] == act0[idx],
                transformation_system.records() == ts0,
                transformation_system.idx_map() == old(transformation_system).idx_map(),
                rigid_body_system.records() == rbs0,
                rigid_body_system.idx_map() == old(rigid_body_system).idx_map(),
                old(transformation_system).spec_has(old(self).records()[i as int].owner),
        {
            let particle = self.data[i].particles[pi];
            proof {
                assert(particle == pool0[pi as int]);
                assert(index_of(particle.0@) < entity_manager.gens().len());
            }
            if entity_manager.entity_is_active(&particle.0) == true {
                let aged = fx_add(particle.1, dt);
                self.data[i].particles[pi].1 = aged;
                if aged >= particle.2 {
                    let ghost act_pre = entity_manager.actives();
                    entity_manager.set_entity_is_active(&particle.0, false);
                    proof {
                        assert forall|idx: int|
                            0 <= idx < act0.len() && !(exists|j: int|
                                0 <= j < pool0.len() && index_of((#[trigger] pool0[j]).0@) == idx)
                                implies entity_manager.actives()[idx] == act0[idx] by {
                            if idx == index_of(particle.0@) {
                                assert(exists|j: int|
                                    0 <= j < pool0.len() && index_of((#[trigger] pool0[j]).0@)
                                        == idx) by {
                                    assert(0 <= (pi as int) < pool0.len() && index_of(
                                        pool0[pi as int].0@,
                                    ) == idx);
                                }
                            }
                            assert(idx != index_of(particle.0@));
                            assert(entity_manager.actives()[idx] == act_pre[idx]);
                        }
                    }
                }
            }
        }

        while self.data[i].emission_timer.0 >= self.data[i].emission_timer.1
            && self.data[i].emission_timer.1 > 0
            invariant
                self.inv(),
                entity_manager.inv(),
                transformation_system.inv(),
                rigid_body_system.inv(),
                i < self.records().len(),
                self.records().len() == old(self).records().len(),
                self.idx_map() == old(self).idx_map(),
                pool0 == old(self).records()[i as int].particles@,
                lt_range == old(self).records()[i as int].particle_lifetime,
                v_ranges == old(self).records()[i as int].particle_velocity,
                rbs0 == old(rigid_body_system).records(),
                ts0 == old(transformation_system).records(),
                act0 == old(entity_manager).actives(),
                act0.len() == entity_manager.gens().len(),
                dt >= 0,
                forall|i2: int|
                    0 <= i2 < old(self).records().len() && i2 != i ==> self.records()[i2] == old(self).records()[i2],
                self.records()[i as int].owner == old(self).records()[i as int].owner,
                self.records()[i as int].particle_lifetime == lt_range,
                self.records()[i as int].particle_velocity == v_ranges,
                self.records()[i as int].emission_timer.1 == step0,
                t_em as int == spec_fx_add(acc0 as int, dt as int),
                acc0 >= 0 && step0 > 0 ==> (self.records()[i as int].emission_timer.0 >= 0
                    && self.records()[i as int].emission_timer.0 as int % (step0 as int)
                    == t_em as int % (step0 as int) && self.records()[i as int].emission_timer.0
                    <= t_em),
                step0 <= 0 ==> self.records()[i as int].emission_timer.0 == t_em,
                self.records()[i as int].particles@.len() == pool0.len(),
                forall|j: int|
                    0 <= j < pool0.len() ==> spec_particle_ticked(
                        #[trigger] pool0[j],
                        self.records()[i as int].particles@[j],
                        dt,
                        lt_range,
                    ),
                forall|i2: int, j: int|
                    0 <= i2 < old(self).records().len() && 0 <= j < old(self).records()[i2].particles@.len() ==> index_of(
                        (#[trigger] old(self).records()[i2].particles@[j]).0@,
                    ) < entity_manager.gens().len(),
                entity_manager.gens() =~= old(entity_manager).gens(),
                forall|idx: int|
                    0 <= idx < act0.len() && !(exists|j: int|
                        0 <= j < pool0.len() && index_of((#[trigger] pool0[j]).0@) == idx)
                        ==> entity_manager.actives()[idx] == act0[idx],
                transformation_system.idx_map() == old(transformation_system).idx_map(),
                transformation_system.records().len() == ts0.len(),
                forall|t: int|
                    0 <= t < ts0.len() ==> spec_transform_row_ticked(
                        #[trigger] ts0[t],
                        transformation_system.records()[t],
                        pool0,
                    ),
                rigid_body_system.idx_map() == old(rigid_body_system).idx_map(),
                rigid_body_system.records().len() == rbs0.len(),
                forall|t: int|
                    0 <= t < rbs0.len() ==> spec_body_row_ticked(
                        #[trigger] rbs0[t],
                        rigid_body_system.records()[t],
                        pool0,
                        v_ranges,
                    ),
                old(transformation_system).spec_has(old(self).records()[i as int].owner),
            decreases self.records()[i as int].emission_timer.0,
        {
            let step = self.data[i].emission_timer.1;
            let acc = self.data[i].emission_timer.0;
            proof {
                if acc0 >= 0 && step0 > 0 {
                    vstd::arithmetic::div_mod::lemma_mod_sub_multiples_vanish(
                        acc as int,
                        step0 as int,
                    );
                }
            }
            self.data[i].emission_timer.0 = fx_sub(acc, step);
            let ghost timer_now = self.records()[i as int].emission_timer;

            let pcount2 = self.data[i].particles.len();
            let mut pi: usize = 0;
            while pi < pcount2
                invariant
                    self.records()[i as int].emission_timer == timer_now,
                    timer_now.0 < acc as int && timer_now.0 >= 0 && timer_now.1 == step,
                    step == step0,
                    self.inv(),
                    entity_manager.inv(),
                    transformation_system.inv(),
                    rigid_body_system.inv(),
                    i < self.records().len(),
                    self.records().len() == old(self).records().len(),
                    self.idx_map() == old(self).idx_map(),
                    pool0 == old(self).records()[i as int].particles@,
                    lt_range == old(self).records()[i as int].particle_lifetime,
                    v_ranges == old(self).records()[i as int].particle_velocity,
                    rbs0 == old(rigid_body_system).records(),
                    ts0 == old(transformation_system).records(),
                    act0 == old(entity_manager).actives(),
                    act0.len() == entity_manager.gens().len(),
                    pi <= pcount2,
                    pcount2 == pool0.len(),
                    forall|i2: int|
                        0 <= i2 < old(self).records().len() && i2 != i ==> self.records()[i2]
                            == old(self).records()[i2],
                    self.records()[i as int].owner == old(self).records()[i as int].owner,
                    self.records()[i as int].particle_lifetime == lt_range,
                    self.records()[i as int].particle_velocity == v_ranges,
                    self.records()[i as int].particles@.len() == pool0.len(),
                    forall|j: int|
                        0 <= j < pool0.len() ==> spec_particle_ticked(
                            #[trigger] pool0[j],
                            self.records()[i as int].particles@[j],
                            dt,
                            lt_range,
                        ),
                    forall|i2: int, j: int|
                        0 <= i2 < old(self).records().len() && 0 <= j < old(self).records()[i2].particles@.len() ==> index_of(
                            (#[trigger] old(self).records()[i2].particles@[j]).0@,
                        ) < entity_manager.gens().len(),
                    entity_manager.gens() =~= old(entity_manager).gens(),
                    forall|idx: int|
                        0 <= idx < act0.len() && !(exists|j: int|
                            0 <= j < pool0.len() && index_of((#[trigger] pool0[j]).0@) == idx)
                            ==> entity_manager.actives()[idx] == act0[idx],
                    transformation_system.idx_map() == old(transformation_system).idx_map(),
                    transformation_system.records().len() == ts0.len(),
                    forall|t: int|
                        0 <= t < ts0.len() ==> spec_transform_row_ticked(
                            #[trigger] ts0[t],
                            transformation_system.records()[t],
                            pool0,
                        ),
                    rigid_body_system.idx_map() == old(rigid_body_system).idx_map(),
                    rigid_body_system.records().len() == rbs0.len(),
                    forall|t: int|
                        0 <= t < rbs0.len() ==> spec_body_row_ticked(
                            #[trigger] rbs0[t],
                            rigid_body_system.records()[t],
                            pool0,
                            v_ranges,
                        ),
                    old(transformation_system).spec_has(old(self).records()[i as int].owner),
                decreases pcount2 - pi,
            {
                let particle = self.data[i].particles[pi];
                proof {
                    assert(particle.0 == pool0[pi as int].0);
                    assert(index_of(particle.0@) < entity_manager.gens().len());
                }
                if entity_manager.entity_is_active(&particle.0) == false {
                    let lifetime = self.data[i].particle_lifetime.get_random(prng);
                    let owner = self.data[i].owner;
                    proof {
                        assert(owner == old(self).records()[i as int].owner);
                        assert(transformation_system.spec_has(owner));
                    }
                    let p = match transformation_system.get_position(&owner) {
                        Some(position) => position,
                        None => {
                            proof {
                                assert(false);
                            }
                            Vec3fx::zero()
                        },
                    };
                    let vx = self.data[i].particle_velocity.0.get_random(prng);
                    let vy = self.data[i].particle_velocity.1.get_random(prng);
                    let vz = self.data[i].particle_velocity.2.get_random(prng);
                    let v = Vec3fx::new(vx, vy, vz);

                    let ghost rbs_pre = rigid_body_system.records();
                    rigid_body_system.set_velocity(&particle.0, v);
                    proof {
                        assert forall|t: int|
                            0 <= t < rbs0.len() implies spec_body_row_ticked(
                            #[trigger] rbs0[t],
                            rigid_body_system.records()[t],
                            pool0,
                            v_ranges,
                        ) by {
                            if rigid_body_system.records()[t] != rbs_pre[t] {
                                assert(rbs_pre[t].owner@ == particle.0@);
                                Entity::lemma_view_injective(rbs_pre[t].owner, particle.0);
                                assert(rbs0[t].owner == rbs_pre[t].owner);
                                assert(pool0[pi as int].0 == rbs0[t].owner);
                            }
                        }
                    }
                    let ghost ts_pre = transformation_system.records();
                    transformation_system.set_position(&particle.0, p);
                    proof {
                        assert forall|t: int|
                            0 <= t < ts0.len() implies spec_transform_row_ticked(
                            #[trigger] ts0[t],
                            transformation_system.records()[t],
                            pool0,
                        ) by {
                            if transformation_system.records()[t] != ts_pre[t] {
                                assert(ts_pre[t].owner@ == particle.0@);
                                Entity::lemma_view_injective(ts_pre[t].owner, particle.0);
                                assert(ts0[t].owner == ts_pre[t].owner);
                                assert(pool0[pi as int].0 == ts0[t].owner);
                            }
                        }
                    }
                    let ghost act_pre = entity_manager.actives();
                    entity_manager.set_entity_is_active(&particle.0, true);
                    proof {
                        assert forall|idx: int|
                            0 <= idx < act0.len() && !(exists|j: int|
                                0 <= j < pool0.len() && index_of((#[trigger] pool0[j]).0@) == idx)
                                implies entity_manager.actives()[idx] == act0[idx] by {
                            if idx == index_of(particle.0@) {
                                assert(exists|j: int|
                                    0 <= j < pool0.len() && index_of((#[trigger] pool0[j]).0@)
                                        == idx) by {
                                    assert(0 <= (pi as int) < pool0.len() && index_of(
                                        pool0[pi as int].0@,
                                    ) == idx);
                                }
                            }
                            assert(idx != index_of(particle.0@));
                            assert(entity_manager.actives()[idx] == act_pre[idx]);
                        }
                    }
                    self.data[i].particles[pi].1 = 0;
                    self.data[i].particles[pi].2 = lifetime;
                    break ;
                }
                pi = pi + 1;
            }
        }
        proof {
            if acc0 >= 0 && step0 > 0 {
                vstd::arithmetic::div_mod::lemma_small_mod(
                    self.records()[i as int].emission_timer.0 as nat,
                    step0 as nat,
                );
            }
        }
    }
}

} // verus!
