//! Drawable records: which model, shader and texture set an entity is drawn
//! with, stored in the engine's component-store pattern. Resource names are
//! resolved to handles by the renderer before they reach this store; the
//! per-frame pass assembles one render job per active drawable from the
//! entity's transform.

use vstd::prelude::*;

use std::collections::HashMap;

use crate::entity::index_of;
use crate::entity::Entity;
use crate::entity::EntityManager;
use crate::fnv_map::map_contains;
use crate::fnv_map::map_get;
use crate::fnv_map::map_insert;
use crate::fnv_map::map_remove;
use crate::fnv_map::new_index_map;
use crate::math::Vec2fx;
use crate::math::Vec4fx;
use crate::render_job::ModelInfo;
use crate::render_job::RenderJob;
use crate::transformation::TransformationData;
use crate::transformation::TransformationSystem;
use crate::fixed::FX_ONE;

verus! {

/// One entity's drawable state: resolved resource handles plus texture
/// placement and tints.
#[derive(Clone, Copy, Debug)]
pub struct DrawableData {
    pub owner: Entity,
    pub shader: u32,
    pub model: ModelInfo,
    pub texture_set: usize,
    pub uv_scale: Vec2fx,
    pub uv_offset: Vec2fx,
    pub tint: Vec4fx,
    pub emissive_tint: Vec4fx,
}

/// Configuration for a new drawable. Resource fields carry handles the
/// renderer has already resolved; a field left unset resolves to the zero
/// handle or a neutral value at build time.
#[derive(Clone, Copy)]
pub struct DrawableBuilder {
    shader: Option<u32>,
    model: Option<ModelInfo>,
    texture_set: Option<usize>,
    uv_scale: Option<Vec2fx>,
    uv_offset: Option<Vec2fx>,
    tint: Option<Vec4fx>,
    emissive_tint: Option<Vec4fx>,
}

/// The record a builder resolves to: zero handles, unit texture scale, white
/// tint and black emissive tint unless configured.
pub open spec fn spec_build(b: DrawableBuilder, owner: Entity) -> DrawableData {
    DrawableData {
        owner,
        shader: match b.spec_shader() {
            Some(s) => s,
            None => 0u32,
        },
        model: match b.spec_model() {
            Some(m) => m,
            None => ModelInfo { vao: 0u32, index_count: 0i32, render_mode: 0u32 },
        },
        texture_set: match b.spec_texture_set() {
            Some(t) => t,
            None => 0usize,
        },
        uv_scale: match b.spec_uv_scale() {
            Some(s) => s,
            None => Vec2fx { x: FX_ONE, y: FX_ONE },
        },
        uv_offset: match b.spec_uv_offset() {
            Some(o) => o,
            None => Vec2fx { x: 0i64, y: 0i64 },
        },
        tint: match b.spec_tint() {
            Some(t) => t,
            None => Vec4fx { x: FX_ONE, y: FX_ONE, z: FX_ONE, w: FX_ONE },
        },
        emissive_tint: match b.spec_emissive_tint() {
            Some(t) => t,
            None => Vec4fx { x: 0i64, y: 0i64, z: 0i64, w: 0i64 },
        },
    }
}

impl DrawableBuilder {
    /// The configured shader handle, if any.
    pub closed spec fn spec_shader(&self) -> Option<u32> {
        self.shader
    }

    /// The configured model, if any.
    pub closed spec fn spec_model(&self) -> Option<ModelInfo> {
        self.model
    }

    /// The configured texture set, if any.
    pub closed spec fn spec_texture_set(&self) -> Option<usize> {
        self.texture_set
    }

    /// The configured texture scale, if any.
    pub closed spec fn spec_uv_scale(&self) -> Option<Vec2fx> {
        self.uv_scale
    }

    /// The configured texture offset, if any.
    pub closed spec fn spec_uv_offset(&self) -> Option<Vec2fx> {
        self.uv_offset
    }

    /// The configured tint, if any.
    pub closed spec fn spec_tint(&self) -> Option<Vec4fx> {
        self.tint
    }

    /// The configured emissive tint, if any.
    pub closed spec fn spec_emissive_tint(&self) -> Option<Vec4fx> {
        self.emissive_tint
    }

    /// A builder with every field left to its default.
    pub fn new() -> (r: DrawableBuilder)
        ensures
            r.spec_shader() is None,
            r.spec_model() is None,
            r.spec_texture_set() is None,
            r.spec_uv_scale() is None,
            r.spec_uv_offset() is None,
            r.spec_tint() is None,
            r.spec_emissive_tint() is None,
    {
        DrawableBuilder {
            shader: None,
            model: None,
            texture_set: None,
            uv_scale: None,
            uv_offset: None,
            tint: None,
            emissive_tint: None,
        }
    }

    /// Configures the shader handle.
    pub fn using_shader(self, shader: u32) -> (r: DrawableBuilder)
        ensures
            r.spec_shader() == Some(shader),
            r.spec_model() == self.spec_model(),
            r.spec_texture_set() == self.spec_texture_set(),
            r.spec_uv_scale() == self.spec_uv_scale(),
            r.spec_uv_offset() == self.spec_uv_offset(),
            r.spec_tint() == self.spec_tint(),
            r.spec_emissive_tint() == self.spec_emissive_tint(),
    {
        DrawableBuilder { shader: Some(shader), ..self }
    }

    /// Configures the model.
    pub fn using_model(self, model: ModelInfo) -> (r: DrawableBuilder)
        ensures
            r.spec_model() == Some(model),
            r.spec_shader() == self.spec_shader(),
            r.spec_texture_set() == self.spec_texture_set(),
            r.spec_uv_scale() == self.spec_uv_scale(),
            r.spec_uv_offset() == self.spec_uv_offset(),
            r.spec_tint() == self.spec_tint(),
            r.spec_emissive_tint() == self.spec_emissive_tint(),
    {
        DrawableBuilder { model: Some(model), ..self }
    }

    /// Configures the texture set.
    pub fn using_texture_set(self, texture_set: usize) -> (r: DrawableBuilder)
        ensures
            r.spec_texture_set() == Some(texture_set),
            r.spec_shader() == self.spec_shader(),
            r.spec_model() == self.spec_model(),
            r.spec_uv_scale() == self.spec_uv_scale(),
            r.spec_uv_offset() == self.spec_uv_offset(),
            r.spec_tint() == self.spec_tint(),
            r.spec_emissive_tint() == self.spec_emissive_tint(),
    {
        DrawableBuilder { texture_set: Some(texture_set), ..self }
    }

    /// Configures the texture scale.
    pub fn with_uv_scale(self, uv_scale: Vec2fx) -> (r: DrawableBuilder)
        ensures
            r.spec_uv_scale() == Some(uv_scale),
            r.spec_shader() == self.spec_shader(),
            r.spec_model() == self.spec_model(),
            r.spec_texture_set() == self.spec_texture_set(),
            r.spec_uv_offset() == self.spec_uv_offset(),
            r.spec_tint() == self.spec_tint(),
            r.spec_emissive_tint() == self.spec_emissive_tint(),
    {
        DrawableBuilder { uv_scale: Some(uv_scale), ..self }
    }

    /// Configures the texture offset.
    pub fn with_uv_offset(self, uv_offset: Vec2fx) -> (r: DrawableBuilder)
        ensures
            r.spec_uv_offset() == Some(uv_offset),
            r.spec_shader() == self.spec_shader(),
            r.spec_model() == self.spec_model(),
            r.spec_texture_set() == self.spec_texture_set(),
            r.spec_uv_scale() == self.spec_uv_scale(),
            r.spec_tint() == self.spec_tint(),
            r.spec_emissive_tint() == self.spec_emissive_tint(),
    {
        DrawableBuilder { uv_offset: Some(uv_offset), ..self }
    }

    /// Configures the tint.
    pub fn with_tint(self, tint: Vec4fx) -> (r: DrawableBuilder)
        ensures
            r.spec_tint() == Some(tint),
            r.spec_shader() == self.spec_shader(),
            r.spec_model() == self.spec_model(),
            r.spec_texture_set() == self.spec_texture_set(),
            r.spec_uv_scale() == self.spec_uv_scale(),
            r.spec_uv_offset() == self.spec_uv_offset(),
            r.spec_emissive_tint() == self.spec_emissive_tint(),
    {
        DrawableBuilder { tint: Some(tint), ..self }
    }

    /// Configures the emissive tint.
    pub fn with_emissive_tint(self, tint: Vec4fx) -> (r: DrawableBuilder)
        ensures
            r.spec_emissive_tint() == Some(tint),
            r.spec_shader() == self.spec_shader(),
            r.spec_model() == self.spec_model(),
            r.spec_texture_set() == self.spec_texture_set(),
            r.spec_uv_scale() == self.spec_uv_scale(),
            r.spec_uv_offset() == self.spec_uv_offset(),
            r.spec_tint() == self.spec_tint(),
    {
        DrawableBuilder { emissive_tint: Some(tint), ..self }
    }

    /// Resolves the builder against its defaults.
    fn build(self, owner: Entity) -> (r: DrawableData)
        ensures
            r == spec_build(self, owner),
    {
        DrawableData {
            owner,
            shader: match self.shader {
                Some(s) => s,
                None => 0,
            },
            model: match self.model {
                Some(m) => m,
                None => ModelInfo { vao: 0, index_count: 0, render_mode: 0 },
            },
            texture_set: match self.texture_set {
                Some(t) => t,
                None => 0,
            },
            uv_scale: match self.uv_scale {
                Some(s) => s,
                None => Vec2fx { x: FX_ONE, y: FX_ONE },
            },
            uv_offset: match self.uv_offset {
                Some(o) => o,
                None => Vec2fx { x: 0, y: 0 },
            },
            tint: match self.tint {
                Some(t) => t,
                None => Vec4fx { x: FX_ONE, y: FX_ONE, z: FX_ONE, w: FX_ONE },
            },
            emissive_tint: match self.emissive_tint {
                Some(t) => t,
                None => Vec4fx { x: 0, y: 0, z: 0, w: 0 },
            },
        }
    }
}

/// The render job one drawable record produces from its owner's transform.
pub open spec fn spec_job_of(d: DrawableData, t: TransformationData) -> RenderJob {
    RenderJob {
        model: d.model,
        shader: d.shader,
        textures: d.texture_set,
        scale: t.scale,
        uv_size: d.uv_scale,
        uv_offset: d.uv_offset,
        position: t.position,
        pivot: t.pivot,
        rotation: t.rotation,
        tint: d.tint,
        emissive_tint: d.emissive_tint,
    }
}

/// The render jobs of a run of drawable records: one per record whose owner
/// is flagged active, in store order.
pub open spec fn spec_draw_jobs(
    ds: Seq<DrawableData>,
    em: EntityManager,
    ts: TransformationSystem,
) -> Seq<RenderJob>
    decreases ds.len(),
{
    if ds.len() == 0 {
        Seq::<RenderJob>::empty()
    } else {
        let rest = spec_draw_jobs(ds.drop_last(), em, ts);
        let d = ds.last();
        if em.actives()[index_of(d.owner@)] {
            rest.push(spec_job_of(d, ts.spec_record_of(d.owner)))
        } else {
            rest
        }
    }
}

/// The drawable component store.
pub struct DrawableSystem {
    map: HashMap<u32, usize, fnv::FnvBuildHasher>,
    data: Vec<DrawableData>,
}

impl DrawableSystem {
    /// The sparse side: raw entity handle to dense index.
    pub closed spec fn idx_map(&self) -> Map<u32, usize> {
        self.map@
    }

    /// The dense record array.
    pub closed spec fn records(&self) -> Seq<DrawableData> {
        self.data@
    }

    /// Well-formedness: map and array describe each other.
    pub open spec fn inv(&self) -> bool {
        &&& forall|k: u32| #[trigger]
            self.idx_map().contains_key(k) ==> self.idx_map()[k] < self.records().len()
                && self.records()[self.idx_map()[k] as int].owner@ == k
        &&& forall|i: int|
            0 <= i < self.records().len() ==> self.idx_map().contains_key(
                #[trigger] self.records()[i].owner@,
            ) && self.idx_map()[self.records()[i].owner@] as int == i
    }

    /// Whether the entity has a drawable record.
    pub open spec fn spec_has(&self, e: Entity) -> bool {
        self.idx_map().contains_key(e@)
    }

    /// The record attached to an entity.
    pub open spec fn spec_record_of(&self, e: Entity) -> DrawableData {
        self.records()[self.idx_map()[e@] as int]
    }

    /// An empty store.
    pub fn new() -> (r: DrawableSystem)
        ensures
            r.inv(),
            r.records() =~= Seq::<DrawableData>::empty(),
            r.idx_map() =~= Map::<u32, usize>::empty(),
    {
        let s = DrawableSystem { map: new_index_map(), data: Vec::new() };
        proof {
            assert(s.idx_map() =~= Map::<u32, usize>::empty());
        }
        s
    }

    /// Whether the entity has a drawable record.
    pub fn entity_has_drawable(&self, entity: &Entity) -> (r: bool)
        requires
            self.inv(),
        ensures
            r == self.spec_has(*entity),
    {
        let k: u32 = entity.raw();
        map_contains(&self.map, k)
    }

    /// The entity's dense slot, when it has a record.
    fn lookup(&self, entity: &Entity) -> (r: Option<usize>)
        requires
            self.inv(),
        ensures
            r == if self.spec_has(*entity) {
                Some(self.idx_map()[entity@])
            } else {
                None::<usize>
            },
            r is Some ==> self.idx_map()[entity@] < self.records().len(),
    {
        let k: u32 = entity.raw();
        let r = map_get(&self.map, k);
        proof {
            if r is Some {
                assert(self.idx_map().contains_key(entity@));
            }
        }
        r
    }

    /// Attaches a drawable record built from the builder. An entity that
    /// already has one, or that has no transformation yet, is ignored.
    pub fn add_drawable_to_entity(
        &mut self,
        entity: &Entity,
        transformation_system: &TransformationSystem,
        initial_data: DrawableBuilder,
    )
        requires
            old(self).inv(),
            transformation_system.inv(),
        ensures
            final(self).inv(),
            if !old(self).spec_has(*entity) && transformation_system.spec_has(*entity) {
                &&& final(self).records() =~= old(self).records().push(
                    spec_build(initial_data, *entity),
                )
                &&& final(self).idx_map() =~= old(self).idx_map().insert(
                    entity@,
                    old(self).records().len() as usize,
                )
            } else {
                &&& final(self).records() =~= old(self).records()
                &&& final(self).idx_map() =~= old(self).idx_map()
            },
    {
        let k: u32 = entity.raw();
        if map_contains(&self.map, k) {
            // a second attach attempt is a designed no-op
        } else {
            if transformation_system.entity_has_transformation(entity) {
                self.data.push(initial_data.build(*entity));
                let slot: usize = self.data.len() - 1;
                map_insert(&mut self.map, k, slot);
                proof {
                    assert(self.records() =~= old(self).records().push(
                        spec_build(initial_data, *entity),
                    ));
                    assert(self.idx_map() =~= old(self).idx_map().insert(
                        entity@,
                        old(self).records().len() as usize,
                    ));
                    assert(forall|k2: u32| #[trigger]
                        self.idx_map().contains_key(k2) ==> self.idx_map()[k2]
                            < self.records().len()
                            && self.records()[self.idx_map()[k2] as int].owner@ == k2);
                    assert(forall|i: int|
                        0 <= i < self.records().len() ==> self.idx_map().contains_key(
                            #[trigger] self.records()[i].owner@,
                        ) && self.idx_map()[self.records()[i].owner@] as int == i);
                }
            } else {
                // a drawable requires a transformation; ignored without one
            }
        }
    }

    /// Detaches the entity's drawable record by swapping the last record
    /// into its slot and repairing the moved record's map entry. A null or
    /// absent entity is ignored; every other entity keeps its record.
    pub fn remove_drawable_from_entity(&mut self, entity: &Entity)
        requires
            old(self).inv(),
        ensures
            final(self).inv(),
            entity@ != 0 ==> !final(self).spec_has(*entity),
            forall|k2: u32|
                k2 != entity@ && #[trigger] old(self).idx_map().contains_key(k2) ==> (
                final(self).idx_map().contains_key(k2)
                    && final(self).records()[final(self).idx_map()[k2] as int]
                    == old(self).records()[old(self).idx_map()[k2] as int]),
            forall|k2: u32| #[trigger]
                final(self).idx_map().contains_key(k2) ==> old(self).idx_map().contains_key(k2),
            if entity@ == 0 || !old(self).spec_has(*entity) {
                &&& final(self).records() =~= old(self).records()
                &&& final(self).idx_map() =~= old(self).idx_map()
            } else {
                final(self).records().len() == old(self).records().len() - 1
            },
    {
        let nul = Entity::null();
        proof {
            Entity::lemma_view_injective(*entity, nul);
        }
        let mut swapped: (bool, usize) = (false, 0);
        let mut removed = false;

        if *entity != nul {
            let found: Option<usize> = self.lookup(entity);
            match found {
                Some(index) => {
                    self.data.swap_remove(index);
                    removed = true;
                    if self.data.len() > 0 {
                        swapped = (true, index);
                    }
                },
                None => (),
            }
        }

        if removed == true {
            let k: u32 = entity.raw();
            map_remove(&mut self.map, k);
        }

        if swapped.0 == true && swapped.1 != self.data.len() {
            let moved_owner: u32 = self.data[swapped.1].owner.raw();
            map_insert(&mut self.map, moved_owner, swapped.1);
        }

        proof {
            if entity@ != 0 && old(self).spec_has(*entity) {
                let m0 = old(self).idx_map();
                let d0 = old(self).records();
                let i = m0[entity@] as int;
                let n = d0.len() as int;
                assert forall|k2: u32| #[trigger]
                    self.idx_map().contains_key(k2) implies self.idx_map()[k2]
                    < self.records().len() && self.records()[self.idx_map()[k2] as int].owner@
                    == k2 by {
                    if i < n - 1 && k2 == d0[n - 1].owner@ {
                    } else {
                        assert(m0.contains_key(k2) && m0[k2] as int != i);
                        assert(d0[m0[k2] as int].owner@ == k2);
                    }
                }
                assert forall|j: int|
                    0 <= j < self.records().len() implies self.idx_map().contains_key(
                    #[trigger] self.records()[j].owner@,
                ) && self.idx_map()[self.records()[j].owner@] as int == j by {
                    if i < n - 1 && j == i {
                    } else {
                        assert(self.records()[j] == d0[j]);
                        assert(m0.contains_key(d0[j].owner@) && m0[d0[j].owner@] as int == j);
                        assert(d0[j].owner@ != entity@);
                    }
                }
            }
        }
    }

    /// Replaces the entity's tint; null or absent entities are ignored.
    pub fn set_entity_tint_color(&mut self, entity: &Entity, color: Vec4fx)
        requires
            old(self).inv(),
        ensures
            final(self).inv(),
            final(self).idx_map() == old(self).idx_map(),
            if entity@ != 0 && old(self).spec_has(*entity) {
                final(self).records() =~= old(self).records().update(
                    old(self).idx_map()[entity@] as int,
                    DrawableData { tint: color, ..old(self).spec_record_of(*entity) },
                )
            } else {
                final(self).records() =~= old(self).records()
            },
    {
        let nul = Entity::null();
        proof {
            Entity::lemma_view_injective(*entity, nul);
        }
        if *entity != nul {
            match self.lookup(entity) {
                Some(index) => {
                    let mut rec = self.data[index];
                    rec.tint = color;
                    self.data[index] = rec;
                },
                None => (),
            }
        }
    }

    /// Assembles the render jobs of this frame: one per drawable whose owner
    /// is flagged active, carrying the owner's transform, in store order.
    pub fn draw_all(
        &self,
        entity_manager: &EntityManager,
        transformation_system: &TransformationSystem,
    ) -> (jobs: Vec<RenderJob>)
        requires
            self.inv(),
            transformation_system.inv(),
            forall|i: int|
                0 <= i < self.records().len() ==> index_of((#[trigger] self.records()[i]).owner@)
                    < entity_manager.actives().len(),
            forall|i: int|
                0 <= i < self.records().len() ==> entity_manager.actives()[index_of(
                    (#[trigger] self.records()[i]).owner@,
                )] ==> transformation_system.spec_has(self.records()[i].owner),
        ensures
            jobs@ =~= spec_draw_jobs(self.records(), *entity_manager, *transformation_system),
    {
        let mut jobs: Vec<RenderJob> = Vec::new();
        let n = self.data.len();
        for p in 0..n
            invariant
                self.inv(),
                transformation_system.inv(),
                n == self.records().len(),
                forall|i: int|
                    0 <= i < n ==> index_of((#[trigger] self.records()[i]).owner@)
                        < entity_manager.actives().len(),
                forall|i: int|
                    0 <= i < n ==> entity_manager.actives()[index_of(
                        (#[trigger] self.records()[i]).owner@,
                    )] ==> transformation_system.spec_has(self.records()[i].owner),
                jobs@ =~= spec_draw_jobs(
                    self.records().take(p as int),
                    *entity_manager,
                    *transformation_system,
                ),
        {
            let drawable = self.data[p];
            if entity_manager.entity_is_active(&drawable.owner) == true {
                let t = match transformation_system.get_transformation_data(&drawable.owner) {
                    Some(record) => record,
                    None => {
                        proof {
                            assert(false);
                        }
                        TransformationData {
                            owner: drawable.owner,
                            position: crate::math::Vec3fx { x: 0, y: 0, z: 0 },
                            scale: crate::math::Vec3fx { x: 0, y: 0, z: 0 },
                            pivot: crate::math::Vec3fx { x: 0, y: 0, z: 0 },
                            rotation: crate::math::Quatfx { x: 0, y: 0, z: 0, w: 0 },
                        }
                    },
                };
                jobs.push(
                    RenderJob {
                        model: drawable.model,
                        shader: drawable.shader,
                        textures: drawable.texture_set,
                        scale: t.scale,
                        uv_size: drawable.uv_scale,
                        uv_offset: drawable.uv_offset,
                        position: t.position,
                        pivot: t.pivot,
                        rotation: t.rotation,
                        tint: drawable.tint,
                        emissive_tint: drawable.emissive_tint,
                    },
                );
            }
            proof {
                assert(self.records().take(p + 1).drop_last() =~= self.records().take(p as int));
                assert(self.records().take(p + 1).last() == drawable);
            }
        }
        proof {
            assert(self.records().take(n as int) =~= self.records());
        }
        jobs
    }
}

} // verus!
