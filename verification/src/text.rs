//! Text records: the string an entity displays and the resolved resources
//! and tints it is drawn with, stored in the engine's component-store
//! pattern. Laying glyphs out into render jobs is the renderer's business;
//! this store owns the data it reads.

use vstd::prelude::*;

use std::collections::HashMap;

use crate::entity::Entity;
use crate::fnv_map::map_contains;
use crate::fnv_map::map_get;
use crate::fnv_map::map_insert;
use crate::fnv_map::map_remove;
use crate::fnv_map::new_index_map;
use crate::math::Vec2fx;
use crate::math::Vec3fx;
use crate::math::Vec4fx;
use crate::render_job::ModelInfo;
use crate::transformation::TransformationSystem;
use crate::fixed::FX_ONE;

verus! {

/// The glyph cell size every text record is built with: six units, in fixed
/// point.
pub const TEXT_CHARACTER_SIZE: i64 = 393216;

/// One entity's text state: the displayed string, resolved resources, glyph
/// cell size, texture scale, tints and a local offset.
#[derive(Clone, Debug)]
pub struct TextData {
    pub owner: Entity,
    pub shader: u32,
    pub model: ModelInfo,
    pub texture_set: usize,
    pub character_size: Vec2fx,
    pub uv_scale: Vec2fx,
    pub tint: Vec4fx,
    pub emissive_tint: Vec4fx,
    pub offset: Vec3fx,
    pub text: String,
}

/// Configuration for a new text record. Resource fields carry handles the
/// renderer has already resolved; a field left unset resolves to the zero
/// handle or a neutral value at build time.
pub struct TextBuilder {
    shader: Option<u32>,
    model: Option<ModelInfo>,
    texture_set: Option<usize>,
    uv_scale: Option<Vec2fx>,
    tint: Option<Vec4fx>,
    emissive_tint: Option<Vec4fx>,
    offset: Option<Vec3fx>,
    text: Option<String>,
}

impl TextBuilder {
    /// The configured shader handle, if any.
    pub closed spec fn spec_shader(&self) -> Option<u32> {
        self.shader
    }

    /// The configured model, if any.
    pub closed spec fn spec_model(&self) -> Option<ModelInfo> {
        self.model
    }

    /// The configured texture set, if any.
    pub closed spec fn spec_texture_set(&self) -> Option<usize> {
        self.texture_set
    }

    /// The configured texture scale, if any.
    pub closed spec fn spec_uv_scale(&self) -> Option<Vec2fx> {
        self.uv_scale
    }

    /// The configured tint, if any.
    pub closed spec fn spec_tint(&self) -> Option<Vec4fx> {
        self.tint
    }

    /// The configured emissive tint, if any.
    pub closed spec fn spec_emissive_tint(&self) -> Option<Vec4fx> {
        self.emissive_tint
    }

    /// The configured offset, if any.
    pub closed spec fn spec_offset(&self) -> Option<Vec3fx> {
        self.offset
    }

    /// The configured text, if any.
    pub closed spec fn spec_text(&self) -> Option<String> {
        self.text
    }

    /// A builder with every field left to its default.
    pub fn new() -> (r: TextBuilder)
        ensures
            r.spec_shader() is None,
            r.spec_model() is None,
            r.spec_texture_set() is None,
            r.spec_uv_scale() is None,
            r.spec_tint() is None,
            r.spec_emissive_tint() is None,
            r.spec_offset() is None,
            r.spec_text() is None,
    {
        TextBuilder {
            shader: None,
            model: None,
            texture_set: None,
            uv_scale: None,
            tint: None,
            emissive_tint: None,
            offset: None,
            text: None,
        }
    }

    /// Configures the shader handle.
    pub fn using_shader(self, shader: u32) -> (r: TextBuilder)
        ensures
            r.spec_shader() == Some(shader),
            r.spec_model() == self.spec_model(),
            r.spec_texture_set() == self.spec_texture_set(),
            r.spec_uv_scale() == self.spec_uv_scale(),
            r.spec_tint() == self.spec_tint(),
            r.spec_emissive_tint() == self.spec_emissive_tint(),
            r.spec_offset() == self.spec_offset(),
            r.spec_text() == self.spec_text(),
    {
        TextBuilder { shader: Some(shader), ..self }
    }

    /// Configures the model.
    pub fn using_model(self, model: ModelInfo) -> (r: TextBuilder)
        ensures
            r.spec_model() == Some(model),
            r.spec_shader() == self.spec_shader(),
            r.spec_texture_set() == self.spec_texture_set(),
            r.spec_uv_scale() == self.spec_uv_scale(),
            r.spec_tint() == self.spec_tint(),
            r.spec_emissive_tint() == self.spec_emissive_tint(),
            r.spec_offset() == self.spec_offset(),
            r.spec_text() == self.spec_text(),
    {
        TextBuilder { model: Some(model), ..self }
    }

    /// Configures the texture set.
    pub fn using_texture_set(self, texture_set: usize) -> (r: TextBuilder)
        ensures
            r.spec_texture_set() == Some(texture_set),
            r.spec_shader() == self.spec_shader(),
            r.spec_model() == self.spec_model(),
            r.spec_uv_scale() == self.spec_uv_scale(),
            r.spec_tint() == self.spec_tint(),
            r.spec_emissive_tint() == self.spec_emissive_tint(),
            r.spec_offset() == self.spec_offset(),
            r.spec_text() == self.spec_text(),
    {
        TextBuilder { texture_set: Some(texture_set), ..self }
    }

    /// Configures the texture scale.
    pub fn with_uv_scale(self, uv_scale: Vec2fx) -> (r: TextBuilder)
        ensures
            r.spec_uv_scale() == Some(uv_scale),
            r.spec_shader() == self.spec_shader(),
            r.spec_model() == self.spec_model(),
            r.spec_texture_set() == self.spec_texture_set(),
            r.spec_tint() == self.spec_tint(),
            r.spec_emissive_tint() == self.spec_emissive_tint(),
            r.spec_offset() == self.spec_offset(),
            r.spec_text() == self.spec_text(),
    {
        TextBuilder { uv_scale: Some(uv_scale), ..self }
    }

    /// Configures the tint.
    pub fn with_tint(self, tint: Vec4fx) -> (r: TextBuilder)
        ensures
            r.spec_tint() == Some(tint),
            r.spec_shader() == self.spec_shader(),
            r.spec_model() == self.spec_model(),
            r.spec_texture_set() == self.spec_texture_set(),
            r.spec_uv_scale() == self.spec_uv_scale(),
            r.spec_emissive_tint() == self.spec_emissive_tint(),
            r.spec_offset() == self.spec_offset(),
            r.spec_text() == self.spec_text(),
    {
        TextBuilder { tint: Some(tint), ..self }
    }

    /// Configures the emissive tint.
    pub fn with_emissive_tint(self, tint: Vec4fx) -> (r: TextBuilder)
        ensures
            r.spec_emissive_tint() == Some(tint),
            r.spec_shader() == self.spec_shader(),
            r.spec_model() == self.spec_model(),
            r.spec_texture_set() == self.spec_texture_set(),
            r.spec_uv_scale() == self.spec_uv_scale(),
            r.spec_tint() == self.spec_tint(),
            r.spec_offset() == self.spec_offset(),
            r.spec_text() == self.spec_text(),
    {
        TextBuilder { emissive_tint: Some(tint), ..self }
    }

    /// Configures the displayed text.
    pub fn with_text(self, text: String) -> (r: TextBuilder)
        ensures
            r.spec_text() == Some(text),
            r.spec_shader() == self.spec_shader(),
            r.spec_model() == self.spec_model(),
            r.spec_texture_set() == self.spec_texture_set(),
            r.spec_uv_scale() == self.spec_uv_scale(),
            r.spec_tint() == self.spec_tint(),
            r.spec_emissive_tint() == self.spec_emissive_tint(),
            r.spec_offset() == self.spec_offset(),
    {
        TextBuilder { text: Some(text), ..self }
    }

    /// Configures the local offset.
    pub fn with_offset(self, offset: Vec3fx) -> (r: TextBuilder)
        ensures
            r.spec_offset() == Some(offset),
            r.spec_shader() == self.spec_shader(),
            r.spec_model() == self.spec_model(),
            r.spec_texture_set() == self.spec_texture_set(),
            r.spec_uv_scale() == self.spec_uv_scale(),
            r.spec_tint() == self.spec_tint(),
            r.spec_emissive_tint() == self.spec_emissive_tint(),
            r.spec_text() == self.spec_text(),
    {
        TextBuilder { offset: Some(offset), ..self }
    }

    /// Resolves the builder against its defaults: zero handles, unit texture
    /// scale, white tint, black emissive tint, zero offset, a six-unit glyph
    /// cell and the placeholder string.
    fn build(self, owner: Entity) -> (r: TextData)
        ensures
            r.owner == owner,
            r.shader == (match self.spec_shader() {
                Some(s) => s,
                None => 0u32,
            }),
            r.model == (match self.spec_model() {
                Some(m) => m,
                None => ModelInfo { vao: 0u32, index_count: 0i32, render_mode: 0u32 },
            }),
            r.texture_set == (match self.spec_texture_set() {
                Some(t) => t,
                None => 0usize,
            }),
            r.character_size == (Vec2fx { x: TEXT_CHARACTER_SIZE, y: TEXT_CHARACTER_SIZE }),
            r.uv_scale == (match self.spec_uv_scale() {
                Some(s) => s,
                None => Vec2fx { x: FX_ONE, y: FX_ONE },
            }),
            r.tint == (match self.spec_tint() {
                Some(t) => t,
                None => Vec4fx { x: FX_ONE, y: FX_ONE, z: FX_ONE, w: FX_ONE },
            }),
            r.emissive_tint == (match self.spec_emissive_tint() {
                Some(t) => t,
                None => Vec4fx { x: 0i64, y: 0i64, z: 0i64, w: 0i64 },
            }),
            r.offset == (match self.spec_offset() {
                Some(o) => o,
                None => Vec3fx { x: 0i64, y: 0i64, z: 0i64 },
            }),
            r.text@ == (match self.spec_text() {
                Some(t) => t@,
                None => "Text"@,
            }),
    {
        TextData {
            owner,
            shader: match self.shader {
                Some(s) => s,
                None => 0,
            },
            model: match self.model {
                Some(m) => m,
                None => ModelInfo { vao: 0, index_count: 0, render_mode: 0 },
            },
            texture_set: match self.texture_set {
                Some(t) => t,
                None => 0,
            },
            character_size: Vec2fx { x: TEXT_CHARACTER_SIZE, y: TEXT_CHARACTER_SIZE },
            uv_scale: match self.uv_scale {
                Some(s) => s,
                None => Vec2fx { x: FX_ONE, y: FX_ONE },
            },
            tint: match self.tint {
                Some(t) => t,
                None => Vec4fx { x: FX_ONE, y: FX_ONE, z: FX_ONE, w: FX_ONE },
            },
            emissive_tint: match self.emissive_tint {
                Some(t) => t,
                None => Vec4fx { x: 0, y: 0, z: 0, w: 0 },
            },
            offset: match self.offset {
                Some(o) => o,
                None => Vec3fx { x: 0, y: 0, z: 0 },
            },
            text: match self.text {
                Some(t) => t,
                None => "Text".to_string(),
            },
        }
    }
}

/// The text component store.
pub struct TextSystem {
    map: HashMap<u32, usize, fnv::FnvBuildHasher>,
    data: Vec<TextData>,
}

impl TextSystem {
    /// The sparse side: raw entity handle to dense index.
    pub closed spec fn idx_map(&self) -> Map<u32, usize> {
        self.map@
    }

    /// The dense record array.
    pub closed spec fn records(&self) -> Seq<TextData> {
        self.data@
    }

    /// Well-formedness: map and array describe each other.
    pub open spec fn inv(&self) -> bool {
        &&& forall|k: u32| #[trigger]
            self.idx_map().contains_key(k) ==> self.idx_map()[k] < self.records().len()
                && self.records()[self.idx_map()[k] as int].owner@ == k
        &&& forall|i: int|
            0 <= i < self.records().len() ==> self.idx_map().contains_key(
                #[trigger] self.records()[i].owner@,
            ) && self.idx_map()[self.records()[i].owner@] as int == i
    }

    /// Whether the entity has a text record.
    pub open spec fn spec_has(&self, e: Entity) -> bool {
        self.idx_map().contains_key(e@)
    }

    /// The record attached to an entity.
    pub open spec fn spec_record_of(&self, e: Entity) -> TextData {
        self.records()[self.idx_map()[e@] as int]
    }

    /// An empty store.
    pub fn new() -> (r: TextSystem)
        ensures
            r.inv(),
            r.records() =~= Seq::<TextData>::empty(),
            r.idx_map() =~= Map::<u32, usize>::empty(),
    {
        let s = TextSystem { map: new_index_map(), data: Vec::new() };
        proof {
            assert(s.idx_map() =~= Map::<u32, usize>::empty());
        }
        s
    }

    /// Whether the entity has a text record.
    pub fn entity_has_text(&self, entity: &Entity) -> (r: bool)
        requires
            self.inv(),
        ensures
            r == self.spec_has(*entity),
    {
        let k: u32 = entity.raw();
        map_contains(&self.map, k)
    }

    /// The entity's dense slot, when it has a record.
    fn lookup(&self, entity: &Entity) -> (r: Option<usize>)
        requires
            self.inv(),
        ensures
            r == if self.spec_has(*entity) {
                Some(self.idx_map()[entity@])
            } else {
                None::<usize>
            },
            r is Some ==> self.idx_map()[entity@] < self.records().len(),
    {
        let k: u32 = entity.raw();
        let r = map_get(&self.map, k);
        proof {
            if r is Some {
                assert(self.idx_map().contains_key(entity@));
            }
        }
        r
    }

    /// Attaches a text record built from the builder. An entity that already
    /// has one, or that has no transformation yet, is ignored.
    pub fn add_text_to_entity(
        &mut self,
        entity: &Entity,
        transformation_system: &TransformationSystem,
        initial_data: TextBuilder,
    )
        requires
            old(self).inv(),
            transformation_system.inv(),
        ensures
            final(self).inv(),
            if !old(self).spec_has(*entity) && transformation_system.spec_has(*entity) {
                &&& final(self).records().len() == old(self).records().len() + 1
                &&& forall|i: int|
                    0 <= i < old(self).records().len() ==> final(self).records()[i] == old(
                        self,
                    ).records()[i]
                &&& final(self).records().last().owner == *entity
                &&& final(self).records().last().text@ == (match initial_data.spec_text() {
                    Some(t) => t@,
                    None => "Text"@,
                })
                &&& final(self).idx_map() =~= old(self).idx_map().insert(
                    entity@,
                    old(self).records().len() as usize,
                )
            } else {
                &&& final(self).records() =~= old(self).records()
                &&& final(self).idx_map() =~= old(self).idx_map()
            },
    {
        let k: u32 = entity.raw();
        if map_contains(&self.map, k) {
            // a second attach attempt is a designed no-op
        } else {
            if transformation_system.entity_has_transformation(entity) {
                self.data.push(initial_data.build(*entity));
                let slot: usize = self.data.len() - 1;
                map_insert(&mut self.map, k, slot);
                proof {
                    assert(self.idx_map() =~= old(self).idx_map().insert(
                        entity@,
                        old(self).records().len() as usize,
                    ));
                    assert(forall|k2: u32| #[trigger]
                        self.idx_map().contains_key(k2) ==> self.idx_map()[k2]
                            < self.records().len()
                            && self.records()[self.idx_map()[k2] as int].owner@ == k2);
                    assert(forall|i: int|
                        0 <= i < self.records().len() ==> self.idx_map().contains_key(
                            #[trigger] self.records()[i].owner@,
                        ) && self.idx_map()[self.records()[i].owner@] as int == i);
                }
            } else {
                // a text record requires a transformation; ignored without one
            }
        }
    }

    /// Detaches the entity's text record by swapping the last record into
    /// its slot and repairing the moved record's map entry. A null or absent
    /// entity is ignored; every other entity keeps its record.
    pub fn remove_text_from_entity(&mut self, entity: &Entity)
        requires
            old(self).inv(),
        ensures
            final(self).inv(),
            entity@ != 0 ==> !final(self).spec_has(*entity),
            forall|k2: u32|
                k2 != entity@ && #[trigger] old(self).idx_map().contains_key(k2) ==> (
                final(self).idx_map().contains_key(k2)
                    && final(self).records()[final(self).idx_map()[k2] as int]
                    == old(self).records()[old(self).idx_map()[k2] as int]),
            forall|k2: u32| #[trigger]
                final(self).idx_map().contains_key(k2) ==> old(self).idx_map().contains_key(k2),
            if entity@ == 0 || !old(self).spec_has(*entity) {
                &&& final(self).records() =~= old(self).records()
                &&& final(self).idx_map() =~= old(self).idx_map()
            } else {
                final(self).records().len() == old(self).records().len() - 1
            },
    {
        let nul = Entity::null();
        proof {
            Entity::lemma_view_injective(*entity, nul);
        }
        let mut swapped: (bool, usize) = (false, 0);
        let mut removed = false;

        if *entity != nul {
            let found: Option<usize> = self.lookup(entity);
            match found {
                Some(index) => {
                    self.data.swap_remove(index);
                    removed = true;
                    if self.data.len() > 0 {
                        swapped = (true, index);
                    }
                },
                None => (),
            }
        }

        if removed == true {
            let k: u32 = entity.raw();
            map_remove(&mut self.map, k);
        }

        if swapped.0 == true && swapped.1 != self.data.len() {
            let moved_owner: u32 = self.data[swapped.1].owner.raw();
            map_insert(&mut self.map, moved_owner, swapped.1);
        }

        proof {
            if entity@ != 0 && old(self).spec_has(*entity) {
                let m0 = old(self).idx_map();
                let d0 = old(self).records();
                let i = m0[entity@] as int;
                let n = d0.len() as int;
                assert forall|k2: u32| #[trigger]
                    self.idx_map().contains_key(k2) implies self.idx_map()[k2]
                    < self.records().len() && self.records()[self.idx_map()[k2] as int].owner@
                    == k2 by {
                    if i < n - 1 && k2 == d0[n - 1].owner@ {
                    } else {
                        assert(m0.contains_key(k2) && m0[k2] as int != i);
                        assert(d0[m0[k2] as int].owner@ == k2);
                    }
                }
                assert forall|j: int|
                    0 <= j < self.records().len() implies self.idx_map().contains_key(
                    #[trigger] self.records()[j].owner@,
                ) && self.idx_map()[self.records()[j].owner@] as int == j by {
                    if i < n - 1 && j == i {
                    } else {
                        assert(self.records()[j] == d0[j]);
                        assert(m0.contains_key(d0[j].owner@) && m0[d0[j].owner@] as int == j);
                        assert(d0[j].owner@ != entity@);
                    }
                }
            }
        }
    }

    /// Replaces the entity's tint; null or absent entities are ignored.
    pub fn set_tint_color(&mut self, entity: &Entity, color: Vec4fx)
        requires
            old(self).inv(),
        ensures
            final(self).inv(),
            final(self).idx_map() == old(self).idx_map(),
            final(self).records().len() == old(self).records().len(),
            if entity@ != 0 && old(self).spec_has(*entity) {
                forall|i: int|
                    0 <= i < old(self).records().len() ==> final(self).records()[i] == (if i == old(
                        self,
                    ).idx_map()[entity@] as int {
                        TextData { tint: color, ..old(self).records()[i] }
                    } else {
                        old(self).records()[i]
                    })
            } else {
                final(self).records() =~= old(self).records()
            },
    {
        let nul = Entity::null();
        proof {
            Entity::lemma_view_injective(*entity, nul);
        }
        if *entity != nul {
            match self.lookup(entity) {
                Some(index) => {
                    self.data[index].tint = color;
                },
                None => (),
            }
        }
    }

    /// Replaces the entity's displayed text; null or absent entities are
    /// ignored.
    pub fn set_text(&mut self, entity: &Entity, text: &str)
        requires
            old(self).inv(),
        ensures
            final(self).inv(),
            final(self).idx_map() == old(self).idx_map(),
            final(self).records().len() == old(self).records().len(),
            if entity@ != 0 && old(self).spec_has(*entity) {
                forall|i: int|
                    0 <= i < old(self).records().len() ==> (if i == old(self).idx_map()[entity@] as int {
                        final(self).records()[i].text@ == text@ && final(self).records()[i].owner
                            == old(self).records()[i].owner && final(self).records()[i].tint == old(
                            self,
                        ).records()[i].tint
                    } else {
                        final(self).records()[i] == old(self).records()[i]
                    })
            } else {
                final(self).records() =~= old(self).records()
            },
    {
        let nul = Entity::null();
        proof {
            Entity::lemma_view_injective(*entity, nul);
        }
        if *entity != nul {
            match self.lookup(entity) {
                Some(index) => {
                    self.data[index].text = text.to_string();
                },
                None => (),
            }
        }
    }
}

} // verus!
