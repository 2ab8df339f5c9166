//! Entity handles and their lifecycle manager. A handle packs a 24-bit slot
//! index and an 8-bit generation counter into one `u32`; a handle is alive
//! exactly while the generation stored at its index equals the handle's
//! generation. Destroying an entity advances the stored generation (wrapping
//! at 256) and queues the index for reuse, so stale handles of earlier
//! generations never pass the aliveness check until the counter has wrapped
//! all the way around.

use vstd::prelude::*;

use std::collections::VecDeque;

verus! {

/// Number of low bits of a handle that carry the slot index.
pub const ENTITY_INDEX_BITS: u32 = 24;

/// Number of handle bits that carry the generation.
pub const ENTITY_GENERATION_BITS: u32 = 8;

/// Mask selecting the index bits of a handle.
pub const ENTITY_INDEX_MASK: u32 = 0xFFFFFF;

/// Mask selecting the generation bits of a handle, after shifting.
pub const ENTITY_GENERATION_MASK: u32 = 0xFF;

/// One past the largest slot index a handle can carry.
pub const ENTITY_INDEX_LIMIT: u32 = 0x1000000;

/// An index is reused only once this many destroyed indices are pending,
/// which spaces out generation reuse under heavy churn.
pub const MINIMUM_FREE_INDICES: usize = 1024;

/// An opaque entity handle: 24 bits of slot index, 8 bits of generation.
#[derive(Debug, Clone, Copy, PartialEq, Eq, Hash, Structural)]
pub struct Entity(u32);

impl View for Entity {
    type V = u32;

    closed spec fn view(&self) -> u32 {
        self.0
    }
}

/// The slot index packed into the raw handle value.
pub open spec fn index_of(raw: u32) -> int {
    (raw as int) % (ENTITY_INDEX_LIMIT as int)
}

/// The generation packed into the raw handle value.
pub open spec fn gen_of(raw: u32) -> int {
    (raw as int) / (ENTITY_INDEX_LIMIT as int)
}

impl Entity {
    /// The reserved null handle: index 0, generation 0. It is allocated
    /// first by every manager and never used for gameplay.
    pub fn null() -> (r: Entity)
        ensures
            r@ == 0u32,
    {
        Entity(0)
    }

    /// The handle with the given index and generation; index bits beyond the
    /// 24 available are masked away.
    pub fn new(index: u32, generation: u8) -> (r: Entity)
        ensures
            index_of(r@) == (index as int) % (ENTITY_INDEX_LIMIT as int),
            gen_of(r@) == generation as int,
    {
        let raw: u32 = (index & ENTITY_INDEX_MASK) | ((generation as u32 & ENTITY_GENERATION_MASK)
            << ENTITY_INDEX_BITS);
        proof {
            let packed = ((index & 0xFFFFFFu32) | ((generation as u32 & 0xFFu32) << 24u32));
            assert(packed % 0x1000000u32 == index % 0x1000000u32 && packed / 0x1000000u32
                == generation as u32) by (bit_vector)
                requires
                    (generation as u32) < 256u32,
                    packed == ((index & 0xFFFFFFu32) | ((generation as u32 & 0xFFu32) << 24u32)),
            ;
        }
        Entity(raw)
    }

    /// The slot index of the handle.
    pub fn index(&self) -> (r: u32)
        ensures
            r as int == index_of(self@),
    {
        let raw: u32 = self.0;
        proof {
            assert(raw & 0xFFFFFFu32 == raw % 0x1000000u32) by (bit_vector);
        }
        raw & ENTITY_INDEX_MASK
    }

    /// The generation of the handle.
    pub fn generation(&self) -> (r: u8)
        ensures
            r as int == gen_of(self@),
    {
        let raw: u32 = self.0;
        proof {
            assert(((raw >> 24u32) & 0xFFu32) == raw / 0x1000000u32 && raw / 0x1000000u32 < 256u32)
                by (bit_vector);
        }
        ((raw >> ENTITY_INDEX_BITS) & ENTITY_GENERATION_MASK) as u8
    }

    /// The raw packed handle value.
    pub fn raw(&self) -> (r: u32)
        ensures
            r == self@,
    {
        self.0
    }

    /// Two handles are equal exactly when their raw values are.
    pub proof fn lemma_view_injective(a: Entity, b: Entity)
        ensures
            (a == b) <==> (a@ == b@),
    {
    }
}

/// Advancing a generation between 1 and 255 times never returns it to its
/// old value, so a destroyed handle cannot alias a later one at the same
/// index until the 8-bit counter has wrapped completely.
pub proof fn lemma_generation_no_alias(g: u8, k: int)
    requires
        1 <= k < 256,
    ensures
        (g as int + k) % 256 != g as int,
{
    let s = g as int + k;
    if s < 256 {
        assert(s % 256 == s) by (nonlinear_arith)
            requires
                0 <= s < 256,
        ;
    } else {
        assert(s % 256 == s - 256) by (nonlinear_arith)
            requires
                256 <= s < 512,
        ;
    }
}

/// A destroyed handle never aliases a handle minted later at the same slot
/// while the slot's generation has advanced between 1 and 255 times: the two
/// raw values differ, and the stale one stays dead.
pub proof fn lemma_no_stale_alias(em: &EntityManager, stale: Entity, fresh: Entity, bumps: int)
    requires
        index_of(stale@) == index_of(fresh@),
        1 <= bumps < 256,
        gen_of(fresh@) == (gen_of(stale@) + bumps) % 256,
        em.spec_alive(fresh),
    ensures
        stale@ != fresh@,
        !em.spec_alive(stale),
{
    assert(0 <= gen_of(stale@) < 256) by {
        let raw = stale@;
        assert(raw / 0x1000000u32 < 256u32) by (bit_vector);
    }
    lemma_generation_no_alias(gen_of(stale@) as u8, bumps);
}

/// Two handles that are both alive at the same slot carry the slot's one
/// stored generation, so they are the same handle.
pub proof fn lemma_alive_same_index_same_handle(em: &EntityManager, a: Entity, b: Entity)
    requires
        em.spec_alive(a),
        em.spec_alive(b),
        index_of(a@) == index_of(b@),
    ensures
        a@ == b@,
{
    vstd::arithmetic::div_mod::lemma_fundamental_div_mod(a@ as int, ENTITY_INDEX_LIMIT as int);
    vstd::arithmetic::div_mod::lemma_fundamental_div_mod(b@ as int, ENTITY_INDEX_LIMIT as int);
}

/// Allocates and recycles entity handles. Parallel tables hold each slot's
/// current generation and its active flag; destroyed slot indices wait in a
/// FIFO queue until enough have accumulated to be reused.
pub struct EntityManager {
    generation: Vec<u8>,
    active: Vec<bool>,
    free_indices: VecDeque<u32>,
}

impl EntityManager {
    /// The generation table: one counter per slot ever allocated.
    pub closed spec fn gens(&self) -> Seq<u8> {
        self.generation@
    }

    /// The active-flag table, parallel to the generation table.
    pub closed spec fn actives(&self) -> Seq<bool> {
        self.active@
    }

    /// The queue of destroyed slot indices awaiting reuse, oldest first.
    pub closed spec fn free(&self) -> Seq<u32> {
        self.free_indices@
    }

    /// Well-formedness: the tables are parallel, the slot count fits the
    /// 24-bit index space, and every queued index names an existing slot.
    pub open spec fn inv(&self) -> bool {
        &&& self.gens().len() == self.actives().len()
        &&& self.gens().len() <= ENTITY_INDEX_LIMIT as int
        &&& forall|i: int|
            0 <= i < self.free().len() ==> (#[trigger] self.free()[i]) < self.gens().len()
    }

    /// A handle is alive when its index names a slot whose stored generation
    /// equals the handle's generation.
    pub open spec fn spec_alive(&self, e: Entity) -> bool {
        &&& index_of(e@) < self.gens().len()
        &&& self.gens()[index_of(e@)] as int == gen_of(e@)
    }

    /// A fresh manager holding exactly the pre-allocated null entity.
    pub fn new() -> (r: EntityManager)
        ensures
            r.inv(),
            r.gens() =~= seq![0u8],
            r.actives() =~= seq![true],
            r.free() =~= Seq::<u32>::empty(),
    {
        let mut em = EntityManager {
            generation: Vec::new(),
            active: Vec::new(),
            free_indices: VecDeque::new(),
        };
        em.create_new_entity();
        em
    }

    /// Allocates a handle: reuses the oldest queued index once more than
    /// `MINIMUM_FREE_INDICES` are pending, otherwise appends a fresh slot at
    /// generation 0. The returned handle is alive and active, and the
    /// aliveness of every previously existing handle is unchanged — in
    /// particular a destroyed handle stays dead even when its index is
    /// reused.
    pub fn create_new_entity(&mut self) -> (r: Entity)
        requires
            old(self).inv(),
            old(self).free().len() > MINIMUM_FREE_INDICES as int || old(self).gens().len()
                < ENTITY_INDEX_LIMIT as int,
        ensures
            final(self).inv(),
            final(self).spec_alive(r),
            index_of(r@) < final(self).gens().len(),
            final(self).actives()[index_of(r@)],
            final(self).free().len() <= old(self).free().len(),
            forall|e2: Entity|
                index_of(e2@) < old(self).gens().len() ==> (#[trigger] final(self).spec_alive(e2))
                    == old(self).spec_alive(e2),
            forall|e2: Entity|
                index_of(e2@) < old(self).gens().len() && index_of(e2@) != index_of(r@)
                    ==> final(self).actives()[index_of(e2@)] == old(self).actives()[index_of(e2@)],
            if old(self).free().len() > MINIMUM_FREE_INDICES as int {
                &&& index_of(r@) == old(self).free()[0] as int
                &&& final(self).gens() =~= old(self).gens()
                &&& final(self).free() =~= old(self).free().subrange(1, old(self).free().len() as int)
                &&& final(self).actives() =~= old(self).actives().update(index_of(r@), true)
            } else {
                &&& index_of(r@) == old(self).gens().len()
                &&& gen_of(r@) == 0
                &&& final(self).gens() =~= old(self).gens().push(0u8)
                &&& final(self).actives() =~= old(self).actives().push(true)
                &&& final(self).free() =~= old(self).free()
            },
    {
        let mut idx: u32 = 0;

        if self.free_indices.len() > MINIMUM_FREE_INDICES {
            idx = match self.free_indices.pop_front() {
                Some(i) => i,
                None => 0,
            };
            self.active[idx as usize] = true;
        } else {
            self.generation.push(0);
            self.active.push(true);
            idx = (self.generation.len() - 1) as u32;
        }

        let g: u8 = self.generation[idx as usize];
        let e = Entity::new(idx, g);
        proof {
            assert(index_of(e@) == idx as int) by {
                assert((idx as int) % 0x1000000 == idx as int) by (nonlinear_arith)
                    requires
                        0 <= (idx as int) < 0x1000000,
                ;
            }
        }
        e
    }

    /// Whether the entity's slot is flagged active. The handle's index must
    /// name an existing slot.
    pub fn entity_is_active(&self, entity: &Entity) -> (r: bool)
        requires
            index_of(entity@) < self.actives().len(),
        ensures
            r == self.actives()[index_of(entity@)],
    {
        self.active[entity.index() as usize]
    }

    /// Whether the handle is alive: its generation matches the slot's. The
    /// handle's index must name an existing slot.
    pub fn entity_is_alive(&self, entity: &Entity) -> (r: bool)
        requires
            index_of(entity@) < self.gens().len(),
        ensures
            r == self.spec_alive(*entity),
    {
        self.generation[entity.index() as usize] == entity.generation()
    }

    /// Sets the active flag of a live entity's slot; a dead handle is
    /// ignored.
    pub fn set_entity_is_active(&mut self, entity: &Entity, active: bool)
        requires
            old(self).inv(),
            index_of(entity@) < old(self).gens().len(),
        ensures
            final(self).inv(),
            final(self).gens() =~= old(self).gens(),
            final(self).free() =~= old(self).free(),
            final(self).actives() =~= if old(self).spec_alive(*entity) {
                old(self).actives().update(index_of(entity@), active)
            } else {
                old(self).actives()
            },
    {
        if self.entity_is_alive(entity) == true {
            let idx = entity.index();
            self.active[idx as usize] = active;
        }
        proof {
            assert(self.free() == old(self).free());
            assert(self.gens() == old(self).gens());
        }
    }

    /// Flips the active flag of a live entity's slot; a dead handle is
    /// ignored.
    pub fn toggle_entity_is_active(&mut self, entity: &Entity)
        requires
            old(self).inv(),
            index_of(entity@) < old(self).gens().len(),
        ensures
            final(self).inv(),
            final(self).gens() =~= old(self).gens(),
            final(self).free() =~= old(self).free(),
            final(self).actives() =~= if old(self).spec_alive(*entity) {
                old(self).actives().update(
                    index_of(entity@),
                    !old(self).actives()[index_of(entity@)],
                )
            } else {
                old(self).actives()
            },
    {
        if self.entity_is_alive(entity) == true {
            let idx = entity.index();
            let flag: bool = self.active[idx as usize];
            self.active[idx as usize] = !flag;
        }
        proof {
            assert(self.free() == old(self).free());
            assert(self.gens() == old(self).gens());
        }
    }

    /// Destroys the entity at the handle's index: the slot's generation
    /// advances by one (wrapping at 256) and the index joins the reuse
    /// queue. A handle that was alive is dead afterwards; handles at other
    /// indices are untouched.
    pub fn destroy_entity(&mut self, entity: &Entity)
        requires
            old(self).inv(),
            index_of(entity@) < old(self).gens().len(),
        ensures
            final(self).inv(),
            final(self).gens() =~= old(self).gens().update(
                index_of(entity@),
                ((old(self).gens()[index_of(entity@)] as int + 1) % 256) as u8,
            ),
            final(self).actives() =~= old(self).actives(),
            final(self).free() =~= old(self).free().push((index_of(entity@)) as u32),
            old(self).spec_alive(*entity) ==> !final(self).spec_alive(*entity),
            forall|e2: Entity|
                index_of(e2@) != index_of(entity@) ==> (#[trigger] final(self).spec_alive(e2)) == old(
                    self,
                ).spec_alive(e2),
    {
        let idx = entity.index();
        let g: u8 = self.generation[idx as usize];
        let g2: u8 = if g == 255 {
            0
        } else {
            g + 1
        };
        self.generation[idx as usize] = g2;
        self.free_indices.push_back(idx);
        proof {
            assert(self.free() == old(self).free().push(idx));
            assert(self.actives() == old(self).actives());
        }
    }
}

} // verus!
