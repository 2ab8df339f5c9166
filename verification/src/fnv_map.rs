//! The entity-to-slot index maps of the component systems: `std`'s `HashMap`
//! keyed by raw entity handles, hashed with fnv's Fowler–Noll–Vo hasher (the
//! map type every component system of the engine stores as its sparse side).
//! FNV-1a is a pure function of the hashed bytes and `FnvBuildHasher` builds
//! its hashers without state, so the map behaves exactly as `std` documents
//! `HashMap`; each operation the systems use is declared here with that
//! documented meaning.

use vstd::prelude::*;

use std::collections::HashMap;

verus! {

#[verifier::external_type_specification]
#[verifier::external_body]
pub struct ExFnvHasher(fnv::FnvHasher);

#[verifier::external_type_specification]
#[verifier::external_body]
#[verifier::reject_recursive_types(H)]
pub struct ExBuildHasherDefault<H>(std::hash::BuildHasherDefault<H>);

/// Relies on fnv::FnvHashMap::with_capacity_and_hasher: the returned map is
/// empty.
#[verifier::external_body]
pub(crate) fn new_index_map() -> (m: HashMap<u32, usize, fnv::FnvBuildHasher>)
    ensures
        forall|k: u32| !m@.contains_key(k),
{
    fnv::FnvHashMap::with_capacity_and_hasher(1, Default::default())
}

/// Relies on std's HashMap::insert (deterministic here because FNV-1a hashers
/// agree on every stream): afterwards the key maps to the value, all else
/// unchanged.
#[verifier::external_body]
pub(crate) fn map_insert(m: &mut HashMap<u32, usize, fnv::FnvBuildHasher>, k: u32, v: usize)
    ensures
        final(m)@ == old(m)@.insert(k, v),
{
    m.insert(k, v);
}

/// Relies on std's HashMap::remove (deterministic here because FNV-1a hashers
/// agree on every stream): afterwards the key is unmapped, all else
/// unchanged.
#[verifier::external_body]
pub(crate) fn map_remove(m: &mut HashMap<u32, usize, fnv::FnvBuildHasher>, k: u32)
    ensures
        final(m)@ == old(m)@.remove(k),
{
    m.remove(&k);
}

/// Relies on std's HashMap::get (deterministic here because FNV-1a hashers
/// agree on every stream): the value the key maps to, or nothing when it is
/// unmapped.
#[verifier::external_body]
pub(crate) fn map_get(m: &HashMap<u32, usize, fnv::FnvBuildHasher>, k: u32) -> (r: Option<usize>)
    ensures
        r == if m@.contains_key(k) {
            Some(m@[k])
        } else {
            None::<usize>
        },
{
    match m.get(&k) {
        Some(v) => Some(*v),
        None => None,
    }
}

/// Relies on std's HashMap::contains_key (deterministic here because FNV-1a
/// hashers agree on every stream).
#[verifier::external_body]
pub(crate) fn map_contains(m: &HashMap<u32, usize, fnv::FnvBuildHasher>, k: u32) -> (r: bool)
    ensures
        r == m@.contains_key(k),
{
    m.contains_key(&k)
}

} // verus!
