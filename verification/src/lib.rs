//! A small game-engine core: an entity-component framework over
//! generation-checked handles and dense, swap-compacted component stores,
//! with a fixed-timestep rigid-body simulation (pairwise box collision,
//! impulse resolution, positional correction, footholds, contact damage and
//! ray casting), hitpoint tracking, particle emitters, and the binary model
//! file codec. All physical quantities are fixed-point integers, so the
//! whole simulation is exact, deterministic arithmetic; rendering, file and
//! clock I/O and floating-point conversion live outside the library.

use vstd::prelude::*;

pub mod drawable;
pub mod entity;
pub mod fixed;
pub mod fnv_map;
pub mod health;
pub mod math;
pub mod model_codec;
pub mod particle_emitter;
pub mod prng;
pub mod range;
pub mod render_job;
pub mod rigid_body;
pub mod text;
pub mod transformation;

verus! {

/// Coarse 2D search direction used by gameplay-level queries.
#[derive(Clone, Copy, Debug, PartialEq, Eq, Structural)]
pub enum SearchDirection2D {
    Up,
    Left,
    Down,
    Right,
}

} // verus!
