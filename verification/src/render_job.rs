//! The plain data handed to the renderer: resolved resource handles plus the
//! spatial and color state of one drawn instance. The renderer itself is an
//! external collaborator; the engine only assembles these records.

use vstd::prelude::*;

use crate::math::Quatfx;
use crate::math::Vec2fx;
use crate::math::Vec3fx;
use crate::math::Vec4fx;

verus! {

/// A loaded model as the renderer names it: its vertex-array handle, its
/// index count and its draw mode.
#[derive(Clone, Copy, Debug, PartialEq, Eq, Structural)]
pub struct ModelInfo {
    pub vao: u32,
    pub index_count: i32,
    pub render_mode: u32,
}

/// One drawing request: which model, shader and texture set to use, and the
/// instance's transform and tints.
#[derive(Clone, Copy, Debug)]
pub struct RenderJob {
    pub model: ModelInfo,
    pub shader: u32,
    pub textures: usize,
    pub scale: Vec3fx,
    pub uv_size: Vec2fx,
    pub uv_offset: Vec2fx,
    pub position: Vec3fx,
    pub pivot: Vec3fx,
    pub rotation: Quatfx,
    pub tint: Vec4fx,
    pub emissive_tint: Vec4fx,
}

} // verus!
