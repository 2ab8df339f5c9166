//! Small fixed-point linear algebra: the two-, three- and four-component
//! vectors and the quaternion that the component systems store. Every
//! operation is defined exactly over the scalar arithmetic of `fixed`.

use vstd::prelude::*;

use crate::fixed::fx_add;
use crate::fixed::fx_mul;
use crate::fixed::fx_neg;
use crate::fixed::fx_sub;
use crate::fixed::fx_clamp;
use crate::fixed::spec_fx_add;
use crate::fixed::spec_fx_mul;
use crate::fixed::spec_fx_sub;
use crate::fixed::FX_ONE;

verus! {

/// A two-component fixed-point vector (texture coordinates, glyph cells).
#[derive(Clone, Copy, Debug, PartialEq, Eq, Structural)]
pub struct Vec2fx {
    pub x: i64,
    pub y: i64,
}

/// A three-component fixed-point vector (positions, extents, velocities).
#[derive(Clone, Copy, Debug, PartialEq, Eq, Structural)]
pub struct Vec3fx {
    pub x: i64,
    pub y: i64,
    pub z: i64,
}

/// A four-component fixed-point vector (tint colors).
#[derive(Clone, Copy, Debug, PartialEq, Eq, Structural)]
pub struct Vec4fx {
    pub x: i64,
    pub y: i64,
    pub z: i64,
    pub w: i64,
}

/// A fixed-point rotation quaternion.
#[derive(Clone, Copy, Debug, PartialEq, Eq, Structural)]
pub struct Quatfx {
    pub x: i64,
    pub y: i64,
    pub z: i64,
    pub w: i64,
}

/// Componentwise saturating vector sum.
pub open spec fn spec_v3_add(a: Vec3fx, b: Vec3fx) -> Vec3fx {
    Vec3fx {
        x: spec_fx_add(a.x as int, b.x as int) as i64,
        y: spec_fx_add(a.y as int, b.y as int) as i64,
        z: spec_fx_add(a.z as int, b.z as int) as i64,
    }
}

/// Componentwise saturating vector difference.
pub open spec fn spec_v3_sub(a: Vec3fx, b: Vec3fx) -> Vec3fx {
    Vec3fx {
        x: spec_fx_sub(a.x as int, b.x as int) as i64,
        y: spec_fx_sub(a.y as int, b.y as int) as i64,
        z: spec_fx_sub(a.z as int, b.z as int) as i64,
    }
}

/// Componentwise fixed-point scaling by a scalar.
pub open spec fn spec_v3_scale(a: Vec3fx, s: int) -> Vec3fx {
    Vec3fx {
        x: spec_fx_mul(a.x as int, s) as i64,
        y: spec_fx_mul(a.y as int, s) as i64,
        z: spec_fx_mul(a.z as int, s) as i64,
    }
}

/// Componentwise saturating negation.
pub open spec fn spec_v3_neg(a: Vec3fx) -> Vec3fx {
    Vec3fx {
        x: fx_clamp(-(a.x as int)) as i64,
        y: fx_clamp(-(a.y as int)) as i64,
        z: fx_clamp(-(a.z as int)) as i64,
    }
}

/// Fixed-point dot product: the three componentwise products, summed left to
/// right with saturation.
pub open spec fn spec_v3_dot(a: Vec3fx, b: Vec3fx) -> int {
    spec_fx_add(
        spec_fx_add(spec_fx_mul(a.x as int, b.x as int), spec_fx_mul(a.y as int, b.y as int)),
        spec_fx_mul(a.z as int, b.z as int),
    )
}

impl Vec3fx {
    /// The vector with the three given components.
    pub fn new(x: i64, y: i64, z: i64) -> (r: Vec3fx)
        ensures
            r == (Vec3fx { x, y, z }),
    {
        Vec3fx { x, y, z }
    }

    /// The zero vector.
    pub fn zero() -> (r: Vec3fx)
        ensures
            r == (Vec3fx { x: 0i64, y: 0i64, z: 0i64 }),
    {
        Vec3fx { x: 0, y: 0, z: 0 }
    }

    /// Componentwise saturating sum.
    pub fn add(self, other: Vec3fx) -> (r: Vec3fx)
        ensures
            r == spec_v3_add(self, other),
    {
        Vec3fx {
            x: fx_add(self.x, other.x),
            y: fx_add(self.y, other.y),
            z: fx_add(self.z, other.z),
        }
    }

    /// Componentwise saturating difference.
    pub fn sub(self, other: Vec3fx) -> (r: Vec3fx)
        ensures
            r == spec_v3_sub(self, other),
    {
        Vec3fx {
            x: fx_sub(self.x, other.x),
            y: fx_sub(self.y, other.y),
            z: fx_sub(self.z, other.z),
        }
    }

    /// Componentwise fixed-point scaling.
    pub fn scale(self, s: i64) -> (r: Vec3fx)
        ensures
            r == spec_v3_scale(self, s as int),
    {
        Vec3fx { x: fx_mul(self.x, s), y: fx_mul(self.y, s), z: fx_mul(self.z, s) }
    }

    /// Componentwise saturating negation.
    pub fn neg(self) -> (r: Vec3fx)
        ensures
            r == spec_v3_neg(self),
    {
        Vec3fx { x: fx_neg(self.x), y: fx_neg(self.y), z: fx_neg(self.z) }
    }

    /// Fixed-point dot product.
    pub fn dot(self, other: Vec3fx) -> (r: i64)
        ensures
            r as int == spec_v3_dot(self, other),
    {
        fx_add(fx_add(fx_mul(self.x, other.x), fx_mul(self.y, other.y)), fx_mul(self.z, other.z))
    }

    /// Squared length: the dot product of the vector with itself.
    pub fn length_squared(self) -> (r: i64)
        ensures
            r as int == spec_v3_dot(self, self),
    {
        self.dot(self)
    }
}

/// The x component of the forward vector of the rotation matrix extracted
/// from a quaternion, with the y and z components beside it. Each entry
/// follows the standard quaternion-to-matrix products, evaluated in
/// fixed-point arithmetic; the forward vector is the negated third column.
pub open spec fn spec_quat_forward(q: Quatfx) -> (int, int, int) {
    let x2 = spec_fx_add(q.x as int, q.x as int);
    let y2 = spec_fx_add(q.y as int, q.y as int);
    let xx = spec_fx_mul(q.x as int, x2);
    let yy = spec_fx_mul(q.y as int, y2);
    let zx = spec_fx_mul(q.z as int, x2);
    let zy = spec_fx_mul(q.z as int, y2);
    let wx = spec_fx_mul(q.w as int, x2);
    let wy = spec_fx_mul(q.w as int, y2);
    (
        fx_clamp(-spec_fx_sub(zx, wy)),
        fx_clamp(-spec_fx_add(zy, wx)),
        fx_clamp(-spec_fx_sub(spec_fx_sub(FX_ONE as int, xx), yy)),
    )
}

/// The components of the right vector of the rotation matrix extracted from a
/// quaternion: the negated first column, evaluated in fixed-point arithmetic.
pub open spec fn spec_quat_right(q: Quatfx) -> (int, int, int) {
    let x2 = spec_fx_add(q.x as int, q.x as int);
    let y2 = spec_fx_add(q.y as int, q.y as int);
    let z2 = spec_fx_add(q.z as int, q.z as int);
    let yy = spec_fx_mul(q.y as int, y2);
    let zz = spec_fx_mul(q.z as int, z2);
    let yx = spec_fx_mul(q.y as int, x2);
    let zx = spec_fx_mul(q.z as int, x2);
    let wz = spec_fx_mul(q.w as int, z2);
    let wy = spec_fx_mul(q.w as int, y2);
    (
        fx_clamp(-spec_fx_sub(spec_fx_sub(FX_ONE as int, yy), zz)),
        fx_clamp(-spec_fx_sub(yx, wz)),
        fx_clamp(-spec_fx_add(zx, wy)),
    )
}

impl Quatfx {
    /// The identity rotation.
    pub fn identity() -> (r: Quatfx)
        ensures
            r == (Quatfx { x: 0i64, y: 0i64, z: 0i64, w: FX_ONE }),
    {
        Quatfx { x: 0, y: 0, z: 0, w: FX_ONE }
    }

    /// The forward vector of the rotation: the negated third column of the
    /// rotation matrix the quaternion describes.
    pub fn forward_vector(self) -> (r: Vec3fx)
        ensures
            (r.x as int, r.y as int, r.z as int) == spec_quat_forward(self),
    {
        let x2: i64 = fx_add(self.x, self.x);
        let y2: i64 = fx_add(self.y, self.y);
        let xx: i64 = fx_mul(self.x, x2);
        let yy: i64 = fx_mul(self.y, y2);
        let zx: i64 = fx_mul(self.z, x2);
        let zy: i64 = fx_mul(self.z, y2);
        let wx: i64 = fx_mul(self.w, x2);
        let wy: i64 = fx_mul(self.w, y2);
        Vec3fx {
            x: fx_neg(fx_sub(zx, wy)),
            y: fx_neg(fx_add(zy, wx)),
            z: fx_neg(fx_sub(fx_sub(FX_ONE, xx), yy)),
        }
    }

    /// The right vector of the rotation: the negated first column of the
    /// rotation matrix the quaternion describes.
    pub fn right_vector(self) -> (r: Vec3fx)
        ensures
            (r.x as int, r.y as int, r.z as int) == spec_quat_right(self),
    {
        let x2: i64 = fx_add(self.x, self.x);
        let y2: i64 = fx_add(self.y, self.y);
        let z2: i64 = fx_add(self.z, self.z);
        let yy: i64 = fx_mul(self.y, y2);
        let zz: i64 = fx_mul(self.z, z2);
        let yx: i64 = fx_mul(self.y, x2);
        let zx: i64 = fx_mul(self.z, x2);
        let wz: i64 = fx_mul(self.w, z2);
        let wy: i64 = fx_mul(self.w, y2);
        Vec3fx {
            x: fx_neg(fx_sub(fx_sub(FX_ONE, yy), zz)),
            y: fx_neg(fx_sub(yx, wz)),
            z: fx_neg(fx_add(zx, wy)),
        }
    }
}

/// An axis-aligned unit vector: exactly one component holds plus or minus
/// one (in fixed point), the others zero. Every contact normal the collision
/// test produces has this shape.
pub open spec fn spec_axis_unit(n: Vec3fx) -> bool {
    ||| (n.y == 0 && n.z == 0 && (n.x == FX_ONE || n.x as int == -(FX_ONE as int)))
    ||| (n.x == 0 && n.z == 0 && (n.y == FX_ONE || n.y as int == -(FX_ONE as int)))
    ||| (n.x == 0 && n.y == 0 && (n.z == FX_ONE || n.z as int == -(FX_ONE as int)))
}

/// The signed component of a vector along an axis-aligned unit vector.
pub open spec fn spec_axis_val(v: Vec3fx, n: Vec3fx) -> int {
    if n.x != 0 {
        if n.x > 0 {
            v.x as int
        } else {
            -(v.x as int)
        }
    } else if n.y != 0 {
        if n.y > 0 {
            v.y as int
        } else {
            -(v.y as int)
        }
    } else {
        if n.z > 0 {
            v.z as int
        } else {
            -(v.z as int)
        }
    }
}

/// The dot product with an axis-aligned unit vector is exactly the signed
/// component along that axis, for components far enough from the
/// representable bounds.
pub proof fn lemma_dot_axis_unit(v: Vec3fx, n: Vec3fx)
    requires
        spec_axis_unit(n),
        -0x4000000000000000 <= v.x as int <= 0x4000000000000000,
        -0x4000000000000000 <= v.y as int <= 0x4000000000000000,
        -0x4000000000000000 <= v.z as int <= 0x4000000000000000,
    ensures
        spec_v3_dot(v, n) == spec_axis_val(v, n),
{
    crate::fixed::lemma_fx_mul_zero(v.x as int);
    crate::fixed::lemma_fx_mul_zero(v.y as int);
    crate::fixed::lemma_fx_mul_zero(v.z as int);
    if n.x != 0 {
        if n.x > 0 {
            crate::fixed::lemma_fx_mul_pm_one(v.x as int, 1);
            assert(n.x as int == 1 * (FX_ONE as int));
        } else {
            crate::fixed::lemma_fx_mul_pm_one(v.x as int, -1);
            assert(n.x as int == (-1) * (FX_ONE as int));
        }
    } else if n.y != 0 {
        if n.y > 0 {
            crate::fixed::lemma_fx_mul_pm_one(v.y as int, 1);
            assert(n.y as int == 1 * (FX_ONE as int));
        } else {
            crate::fixed::lemma_fx_mul_pm_one(v.y as int, -1);
            assert(n.y as int == (-1) * (FX_ONE as int));
        }
    } else {
        if n.z > 0 {
            crate::fixed::lemma_fx_mul_pm_one(v.z as int, 1);
            assert(n.z as int == 1 * (FX_ONE as int));
        } else {
            crate::fixed::lemma_fx_mul_pm_one(v.z as int, -1);
            assert(n.z as int == (-1) * (FX_ONE as int));
        }
    }
}

} // verus!
