//! Closed scalar ranges, stored as a minimum and a width, used by the
//! particle emitter for lifetimes and velocities.

use vstd::prelude::*;

use crate::fixed::fx_add;
use crate::fixed::fx_mul;
use crate::fixed::fx_sub;
use crate::fixed::spec_fx_add;
use crate::fixed::spec_fx_mul;
use crate::fixed::spec_fx_sub;
use crate::fixed::FX_HALF;
use crate::fixed::FX_ONE;
use crate::prng::prng_next;
use crate::prng::unit_factor;

verus! {

/// A scalar range `[min, min + diff]`.
pub struct Range {
    pub min: i64,
    pub diff: i64,
}

impl Range {
    /// The range from `min` to `max`, stored as minimum and width.
    pub fn new(min: i64, max: i64) -> (r: Range)
        ensures
            r.min == min,
            r.diff as int == spec_fx_sub(max as int, min as int),
    {
        Range { min, diff: fx_sub(max, min) }
    }

    /// The lower bound.
    pub fn get_min(&self) -> (r: i64)
        ensures
            r == self.min,
    {
        self.min
    }

    /// The upper bound: the minimum plus the width.
    pub fn get_max(&self) -> (r: i64)
        ensures
            r as int == spec_fx_add(self.min as int, self.diff as int),
    {
        fx_add(self.min, self.diff)
    }

    /// The midpoint: half the sum of both bounds.
    pub fn get_average(&self) -> (r: i64)
        ensures
            r as int == spec_fx_mul(
                spec_fx_add(spec_fx_add(self.min as int, self.min as int), self.diff as int),
                FX_HALF as int,
            ),
    {
        fx_mul(fx_add(fx_add(self.min, self.min), self.diff), FX_HALF)
    }

    /// Linear interpolation across the range by a factor clamped to the unit
    /// interval.
    pub fn lerp(&self, t: i64) -> (r: i64)
        ensures
            ({
                let tc = if t < 0 {
                    0
                } else if t > FX_ONE as int {
                    FX_ONE as int
                } else {
                    t as int
                };
                r as int == spec_fx_add(
                    spec_fx_mul(spec_fx_sub(FX_ONE as int, tc), self.min as int),
                    spec_fx_mul(tc, spec_fx_add(self.min as int, self.diff as int)),
                )
            }),
    {
        let t_clamped: i64 = if t < 0 {
            0
        } else if t > FX_ONE {
            FX_ONE
        } else {
            t
        };
        fx_add(
            fx_mul(fx_sub(FX_ONE, t_clamped), self.min),
            fx_mul(t_clamped, fx_add(self.min, self.diff)),
        )
    }

    /// A pseudo-random value of the range: the minimum plus a drawn unit
    /// factor of the width. Whatever the generator yields, the result is
    /// this interpolation for some factor of the unit interval.
    pub fn get_random(&self, prng: &mut gameprng::xorshift128plus::XorShift128Plus) -> (r: i64)
        ensures
            exists|f: int|
                0 <= f <= FX_ONE as int && r as int == spec_fx_add(
                    self.min as int,
                    #[trigger] spec_fx_mul(f, self.diff as int),
                ),
    {
        let factor = unit_factor(prng_next(prng));
        let r = fx_add(self.min, fx_mul(factor, self.diff));
        proof {
            assert(0 <= factor as int <= FX_ONE as int && r as int == spec_fx_add(
                self.min as int,
                spec_fx_mul(factor as int, self.diff as int),
            ));
        }
        r
    }
}

} // verus!
