//! Signed fixed-point scalars: an `i64` holding a real number scaled by
//! `FX_ONE` (16 fractional bits). All physical quantities of the engine
//! (positions, extents, velocities, masses, hitpoints, times) are carried in
//! this form, so every computation of the simulation is exact integer
//! arithmetic: addition and subtraction saturate at the representable range,
//! multiplication and division rescale with truncation toward zero.

use vstd::prelude::*;

verus! {

/// The fixed-point representation of 1.0: values carry 16 fractional bits.
pub const FX_ONE: i64 = 65536;

/// The fixed-point representation of 0.5.
pub const FX_HALF: i64 = 32768;

/// Magnitude of an integer.
pub open spec fn iabs(v: int) -> int {
    if v >= 0 {
        v
    } else {
        -v
    }
}

/// Saturation to the representable range of a scalar.
pub open spec fn fx_clamp(v: int) -> int {
    if v > i64::MAX as int {
        i64::MAX as int
    } else if v < i64::MIN as int {
        i64::MIN as int
    } else {
        v
    }
}

/// Division truncated toward zero, the rounding of every rescaling step.
pub open spec fn tz_div(n: int, d: int) -> int
    recommends
        d != 0,
{
    let q = iabs(n) / iabs(d);
    if (n < 0) != (d < 0) {
        -q
    } else {
        q
    }
}

/// What fixed-point addition returns.
pub open spec fn spec_fx_add(a: int, b: int) -> int {
    fx_clamp(a + b)
}

/// What fixed-point subtraction returns.
pub open spec fn spec_fx_sub(a: int, b: int) -> int {
    fx_clamp(a - b)
}

/// What fixed-point multiplication returns: the exact product, rescaled with
/// truncation toward zero, then saturated.
pub open spec fn spec_fx_mul(a: int, b: int) -> int {
    fx_clamp(tz_div(a * b, FX_ONE as int))
}

/// What fixed-point division returns: the exact quotient scaled by `FX_ONE`,
/// truncated toward zero, then saturated.
pub open spec fn spec_fx_div(a: int, b: int) -> int
    recommends
        b != 0,
{
    fx_clamp(tz_div(a * (FX_ONE as int), b))
}

/// Saturating addition of two scalars.
pub fn fx_add(a: i64, b: i64) -> (r: i64)
    ensures
        r as int == spec_fx_add(a as int, b as int),
{
    let s: i128 = a as i128 + b as i128;
    if s > i64::MAX as i128 {
        i64::MAX
    } else if s < i64::MIN as i128 {
        i64::MIN
    } else {
        s as i64
    }
}

/// Saturating subtraction of two scalars.
pub fn fx_sub(a: i64, b: i64) -> (r: i64)
    ensures
        r as int == spec_fx_sub(a as int, b as int),
{
    let s: i128 = a as i128 - b as i128;
    if s > i64::MAX as i128 {
        i64::MAX
    } else if s < i64::MIN as i128 {
        i64::MIN
    } else {
        s as i64
    }
}

/// Saturating negation.
pub fn fx_neg(a: i64) -> (r: i64)
    ensures
        r as int == fx_clamp(-(a as int)),
{
    if a == i64::MIN {
        i64::MAX
    } else {
        -a
    }
}

/// Magnitude of a scalar, saturated (the magnitude of `i64::MIN` is one past
/// `i64::MAX`).
pub fn fx_abs(a: i64) -> (r: i64)
    ensures
        r as int == fx_clamp(iabs(a as int)),
{
    if a >= 0 {
        a
    } else if a == i64::MIN {
        i64::MAX
    } else {
        -a
    }
}

/// The smaller of two scalars.
pub fn fx_min(a: i64, b: i64) -> (r: i64)
    ensures
        r == if a <= b {
            a
        } else {
            b
        },
{
    if a <= b {
        a
    } else {
        b
    }
}

/// The larger of two scalars.
pub fn fx_max(a: i64, b: i64) -> (r: i64)
    ensures
        r == if a >= b {
            a
        } else {
            b
        },
{
    if a >= b {
        a
    } else {
        b
    }
}

/// Magnitude of a scalar as an unsigned machine word.
fn abs_u64(a: i64) -> (r: u64)
    ensures
        r as int == iabs(a as int),
{
    if a >= 0 {
        a as u64
    } else {
        (-(a as i128)) as u64
    }
}

/// Sign/magnitude recombination with saturation: the scalar whose value is
/// `m` negated when `neg` holds.
fn from_sign_magnitude(neg: bool, m: u128) -> (r: i64)
    ensures
        r as int == fx_clamp(if neg {
            -(m as int)
        } else {
            m as int
        }),
{
    if neg {
        if m >= 9223372036854775808u128 {
            i64::MIN
        } else {
            -(m as i64)
        }
    } else {
        if m > i64::MAX as u128 {
            i64::MAX
        } else {
            m as i64
        }
    }
}

/// Fixed-point multiplication: exact product, rescaled by `FX_ONE` with
/// truncation toward zero, saturated.
pub fn fx_mul(a: i64, b: i64) -> (r: i64)
    ensures
        r as int == spec_fx_mul(a as int, b as int),
{
    let neg: bool = (a < 0) != (b < 0);
    let ma: u64 = abs_u64(a);
    let mb: u64 = abs_u64(b);
    proof {
        assert((ma as int) * (mb as int) <= (u64::MAX as int) * (u64::MAX as int))
            by (nonlinear_arith)
            requires
                ma as int <= u64::MAX as int,
                mb as int <= u64::MAX as int,
        ;
    }
    let p: u128 = (ma as u128) * (mb as u128);
    let q: u128 = p / (FX_ONE as u128);
    proof {
        assert(iabs(a as int) * iabs(b as int) == iabs((a as int) * (b as int))
            && ((a as int) * (b as int) < 0 <==> ((a as int) < 0 != ((b as int) < 0)) && (a as int)
            * (b as int) != 0)) by (nonlinear_arith);
        assert(q as int == tz_div(iabs((a as int) * (b as int)), FX_ONE as int));
    }
    from_sign_magnitude(neg, q)
}

/// Fixed-point division: `a / b` scaled by `FX_ONE`, truncated toward zero,
/// saturated. The divisor must be nonzero.
pub fn fx_div(a: i64, b: i64) -> (r: i64)
    requires
        b != 0,
    ensures
        r as int == spec_fx_div(a as int, b as int),
{
    let neg: bool = (a < 0) != (b < 0);
    let ma: u64 = abs_u64(a);
    let mb: u64 = abs_u64(b);
    let p: u128 = (ma as u128) * (FX_ONE as u128);
    let q: u128 = p / (mb as u128);
    proof {
        assert(iabs(a as int) * (FX_ONE as int) == iabs((a as int) * (FX_ONE as int)))
            by (nonlinear_arith);
        assert((q as int) * iabs(b as int) <= iabs((a as int) * (FX_ONE as int)) && iabs(
            (a as int) * (FX_ONE as int),
        ) < ((q as int) + 1) * iabs(b as int)) by (nonlinear_arith)
            requires
                mb as int == iabs(b as int),
                b != 0,
                p as int == iabs((a as int) * (FX_ONE as int)),
                q == p / (mb as u128),
        ;
        assert(q as int == iabs((a as int) * (FX_ONE as int)) / iabs(b as int))
            by (nonlinear_arith)
            requires
                iabs(b as int) > 0,
                (q as int) * iabs(b as int) <= iabs((a as int) * (FX_ONE as int)),
                iabs((a as int) * (FX_ONE as int)) < ((q as int) + 1) * iabs(b as int),
        ;
    }
    from_sign_magnitude(neg, q)
}

/// Whole part of a scalar, truncated toward zero (`1.75` gives `1`, `-1.75`
/// gives `-1`).
pub fn fx_trunc(a: i64) -> (r: i64)
    ensures
        r as int == tz_div(a as int, FX_ONE as int),
{
    let neg: bool = a < 0;
    let ma: u64 = abs_u64(a);
    let q: u64 = ma / (FX_ONE as u64);
    if neg {
        -(q as i64)
    } else {
        q as i64
    }
}

/// Rescaling an exact multiple of the scale is exact: truncation does not
/// round a product `y * d` divided by `d`.
pub proof fn lemma_tz_scale_exact(y: int, d: int)
    requires
        d > 0,
    ensures
        tz_div(y * d, d) == y,
{
    assert(iabs(y * d) == iabs(y) * d && ((y * d < 0) <==> (y < 0 && d > 0))) by (nonlinear_arith)
        requires
            d > 0,
    ;
    assert(iabs(y) * d / d == iabs(y)) by (nonlinear_arith)
        requires
            d > 0,
    ;
}

/// Multiplying by plus or minus one (in fixed point) is exact negation or
/// identity, in either argument order, for values far enough from the
/// representable bounds.
pub proof fn lemma_fx_mul_pm_one(x: int, s: int)
    requires
        s == 1 || s == -1,
        -0x4000000000000000 <= x <= 0x4000000000000000,
    ensures
        spec_fx_mul(x, s * (FX_ONE as int)) == s * x,
        spec_fx_mul(s * (FX_ONE as int), x) == s * x,
{
    if s == 1 {
        assert(x * (s * (FX_ONE as int)) == x * (FX_ONE as int) && (s * (FX_ONE as int)) * x == x
            * (FX_ONE as int) && s * x == x) by (nonlinear_arith)
            requires
                s == 1,
        ;
        lemma_tz_scale_exact(x, FX_ONE as int);
    } else {
        assert(x * (s * (FX_ONE as int)) == (-x) * (FX_ONE as int) && (s * (FX_ONE as int)) * x == (
        -x) * (FX_ONE as int) && s * x == -x) by (nonlinear_arith)
            requires
                s == -1,
        ;
        lemma_tz_scale_exact(-x, FX_ONE as int);
    }
}

/// Multiplying by zero gives zero, in either argument order.
pub proof fn lemma_fx_mul_zero(x: int)
    ensures
        spec_fx_mul(x, 0) == 0,
        spec_fx_mul(0, x) == 0,
{
    assert(x * 0 == 0) by (nonlinear_arith);
    assert(0 * x == 0) by (nonlinear_arith);
}

} // verus!
