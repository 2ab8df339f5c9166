//! The injected pseudo-random generator. The engine mandates no algorithm;
//! it draws raw 64-bit words from gameprng's xorshift generator and derives
//! bounded fixed-point factors from them itself.

use vstd::prelude::*;

verus! {

#[verifier::external_type_specification]
#[verifier::external_body]
pub struct ExXorShift128Plus(gameprng::xorshift128plus::XorShift128Plus);

/// Relies on gameprng's `PrngAlgorithm::next` for `XorShift128Plus`: one
/// 64-bit draw, advancing the generator's state. Nothing is promised of the
/// value.
#[verifier::external_body]
pub(crate) fn prng_next(prng: &mut gameprng::xorshift128plus::XorShift128Plus) -> u64 {
    gameprng::prng_traits::PrngAlgorithm::next(prng)
}

/// The unit-interval fixed-point factor carried by the top bits of a raw
/// draw.
pub fn unit_factor(raw: u64) -> (f: i64)
    ensures
        0 <= f <= crate::fixed::FX_ONE,
{
    let shifted: u64 = raw >> 48;
    proof {
        assert(raw >> 48u64 < 65536u64) by (bit_vector);
    }
    shifted as i64
}

} // verus!
