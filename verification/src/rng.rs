//! The random source: a seedable ChaCha stream cipher generator, threaded by
//! mutable reference through every stochastic operator so that a fixed seed
//! fixes the whole sequence of draws.

use vstd::prelude::*;
use crate::bits;

verus! {

#[verifier::external_type_specification]
#[verifier::external_body]
pub struct ExChaCha8Rng(rand_chacha::ChaCha8Rng);

/// Relies on `gen_bool` of rand's `Rng`: true with probability `p`, where
/// `p` is the value of the given pattern; always false for a zero `p` and
/// always true for `p` one, as rand documents of the underlying Bernoulli
/// distribution. `gen_bool` panics outside [0, 1], which the precondition
/// rules out. `copysignf` of libm and `cast` of bytemuck only move between
/// the pattern and its value.
#[verifier::external_body]
pub(crate) fn bernoulli_draw(rng: &mut rand_chacha::ChaCha8Rng, p: u32) -> (r: bool)
    requires
        bits::is_unit_interval(p),
    ensures
        bits::is_zero(p) ==> !r,
        p == bits::ONE ==> r,
{
    let v = libm::copysignf(bytemuck::cast(p), bytemuck::cast(p));
    rand::Rng::gen_bool(rng, v.into())
}

/// Relies on `gen` of rand's `Rng` with the `Standard` distribution over
/// single-precision values: a value uniform in [0, 1), so its pattern lies
/// strictly below the pattern of 1.0. `fabsf` of libm is the identity on
/// that range and only pins the sampled type; `cast` of bytemuck moves the
/// value to its pattern.
#[verifier::external_body]
pub(crate) fn unit_draw(rng: &mut rand_chacha::ChaCha8Rng) -> (r: u32)
    ensures
        r < bits::ONE,
{
    bytemuck::cast(libm::fabsf(rand::Rng::gen(rng)))
}

/// Relies on `gen_range` of rand's `Rng` over the closed range from -1.0 to
/// 1.0: a value uniform in that range, so its pattern is one of a value v
/// with -1.0 <= v <= 1.0. The callers hand the patterns of the two bounds
/// in. `copysignf` of libm and `cast` of bytemuck only move between a
/// pattern and its value, and `fmaxf` of libm applied to the value and
/// itself is the identity and only pins the sampled type.
#[verifier::external_body]
pub(crate) fn symmetric_unit_draw(rng: &mut rand_chacha::ChaCha8Rng, lo: u32, hi: u32) -> (r: u32)
    requires
        lo == bits::NEG_ONE,
        hi == bits::ONE,
    ensures
        bits::is_symmetric_unit(r),
{
    let low = libm::copysignf(bytemuck::cast(lo), bytemuck::cast(lo));
    let high = libm::copysignf(bytemuck::cast(hi), bytemuck::cast(hi));
    let v = rand::Rng::gen_range(rng, low..=high);
    bytemuck::cast(libm::fmaxf(v, v))
}

} // verus!
