//! Bit-level model of IEEE 754 single-precision values.
//!
//! Every gene, bias, weight and fitness value in this crate is carried as the
//! 32-bit pattern of a single-precision value. On the non-negative patterns
//! the unsigned order of the patterns agrees with the numeric order of the
//! values, so range checks such as "is a probability" are plain integer
//! comparisons here. The three arithmetic operations the library needs
//! (addition, multiplication and the larger-of-two) are trusted wrappers
//! around the machine's single-precision arithmetic. Where the operation's
//! result is a value, round-to-nearest-even makes it a function of the two
//! patterns, and the wrappers name it by an uninterpreted function; where it
//! is a freshly produced NaN (or, for the larger-of-two, a zero picked from
//! the pair +0.0/-0.0), the language leaves the returned pattern open, and
//! the wrappers promise only the class of the result.

use vstd::prelude::*;

verus! {

/// Pattern of +0.0.
pub const POS_ZERO: u32 = 0x0000_0000;
/// Pattern of -0.0.
pub const NEG_ZERO: u32 = 0x8000_0000;
/// Pattern of 0.5.
pub const ONE_HALF: u32 = 0x3F00_0000;
/// Pattern of 1.0.
pub const ONE: u32 = 0x3F80_0000;
/// Pattern of -1.0.
pub const NEG_ONE: u32 = 0xBF80_0000;
/// Pattern of positive infinity.
pub const POS_INFINITY: u32 = 0x7F80_0000;
/// Pattern of negative infinity.
pub const NEG_INFINITY: u32 = 0xFF80_0000;

/// The pattern stands for a zero (of either sign).
pub open spec fn is_zero(b: u32) -> bool {
    b == POS_ZERO || b == NEG_ZERO
}

/// The pattern stands for an infinity (of either sign).
pub open spec fn is_infinity(b: u32) -> bool {
    b == POS_INFINITY || b == NEG_INFINITY
}

/// The pattern stands for a NaN: all-ones exponent and a non-zero fraction,
/// so a pattern strictly between positive infinity and -0.0, or strictly
/// above negative infinity.
pub open spec fn is_nan(b: u32) -> bool {
    (POS_INFINITY < b < NEG_ZERO) || b > NEG_INFINITY
}

/// The pattern stands for a value v with 0.0 <= v <= 1.0 (so not a NaN).
/// On non-negative patterns the unsigned order is the numeric order, and
/// every NaN pattern lies above the pattern of infinity.
pub open spec fn is_unit_interval(b: u32) -> bool {
    b <= ONE || b == NEG_ZERO
}

/// The pattern stands for a value v with v >= 0.0: a non-negative finite
/// value, positive infinity, or -0.0. NaN patterns are excluded.
pub open spec fn is_weight(b: u32) -> bool {
    b <= POS_INFINITY || b == NEG_ZERO
}

/// The pattern stands for a strictly positive finite value.
pub open spec fn is_positive_finite(b: u32) -> bool {
    POS_ZERO < b < POS_INFINITY
}

/// The pattern stands for a value v with -1.0 <= v <= 1.0.
pub open spec fn is_symmetric_unit(b: u32) -> bool {
    b <= ONE || (NEG_ZERO <= b <= NEG_ONE)
}

/// Pattern of the single-precision sum of the values of `a` and `b`,
/// rounded to nearest even. Meaningful only on the deterministic domain of
/// addition (`add_deterministic`); elsewhere the machine returns a NaN whose
/// pattern the language does not fix.
pub uninterp spec fn add_bits(a: u32, b: u32) -> u32;

/// Pattern of the single-precision product of the values of `a` and `b`,
/// rounded to nearest even; meaningful only on `mul_deterministic`.
pub uninterp spec fn mul_bits(a: u32, b: u32) -> u32;

/// Pattern of the larger of the values of `a` and `b` (the other one if one
/// of them is a NaN); meaningful only on `max_deterministic`.
pub uninterp spec fn max_bits(a: u32, b: u32) -> u32;

/// Addition returns a value, not a fresh NaN: neither operand is a NaN and
/// they are not infinities of opposite sign.
pub open spec fn add_deterministic(a: u32, b: u32) -> bool {
    &&& !is_nan(a)
    &&& !is_nan(b)
    &&& !(a == POS_INFINITY && b == NEG_INFINITY)
    &&& !(a == NEG_INFINITY && b == POS_INFINITY)
}

/// Multiplication returns a value, not a fresh NaN: neither operand is a
/// NaN and the pair is not a zero with an infinity.
pub open spec fn mul_deterministic(a: u32, b: u32) -> bool {
    &&& !is_nan(a)
    &&& !is_nan(b)
    &&& !(is_zero(a) && is_infinity(b))
    &&& !(is_infinity(a) && is_zero(b))
}

/// The larger-of-two has one possible result pattern: not both operands are
/// NaNs, and they are not the two zeros of opposite sign (for that pair the
/// machine may return either zero).
pub open spec fn max_deterministic(a: u32, b: u32) -> bool {
    &&& !(is_nan(a) && is_nan(b))
    &&& !(is_zero(a) && is_zero(b) && a != b)
}

/// What a single-precision addition may return: on the deterministic domain
/// exactly `add_bits`, elsewhere some NaN.
pub open spec fn add_result_ok(a: u32, b: u32, r: u32) -> bool {
    if add_deterministic(a, b) {
        r == add_bits(a, b)
    } else {
        is_nan(r)
    }
}

/// What a single-precision multiplication may return: on the deterministic
/// domain exactly `mul_bits`, elsewhere some NaN.
pub open spec fn mul_result_ok(a: u32, b: u32, r: u32) -> bool {
    if mul_deterministic(a, b) {
        r == mul_bits(a, b)
    } else {
        is_nan(r)
    }
}

/// What the larger-of-two may return: on the deterministic domain exactly
/// `max_bits`; for the +0.0/-0.0 pair some zero; for two NaNs some NaN.
pub open spec fn max_result_ok(a: u32, b: u32, r: u32) -> bool {
    if max_deterministic(a, b) {
        r == max_bits(a, b)
    } else if is_zero(a) && is_zero(b) {
        is_zero(r)
    } else {
        is_nan(r)
    }
}

/// Running single-precision sum of a sequence of patterns, added left to
/// right starting from +0.0, exactly as an iterator sum folds; meaningful
/// only where `fold_sum_deterministic` holds of the sequence.
pub open spec fn fold_sum(s: Seq<u32>) -> u32
    decreases s.len(),
{
    if s.len() == 0 {
        POS_ZERO
    } else {
        add_bits(fold_sum(s.drop_last()), s.last())
    }
}

/// Every step of the running sum stays on addition's deterministic domain.
pub open spec fn fold_sum_deterministic(s: Seq<u32>) -> bool
    decreases s.len(),
{
    if s.len() == 0 {
        true
    } else {
        fold_sum_deterministic(s.drop_last()) && add_deterministic(
            fold_sum(s.drop_last()),
            s.last(),
        )
    }
}

/// Relies on the `+` operator of the single-precision type of core. On the
/// deterministic domain the sum of the values of the two patterns, rounded
/// to nearest even, is a function of the patterns and is named `add_bits`;
/// on the rest the machine produces a NaN whose pattern the language leaves
/// open, so only the class is promised. The two side clauses are closure
/// facts of the operation: a sum of two non-negative values is non-negative
/// (never a NaN), and a sum of two zeros is a zero. `copysignf` of libm and
/// `cast` of bytemuck only move between a pattern and its value.
#[verifier::external_body]
pub(crate) fn add_single(a: u32, b: u32) -> (r: u32)
    ensures
        add_deterministic(a, b) ==> r == add_bits(a, b),
        add_result_ok(a, b, r),
        is_weight(a) && is_weight(b) ==> is_weight(r),
        is_zero(a) && is_zero(b) ==> is_zero(r),
{
    let x = libm::copysignf(bytemuck::cast(a), bytemuck::cast(a));
    let y = libm::copysignf(bytemuck::cast(b), bytemuck::cast(b));
    bytemuck::cast(x + y)
}

/// Relies on the `*` operator of the single-precision type of core: on the
/// deterministic domain the product of the values of the two patterns,
/// rounded to nearest even, named `mul_bits`; on the rest some NaN.
#[verifier::external_body]
pub(crate) fn mul_single(a: u32, b: u32) -> (r: u32)
    ensures
        mul_deterministic(a, b) ==> r == mul_bits(a, b),
        mul_result_ok(a, b, r),
{
    let x = libm::copysignf(bytemuck::cast(a), bytemuck::cast(a));
    let y = libm::copysignf(bytemuck::cast(b), bytemuck::cast(b));
    bytemuck::cast(x * y)
}

/// Relies on the `max` method of the single-precision type of std: the
/// larger of the values of the two patterns, the other one if one of them
/// is a NaN, named `max_bits` on the deterministic domain; for the pair
/// +0.0/-0.0 some zero, for two NaNs some NaN. The side clause is a closure
/// fact: the result is one of the operands (or, for two NaNs, a NaN), so
/// with a non-negative second operand the result is non-negative.
#[verifier::external_body]
pub(crate) fn max_single(a: u32, b: u32) -> (r: u32)
    ensures
        max_deterministic(a, b) ==> r == max_bits(a, b),
        max_result_ok(a, b, r),
        is_weight(b) ==> is_weight(r),
{
    let x = libm::copysignf(bytemuck::cast(a), bytemuck::cast(a));
    let y = libm::copysignf(bytemuck::cast(b), bytemuck::cast(b));
    bytemuck::cast(x.max(y))
}

} // verus!
