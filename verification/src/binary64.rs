//! Real numbers as this crate sees them: as IEEE 754 binary64 encodings.
//!
//! An encoding is a `u64` with the sign in its top bit, the biased exponent
//! in the eleven bits below, and the fraction in the low 52. Nothing here
//! computes with the numbers. The functions of this module tell what kind of
//! number an encoding stands for and how two numbers, or their magnitudes,
//! compare, which is all that the decisions of a superposition need.

use vstd::prelude::*;

verus! {

/// The sign bit.
pub const SIGN_MASK: u64 = 0x8000_0000_0000_0000;

/// The eleven exponent bits. As an encoding, positive infinity.
pub const EXPONENT_MASK: u64 = 0x7ff0_0000_0000_0000;

/// All bits but the sign.
pub const MAGNITUDE_MASK: u64 = 0x7fff_ffff_ffff_ffff;

/// The encoding of `0.0`.
pub const ZERO: u64 = 0;

/// The encoding of `1.0`.
pub const ONE: u64 = 0x3ff0_0000_0000_0000;

/// The encoding with its sign cleared: the encoding of the absolute value.
pub open spec fn magnitude(bits: u64) -> u64 {
    bits & MAGNITUDE_MASK
}

/// The encoding stands for a NaN: the exponent is all ones and the fraction
/// is not zero.
pub open spec fn encodes_nan(bits: u64) -> bool {
    magnitude(bits) > EXPONENT_MASK
}

/// The encoding stands for a number that is neither infinite nor a NaN.
pub open spec fn encodes_finite(bits: u64) -> bool {
    magnitude(bits) < EXPONENT_MASK
}

/// The encoding stands for a number below zero. Neither zero, of either
/// sign, nor a NaN is below zero.
pub open spec fn encodes_negative(bits: u64) -> bool {
    &&& bits & SIGN_MASK != 0
    &&& magnitude(bits) != 0
    &&& !encodes_nan(bits)
}

/// The absolute value of `a` is less than that of `b`, as numbers. That is
/// false as soon as one of them is a NaN. Among the others, the magnitudes
/// are ordered as their encodings are.
pub open spec fn magnitude_below(a: u64, b: u64) -> bool {
    &&& !encodes_nan(a)
    &&& !encodes_nan(b)
    &&& magnitude(a) < magnitude(b)
}

/// The place of a number in the order of all numbers: the magnitude of the
/// encoding, counted below zero where the sign is set. Both zeros have place
/// zero. A NaN, which is neither above nor below any number, is placed
/// after all of them.
pub open spec fn rank(bits: u64) -> int {
    if encodes_nan(bits) {
        0x8000_0000_0000_0000
    } else if bits & SIGN_MASK != 0 {
        -(magnitude(bits) as int)
    } else {
        magnitude(bits) as int
    }
}

/// Every encoding in `s` is finite.
pub open spec fn all_finite(s: Seq<u64>) -> bool {
    forall|i: int| 0 <= i < s.len() ==> encodes_finite(#[trigger] s[i])
}

/// A number is finite exactly where its exponent is not all ones.
pub proof fn lemma_finite_by_exponent(bits: u64)
    ensures
        encodes_finite(bits) <==> bits & EXPONENT_MASK != EXPONENT_MASK,
{
    assert((bits & 0x7fff_ffff_ffff_ffff) < 0x7ff0_0000_0000_0000 <==> bits
        & 0x7ff0_0000_0000_0000 != 0x7ff0_0000_0000_0000) by (bit_vector);
}

/// Changing the sign changes neither the magnitude nor, with it, whether
/// the number is finite or a NaN.
pub proof fn lemma_sign_is_apart(bits: u64)
    ensures
        magnitude(bits ^ SIGN_MASK) == magnitude(bits),
        encodes_finite(bits ^ SIGN_MASK) == encodes_finite(bits),
        encodes_nan(bits ^ SIGN_MASK) == encodes_nan(bits),
{
    assert((bits ^ 0x8000_0000_0000_0000) & 0x7fff_ffff_ffff_ffff == bits
        & 0x7fff_ffff_ffff_ffff) by (bit_vector);
}

/// A number is exactly one of finite, infinite and NaN; zero and one are
/// finite, and neither is negative.
pub proof fn lemma_kinds(bits: u64)
    ensures
        encodes_finite(bits) ==> !encodes_nan(bits),
        !encodes_finite(bits) && !encodes_nan(bits) <==> magnitude(bits) == EXPONENT_MASK,
        encodes_finite(ZERO) && !encodes_negative(ZERO),
        encodes_finite(ONE) && !encodes_negative(ONE),
{
    assert(0u64 & 0x7fff_ffff_ffff_ffff == 0) by (bit_vector);
    assert(0x3ff0_0000_0000_0000u64 & 0x7fff_ffff_ffff_ffff == 0x3ff0_0000_0000_0000) by (bit_vector);
    assert(0x3ff0_0000_0000_0000u64 & 0x8000_0000_0000_0000 == 0) by (bit_vector);
}

/// Ranks tell numbers apart as the numbers themselves do: a number is below
/// zero exactly where its rank is, one magnitude is below another exactly
/// where the absolute values of the ranks are, and the two zeros share a
/// rank.
pub proof fn lemma_rank_orders(a: u64, b: u64)
    ensures
        -0x7ff0_0000_0000_0000 <= rank(a) <= 0x8000_0000_0000_0000,
        encodes_nan(a) <==> rank(a) == 0x8000_0000_0000_0000,
        encodes_negative(a) <==> rank(a) < 0,
        !encodes_nan(a) && !encodes_nan(b) ==> (magnitude_below(a, b) <==> vstd::math::abs(
            rank(a),
        ) < vstd::math::abs(rank(b))),
        rank(ZERO) == 0 && rank(SIGN_MASK) == 0 && rank(ONE) == 0x3ff0_0000_0000_0000,
{
    assert((a & 0x7fff_ffff_ffff_ffff) <= 0x7fff_ffff_ffff_ffff) by (bit_vector);
    assert(0u64 & 0x7fff_ffff_ffff_ffff == 0) by (bit_vector);
    assert(0x8000_0000_0000_0000u64 & 0x7fff_ffff_ffff_ffff == 0) by (bit_vector);
    assert(0x3ff0_0000_0000_0000u64 & 0x7fff_ffff_ffff_ffff == 0x3ff0_0000_0000_0000) by (bit_vector);
    assert(0x3ff0_0000_0000_0000u64 & 0x8000_0000_0000_0000 == 0) by (bit_vector);
    assert(0u64 & 0x8000_0000_0000_0000 == 0) by (bit_vector);
}

/// Whether the encoding stands for a finite number.
pub fn is_finite(bits: u64) -> (r: bool)
    ensures
        r == encodes_finite(bits),
{
    (bits & MAGNITUDE_MASK) < EXPONENT_MASK
}

/// Whether the encoding stands for a NaN.
pub fn is_nan(bits: u64) -> (r: bool)
    ensures
        r == encodes_nan(bits),
{
    (bits & MAGNITUDE_MASK) > EXPONENT_MASK
}

/// Whether the encoding stands for a number below zero.
pub fn is_negative(bits: u64) -> (r: bool)
    ensures
        r == encodes_negative(bits),
{
    (bits & SIGN_MASK) != 0 && (bits & MAGNITUDE_MASK) != 0 && !is_nan(bits)
}

/// Whether `|a| < |b|` holds of the numbers that `a` and `b` stand for.
pub fn is_below(a: u64, b: u64) -> (r: bool)
    ensures
        r == magnitude_below(a, b),
{
    !is_nan(a) && !is_nan(b) && (a & MAGNITUDE_MASK) < (b & MAGNITUDE_MASK)
}

/// Whether the number that `a` stands for comes after the one that `b`
/// stands for: it is greater, or it is a NaN and the other is not.
pub fn is_after(a: u64, b: u64) -> (r: bool)
    ensures
        r == (rank(a) > rank(b)),
{
    if is_nan(b) {
        return false;
    }
    if is_nan(a) {
        return true;
    }
    let ma = a & MAGNITUDE_MASK;
    let mb = b & MAGNITUDE_MASK;
    let a_minus = (a & SIGN_MASK) != 0;
    let b_minus = (b & SIGN_MASK) != 0;
    if a_minus {
        b_minus && ma < mb
    } else if b_minus {
        ma != 0 || mb != 0
    } else {
        ma > mb
    }
}

/// Whether every encoding in `values` stands for a finite number.
pub fn are_finite(values: &[u64]) -> (r: bool)
    ensures
        r == all_finite(values@),
{
    let mut i: usize = 0;
    while i < values.len()
        invariant
            i <= values.len(),
            forall|j: int| 0 <= j < i ==> encodes_finite(#[trigger] values@[j]),
        decreases values.len() - i,
    {
        if !is_finite(values[i]) {
            return false;
        }
        i += 1;
    }
    true
}

} // verus!
