//! IEEE 754 binary64 numbers as their 64-bit patterns.
//!
//! Bit 63 is the sign, bits 52 to 62 the biased exponent, bits 0 to 51 the
//! fraction. The two operations the calculator needs without rounding, sign
//! change and the comparison of a magnitude with the machine epsilon, are done
//! here on the pattern itself.

use vstd::arithmetic::mul::{
    lemma_mul_inequality, lemma_mul_is_associative, lemma_mul_left_inequality,
    lemma_mul_strict_inequality,
};
use vstd::arithmetic::power2::{
    lemma2_to64, lemma2_to64_rest, lemma_pow2_adds, lemma_pow2_pos,
    lemma_pow2_strictly_increases, lemma_pow2_unfold, pow2,
};
use vstd::prelude::*;

verus! {

/// The sign bit of a pattern.
pub const SIGN_BIT: u64 = 0x8000_0000_0000_0000;

/// The pattern of positive zero.
pub const ZERO: u64 = 0;

/// The pattern of one hundred: 1.5625 times two to the sixth.
pub const HUNDRED: u64 = 0x4059_0000_0000_0000;

/// The pattern of the machine epsilon, two to the power of -52.
pub const EPSILON: u64 = 0x3CB0_0000_0000_0000;

/// The pattern of positive infinity; every larger magnitude is a NaN.
pub const INFINITY: u64 = 0x7FF0_0000_0000_0000;

/// The biased exponent that the machine epsilon carries: 1023 - 52.
pub const EPSILON_EXPONENT: u64 = 971;

/// Whether the sign bit is set.
pub open spec fn is_negative(bits: u64) -> bool {
    bits >= SIGN_BIT
}

/// The pattern with the sign bit cleared: the pattern of the absolute value.
pub open spec fn magnitude(bits: u64) -> u64 {
    if bits >= SIGN_BIT {
        (bits - SIGN_BIT) as u64
    } else {
        bits
    }
}

/// The biased exponent, from 0 to 2047.
pub open spec fn exponent(bits: u64) -> u64 {
    (magnitude(bits) / 0x10_0000_0000_0000) as u64
}

/// The 52 fraction bits.
pub open spec fn fraction(bits: u64) -> u64 {
    (magnitude(bits) % 0x10_0000_0000_0000) as u64
}

/// The absolute value of a finite number, counted in units of two to the power
/// of -1074, the smallest positive number there is. A subnormal number is its
/// fraction; a normal number has the implicit leading bit before its fraction
/// and is scaled by its exponent. Of an infinity or a NaN this is no value,
/// only a number above every finite one.
pub open spec fn scaled_magnitude(bits: u64) -> nat {
    if exponent(bits) == 0 {
        fraction(bits) as nat
    } else {
        ((0x10_0000_0000_0000 + fraction(bits)) * pow2((exponent(bits) - 1) as nat)) as nat
    }
}

/// Whether the pattern is a NaN.
pub open spec fn is_nan(bits: u64) -> bool {
    magnitude(bits) > INFINITY
}

/// Whether the pattern is a zero, a subnormal or a normal number.
pub open spec fn is_finite(bits: u64) -> bool {
    magnitude(bits) < INFINITY
}

/// The pattern of the negated number: the same magnitude under the other sign.
pub open spec fn negated(bits: u64) -> u64 {
    if bits >= SIGN_BIT {
        (bits - SIGN_BIT) as u64
    } else {
        (bits + SIGN_BIT) as u64
    }
}

/// Whether the number's absolute value lies below the machine epsilon. Patterns
/// of non-negative numbers are ordered as the numbers are, and every NaN has a
/// magnitude above infinity's, so one comparison of patterns decides it.
pub open spec fn negligible(bits: u64) -> bool {
    magnitude(bits) < EPSILON
}

/// Negates a number by flipping its sign bit. Nothing is rounded and a NaN
/// keeps its payload.
pub fn negate(bits: u64) -> (result: u64)
    ensures
        result == negated(bits),
{
    assert(bits ^ 0x8000_0000_0000_0000 == if bits >= 0x8000_0000_0000_0000 {
        (bits - 0x8000_0000_0000_0000) as u64
    } else {
        (bits + 0x8000_0000_0000_0000) as u64
    }) by (bit_vector);
    bits ^ SIGN_BIT
}

/// The pattern of the absolute value.
pub fn absolute(bits: u64) -> (result: u64)
    ensures
        result == magnitude(bits),
{
    assert(bits & 0x7FFF_FFFF_FFFF_FFFF == if bits >= 0x8000_0000_0000_0000 {
        (bits - 0x8000_0000_0000_0000) as u64
    } else {
        bits
    }) by (bit_vector);
    bits & 0x7FFF_FFFF_FFFF_FFFF
}

/// Tells whether the absolute value of a number is smaller than the machine
/// epsilon. Zeros and subnormals are; infinities and NaNs are not.
pub fn is_negligible(bits: u64) -> (result: bool)
    ensures
        result == negligible(bits),
{
    absolute(bits) < EPSILON
}

/// Negation is its own inverse and changes the sign. It keeps the magnitude,
/// so a NaN stays a NaN and a negligible number stays negligible.
pub proof fn law_negated(bits: u64)
    ensures
        negated(negated(bits)) == bits,
        magnitude(negated(bits)) == magnitude(bits),
        is_negative(negated(bits)) == !is_negative(bits),
        is_nan(negated(bits)) == is_nan(bits),
        negligible(negated(bits)) == negligible(bits),
{
}

/// A magnitude lies below the machine epsilon exactly when its exponent lies
/// below the exponent of the machine epsilon; so zeros and subnormal numbers
/// are negligible, and infinities and NaNs are not.
pub proof fn law_negligible_by_exponent(bits: u64)
    ensures
        negligible(bits) <==> exponent(bits) < EPSILON_EXPONENT,
        exponent(bits) == 0 ==> negligible(bits),
        !is_finite(bits) ==> !negligible(bits),
{
}

/// A scaled magnitude lies in the binade that its exponent names.
proof fn lemma_scaled_bounds(bits: u64)
    ensures
        scaled_magnitude(bits) < 0x10_0000_0000_0000 * pow2(exponent(bits) as nat),
        exponent(bits) >= 1 ==> scaled_magnitude(bits) >= 0x10_0000_0000_0000 * pow2(
            (exponent(bits) - 1) as nat,
        ),
{
    let e = exponent(bits) as nat;
    let f = fraction(bits) as int;
    lemma_pow2_pos(e);
    if e == 0 {
        lemma2_to64();
    } else {
        let low = pow2((e - 1) as nat) as int;
        lemma_pow2_pos((e - 1) as nat);
        lemma_pow2_unfold(e);
        lemma_mul_strict_inequality(0x10_0000_0000_0000 + f, 0x20_0000_0000_0000, low);
        lemma_mul_inequality(0x10_0000_0000_0000, 0x10_0000_0000_0000 + f, low);
        lemma_mul_is_associative(0x10_0000_0000_0000, 2, low);
    }
}

/// Magnitudes are ordered as the absolute values that they stand for: the
/// smaller pattern is the smaller number, and equal numbers have one pattern.
pub proof fn law_magnitudes_ordered(a: u64, b: u64)
    ensures
        magnitude(a) < magnitude(b) <==> scaled_magnitude(a) < scaled_magnitude(b),
        magnitude(a) == magnitude(b) <==> scaled_magnitude(a) == scaled_magnitude(b),
{
    if magnitude(a) < magnitude(b) {
        lemma_scaled_increases(a, b);
    } else if magnitude(b) < magnitude(a) {
        lemma_scaled_increases(b, a);
    }
}

/// The smaller magnitude stands for the smaller absolute value.
proof fn lemma_scaled_increases(a: u64, b: u64)
    requires
        magnitude(a) < magnitude(b),
    ensures
        scaled_magnitude(a) < scaled_magnitude(b),
{
    let ea = exponent(a) as nat;
    let eb = exponent(b) as nat;
    if ea == eb {
        if ea > 0 {
            lemma_pow2_pos((ea - 1) as nat);
            lemma_mul_strict_inequality(
                0x10_0000_0000_0000 + fraction(a),
                0x10_0000_0000_0000 + fraction(b),
                pow2((ea - 1) as nat) as int,
            );
        }
    } else {
        lemma_scaled_bounds(a);
        lemma_scaled_bounds(b);
        if ea < eb - 1 {
            lemma_pow2_strictly_increases(ea, (eb - 1) as nat);
        }
        lemma_mul_left_inequality(
            0x10_0000_0000_0000,
            pow2(ea) as int,
            pow2((eb - 1) as nat) as int,
        );
    }
}

/// The constants stand for the numbers that they are named after: the machine
/// epsilon is two to the power of -52, and a hundred is a hundred.
pub proof fn law_constants()
    ensures
        scaled_magnitude(ZERO) == 0,
        scaled_magnitude(EPSILON) == pow2(1022),
        scaled_magnitude(HUNDRED) == 100 * pow2(1074),
        exponent(EPSILON) == EPSILON_EXPONENT,
        !is_negative(EPSILON) && !is_negative(HUNDRED) && !is_negative(ZERO),
        is_finite(EPSILON) && is_finite(HUNDRED) && is_finite(ZERO),
{
    lemma2_to64();
    lemma2_to64_rest();
    assert(exponent(EPSILON) == 971 && fraction(EPSILON) == 0);
    lemma_pow2_adds(52, 970);
    assert(exponent(HUNDRED) == 1029 && fraction(HUNDRED) == 0x9_0000_0000_0000);
    lemma_pow2_adds(48, 1028);
    lemma_pow2_adds(2, 1074);
    let unit = pow2(1074) as int;
    let high = pow2(1028) as int;
    assert(0x19_0000_0000_0000 * high == 25 * (0x1_0000_0000_0000 * high)) by (nonlinear_arith);
    assert(25 * (4 * unit) == 100 * unit) by (nonlinear_arith);
}

/// A finite number is negligible exactly when its absolute value lies below
/// two to the power of -52, which is 2^1022 units of 2^-1074; an infinity or a
/// NaN never is.
pub proof fn law_negligible_by_value(bits: u64)
    ensures
        is_finite(bits) ==> (negligible(bits) <==> scaled_magnitude(bits) < pow2(1022)),
        !is_finite(bits) ==> !negligible(bits),
{
    law_magnitudes_ordered(bits, EPSILON);
    law_constants();
}

} // verus!
