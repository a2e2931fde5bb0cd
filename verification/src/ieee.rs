//! IEEE 754 double-precision values, handled through their 64-bit patterns.
//!
//! A pattern has a sign bit, an eleven-bit exponent field and a 52-bit
//! fraction field. The functions here read a pattern as the number it
//! encodes: how two patterns compare, and which whole number a pattern
//! truncates to.

use vstd::arithmetic::div_mod::lemma_basic_div;
use vstd::arithmetic::mul::lemma_mul_inequality;
use vstd::arithmetic::power2::{lemma2_to64, lemma2_to64_rest, lemma_pow2_strictly_increases, pow2};
use vstd::bits::{lemma_u64_shl_is_mul, lemma_u64_shr_is_div};
use vstd::prelude::*;

verus! {

/// The pattern whose only set bit is the sign bit.
pub const SIGN_BIT: u64 = 0x8000_0000_0000_0000;

/// The pattern of positive infinity: exponent field all ones, fraction zero.
pub const INFINITY_BITS: u64 = 0x7ff0_0000_0000_0000;

/// Two to the power 52: the weight of the exponent field's lowest bit, and
/// the leading bit that a normal number's significand has above its
/// fraction field.
pub const HIDDEN_BIT: u64 = 0x0010_0000_0000_0000;

/// The exponent field of a number whose significand counts units of one.
pub const UNIT_EXPONENT_FIELD: u64 = 1075;

/// Whether the sign bit of the pattern is set.
pub open spec fn is_negative(bits: u64) -> bool {
    bits >= SIGN_BIT
}

/// The pattern with its sign bit cleared.
pub open spec fn magnitude(bits: u64) -> u64 {
    if bits >= SIGN_BIT {
        (bits - SIGN_BIT) as u64
    } else {
        bits
    }
}

/// Whether the pattern encodes no number at all.
pub open spec fn is_nan(bits: u64) -> bool {
    magnitude(bits) > INFINITY_BITS
}

/// Whether the pattern encodes a number that is neither infinite nor NaN.
pub open spec fn is_finite(bits: u64) -> bool {
    magnitude(bits) < INFINITY_BITS
}

/// The place of a pattern in the order of the encoded numbers: magnitudes
/// grow with the numbers they encode, so the signed magnitude orders all
/// patterns but NaN as their values are ordered. Both zeros have rank 0.
pub open spec fn rank(bits: u64) -> int {
    if is_negative(bits) {
        -(magnitude(bits) as int)
    } else {
        magnitude(bits) as int
    }
}

/// The number encoded by `a` is strictly greater than the one encoded by
/// `b`. NaN is greater than nothing and nothing is greater than NaN.
pub open spec fn greater(a: u64, b: u64) -> bool {
    !is_nan(a) && !is_nan(b) && rank(a) > rank(b)
}

/// The two patterns encode the same number. NaN equals nothing, itself
/// included; the two zeros are equal.
pub open spec fn same_number(a: u64, b: u64) -> bool {
    !is_nan(a) && !is_nan(b) && rank(a) == rank(b)
}

/// The pattern of the number with the opposite sign: the same magnitude
/// with the sign bit flipped.
pub open spec fn negated(bits: u64) -> u64 {
    if bits >= SIGN_BIT {
        (bits - SIGN_BIT) as u64
    } else {
        (bits + SIGN_BIT) as u64
    }
}

/// Flips the sign of the number that a pattern encodes.
pub fn negate(bits: u64) -> (r: u64)
    ensures
        r == negated(bits),
        magnitude(r) == magnitude(bits),
        is_negative(r) != is_negative(bits),
{
    if bits >= SIGN_BIT {
        bits - SIGN_BIT
    } else {
        bits + SIGN_BIT
    }
}

/// Decides whether the number encoded by `a` is strictly greater than the
/// one encoded by `b`.
pub fn exceeds(a: u64, b: u64) -> (r: bool)
    ensures
        r == greater(a, b),
{
    let a_negative: bool = a >= SIGN_BIT;
    let b_negative: bool = b >= SIGN_BIT;
    let a_magnitude: u64 = if a_negative { a - SIGN_BIT } else { a };
    let b_magnitude: u64 = if b_negative { b - SIGN_BIT } else { b };
    if a_magnitude > INFINITY_BITS || b_magnitude > INFINITY_BITS {
        false
    } else if a_negative {
        b_negative && a_magnitude < b_magnitude
    } else if b_negative {
        a_magnitude > 0 || b_magnitude > 0
    } else {
        a_magnitude > b_magnitude
    }
}

/// The eleven bits between the sign bit and the fraction.
pub open spec fn exponent_field(bits: u64) -> nat {
    (magnitude(bits) / HIDDEN_BIT) as nat
}

/// The low 52 bits.
pub open spec fn fraction_field(bits: u64) -> nat {
    (bits % HIDDEN_BIT) as nat
}

/// The whole number that a finite pattern's digits spell: the fraction
/// field, with the hidden leading bit above it unless the exponent field is
/// zero (a subnormal number or a zero).
pub open spec fn significand(bits: u64) -> nat {
    if exponent_field(bits) == 0 {
        fraction_field(bits)
    } else {
        (HIDDEN_BIT + fraction_field(bits)) as nat
    }
}

/// The power of two that scales the significand: a finite pattern encodes,
/// up to its sign, `significand * 2^scale`.
pub open spec fn scale(bits: u64) -> int {
    if exponent_field(bits) == 0 {
        1 - UNIT_EXPONENT_FIELD
    } else {
        exponent_field(bits) - UNIT_EXPONENT_FIELD
    }
}

/// The largest whole number not above the absolute value that a finite
/// pattern encodes.
pub open spec fn whole_part(bits: u64) -> nat {
    if scale(bits) >= 0 {
        significand(bits) * pow2(scale(bits) as nat)
    } else {
        significand(bits) / pow2((-scale(bits)) as nat)
    }
}

/// The number that a finite pattern encodes, rounded toward zero to a whole
/// number.
pub open spec fn truncated(bits: u64) -> int {
    if is_negative(bits) {
        -(whole_part(bits) as int)
    } else {
        whole_part(bits) as int
    }
}

/// Whether `truncate` yields a number for the pattern: it is finite and its
/// truncation fits the 64-bit signed range.
pub open spec fn truncates(bits: u64) -> bool {
    is_finite(bits) && i64::MIN <= truncated(bits) <= i64::MAX
}

/// Rounds the number that a pattern encodes toward zero. There is no
/// result for NaN, for an infinity, and for a number whose truncation lies
/// outside the 64-bit signed range: such a value is neither wrapped nor
/// clamped.
pub fn truncate(bits: u64) -> (r: Option<i64>)
    ensures
        r == (if truncates(bits) {
            Some(truncated(bits) as i64)
        } else {
            None
        }),
{
    let negative: bool = bits >= SIGN_BIT;
    let magnitude_bits: u64 = if negative { bits - SIGN_BIT } else { bits };
    let field: u64 = magnitude_bits / HIDDEN_BIT;
    let fraction: u64 = bits % HIDDEN_BIT;
    if magnitude_bits >= INFINITY_BITS {
        return None;
    }
    proof {
        lemma2_to64();
        lemma2_to64_rest();
    }
    if field < UNIT_EXPONENT_FIELD - 52 {
        proof {
            let down: nat = (-scale(bits)) as nat;
            assert(down >= 53);
            if down > 53 {
                lemma_pow2_strictly_increases(53, down);
            }
            lemma_basic_div(significand(bits) as int, pow2(down) as int);
        }
        return Some(0);
    }
    let digits: u64 = HIDDEN_BIT + fraction;
    if field < UNIT_EXPONENT_FIELD {
        let down: u64 = UNIT_EXPONENT_FIELD - field;
        let whole: u64 = digits >> down;
        proof {
            lemma_u64_shr_is_div(digits, down);
            lemma_div_le_numerator(digits as int, pow2(down as nat) as int);
            assert(significand(bits) == digits);
            assert(scale(bits) == -down);
            assert(whole_part(bits) == whole);
            assert(truncates(bits));
        }
        Some(if negative { -(whole as i64) } else { whole as i64 })
    } else if field <= UNIT_EXPONENT_FIELD + 10 {
        let up: u64 = field - UNIT_EXPONENT_FIELD;
        proof {
            if up < 10 {
                lemma_pow2_strictly_increases(up as nat, 10);
            }
            lemma_mul_inequality(pow2(up as nat) as int, 0x400, digits as int);
            assert(digits * pow2(up as nat) == pow2(up as nat) * digits) by (nonlinear_arith);
            lemma_u64_shl_is_mul(digits, up);
            assert(significand(bits) == digits);
            assert(scale(bits) == up);
            assert(whole_part(bits) == digits << up);
            assert(truncates(bits));
        }
        let whole: u64 = digits << up;
        Some(if negative { -(whole as i64) } else { whole as i64 })
    } else {
        proof {
            let up: nat = (field - UNIT_EXPONENT_FIELD) as nat;
            if up > 11 {
                lemma_pow2_strictly_increases(11, up);
            }
            lemma_mul_inequality(0x800, pow2(up) as int, digits as int);
            assert(digits * pow2(up) == pow2(up) * digits) by (nonlinear_arith);
            if up > 11 {
                assert(pow2(up) * digits >= 0x801 * digits) by (nonlinear_arith)
                    requires
                        pow2(up) >= 0x801,
                        digits >= 0,
                ;
            }
            assert(significand(bits) == digits);
            assert(scale(bits) == up);
            assert(whole_part(bits) == digits * pow2(up));
            assert(whole_part(bits) >= 0x800 * digits);
        }
        if negative && field == UNIT_EXPONENT_FIELD + 11 && fraction == 0 {
            Some(i64::MIN)
        } else {
            None
        }
    }
}

/// A quotient by a positive divisor is at most its non-negative numerator.
proof fn lemma_div_le_numerator(x: int, d: int)
    by (nonlinear_arith)
    requires
        0 <= x,
        0 < d,
    ensures
        0 <= x / d <= x,
{
}

} // verus!
