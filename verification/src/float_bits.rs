//! Single-precision numbers as their bit patterns. Input handling hands
//! numbers over in this form; what is decided from them is decided here,
//! exactly, on integers. Nothing here rounds: comparing and taking the
//! integer part lose nothing.

use vstd::arithmetic::div_mod::{lemma_basic_div, lemma_div_by_multiple, lemma_div_denominator};
use vstd::arithmetic::mul::{
    lemma_mul_inequality, lemma_mul_is_associative, lemma_mul_is_commutative,
    lemma_mul_strict_inequality, lemma_mul_strictly_positive,
};
use vstd::arithmetic::power2::{
    lemma2_to64, lemma_pow2_adds, lemma_pow2_pos, lemma_pow2_strictly_increases, pow2,
};
use vstd::bits::{lemma_u32_shl_is_mul, lemma_u32_shr_is_div};
use vstd::prelude::*;

verus! {

/// Whether the sign bit is set.
pub open spec fn spec_sign(bits: u32) -> bool {
    bits >= 0x8000_0000
}

/// The eight exponent bits, as a number.
pub open spec fn spec_exponent(bits: u32) -> nat {
    (bits / 0x80_0000 % 0x100) as nat
}

/// The twenty-three fraction bits, as a number.
pub open spec fn spec_fraction(bits: u32) -> nat {
    (bits % 0x80_0000) as nat
}

/// Whether the pattern is not a number.
pub open spec fn spec_is_nan(bits: u32) -> bool {
    spec_exponent(bits) == 255 && spec_fraction(bits) != 0
}

/// The significand: the fraction bits, with the leading one that a normal
/// number implies.
pub open spec fn spec_significand(bits: u32) -> nat {
    if spec_exponent(bits) == 0 {
        spec_fraction(bits)
    } else {
        0x80_0000 + spec_fraction(bits)
    }
}

/// The exponent by which the significand is scaled, which for the smallest
/// numbers is that of the smallest normal ones.
pub open spec fn spec_scale(bits: u32) -> nat {
    if spec_exponent(bits) == 0 {
        1
    } else {
        spec_exponent(bits)
    }
}

/// The magnitude of the number, times two to the power of 149, which makes
/// it an integer. Infinity comes out larger than every number.
pub open spec fn spec_magnitude(bits: u32) -> nat {
    spec_significand(bits) * pow2((spec_scale(bits) - 1) as nat)
}

/// The number, times two to the power of 149.
pub open spec fn spec_scaled(bits: u32) -> int {
    if spec_sign(bits) {
        -(spec_magnitude(bits) as int)
    } else {
        spec_magnitude(bits) as int
    }
}

/// Whether both patterns are numbers and the first is the greater.
pub open spec fn spec_gt(a: u32, b: u32) -> bool {
    !spec_is_nan(a) && !spec_is_nan(b) && spec_scaled(a) > spec_scaled(b)
}

/// Whether the pattern is a number greater than zero. Infinity is; zero,
/// with either sign, is not.
pub open spec fn spec_is_positive(bits: u32) -> bool {
    !spec_is_nan(bits) && spec_scaled(bits) > 0
}

/// The number as an unsigned integer: its integer part where that fits;
/// zero for what is negative or not a number, and the largest integer for
/// what is too large.
pub open spec fn spec_to_u32(bits: u32) -> u32 {
    if spec_is_nan(bits) || spec_sign(bits) {
        0
    } else if spec_magnitude(bits) / pow2(149) > u32::MAX {
        u32::MAX
    } else {
        (spec_magnitude(bits) / pow2(149)) as u32
    }
}

/// The bits below the sign bit order the magnitudes: of two patterns the one
/// with the greater number there has the greater magnitude.
proof fn lemma_magnitude_order(a: u32, b: u32)
    requires
        a % 0x8000_0000 < b % 0x8000_0000,
    ensures
        spec_magnitude(a) < spec_magnitude(b),
{
    assert(a % 0x8000_0000 == (a / 0x80_0000 % 0x100) * 0x80_0000 + a % 0x80_0000);
    assert(b % 0x8000_0000 == (b / 0x80_0000 % 0x100) * 0x80_0000 + b % 0x80_0000);
    let sa = spec_scale(a);
    let sb = spec_scale(b);
    let pa = pow2((sa - 1) as nat) as int;
    let pb = pow2((sb - 1) as nat) as int;
    lemma_pow2_pos((sa - 1) as nat);
    lemma_pow2_pos((sb - 1) as nat);
    lemma2_to64();
    if spec_exponent(a) == spec_exponent(b) {
        lemma_mul_strict_inequality(spec_significand(a) as int, spec_significand(b) as int, pa);
    } else {
        assert(spec_exponent(a) < spec_exponent(b));
        // below the leading one of `b`
        if spec_exponent(a) == 0 {
            assert(pa == 1);
            assert(spec_magnitude(a) < 0x80_0000) by (nonlinear_arith)
                requires
                    spec_magnitude(a) == spec_significand(a) * pa,
                    pa == 1,
                    spec_significand(a) < 0x80_0000,
            ;
        } else {
            lemma_mul_strict_inequality(spec_significand(a) as int, 0x100_0000, pa);
            lemma_pow2_adds(1, (sa - 1) as nat);
            assert(0x100_0000 * pa == 0x80_0000 * (2 * pa)) by (nonlinear_arith);
            assert(pow2(1) * pa == 2 * pa);
            if sa < sb - 1 {
                lemma_pow2_strictly_increases(sa, (sb - 1) as nat);
            }
            assert(2 * pa <= pb);
            lemma_mul_inequality(2 * pa, pb, 0x80_0000);
            assert((2 * pa) * 0x80_0000 == 0x80_0000 * (2 * pa)) by (nonlinear_arith);
        }
        lemma_mul_inequality(0x80_0000, spec_significand(b) as int, pb);
        lemma_mul_inequality(1, pb, 0x80_0000);
        assert(pb * 0x80_0000 == 0x80_0000 * pb) by (nonlinear_arith);
    }
}

/// A pattern whose bits below the sign bit are all zero is zero; any other
/// has a magnitude above zero.
proof fn lemma_magnitude_zero(a: u32)
    ensures
        (spec_magnitude(a) == 0) == (a % 0x8000_0000 == 0),
{
    assert(a % 0x8000_0000 == (a / 0x80_0000 % 0x100) * 0x80_0000 + a % 0x80_0000);
    lemma_pow2_pos((spec_scale(a) - 1) as nat);
    if spec_significand(a) > 0 {
        lemma_mul_strictly_positive(
            spec_significand(a) as int,
            pow2((spec_scale(a) - 1) as nat) as int,
        );
    } else {
        assert(spec_magnitude(a) == 0) by (nonlinear_arith)
            requires
                spec_magnitude(a) == spec_significand(a) * pow2((spec_scale(a) - 1) as nat),
                spec_significand(a) == 0,
        ;
    }
}

/// Whether both patterns are numbers and the first is the greater. Zero is
/// not greater than zero, whatever the signs.
pub fn gt(a: u32, b: u32) -> (greater: bool)
    ensures
        greater == spec_gt(a, b),
{
    assert((a >> 23) & 0xff == a / 0x80_0000 % 0x100 && a & 0x7f_ffff == a % 0x80_0000 && a
        & 0x7fff_ffff == a % 0x8000_0000) by (bit_vector);
    assert((b >> 23) & 0xff == b / 0x80_0000 % 0x100 && b & 0x7f_ffff == b % 0x80_0000 && b
        & 0x7fff_ffff == b % 0x8000_0000) by (bit_vector);
    if ((a >> 23) & 0xff == 255 && a & 0x7f_ffff != 0) || ((b >> 23) & 0xff == 255 && b & 0x7f_ffff
        != 0) {
        return false;
    }
    let magnitude_a: u32 = a & 0x7fff_ffff;
    let magnitude_b: u32 = b & 0x7fff_ffff;
    proof {
        lemma_magnitude_zero(a);
        lemma_magnitude_zero(b);
        if magnitude_a < magnitude_b {
            lemma_magnitude_order(a, b);
        }
        if magnitude_b < magnitude_a {
            lemma_magnitude_order(b, a);
        }
        if magnitude_a == magnitude_b {
            assert(a % 0x8000_0000 == (a / 0x80_0000 % 0x100) * 0x80_0000 + a % 0x80_0000);
            assert(b % 0x8000_0000 == (b / 0x80_0000 % 0x100) * 0x80_0000 + b % 0x80_0000);
            assert(spec_magnitude(a) == spec_magnitude(b));
        }
    }
    if a < 0x8000_0000 {
        if b < 0x8000_0000 {
            magnitude_a > magnitude_b
        } else {
            magnitude_a != 0 || magnitude_b != 0
        }
    } else {
        if b < 0x8000_0000 {
            false
        } else {
            magnitude_a < magnitude_b
        }
    }
}

/// Whether the pattern is a number greater than zero.
pub fn is_positive(bits: u32) -> (positive: bool)
    ensures
        positive == spec_is_positive(bits),
{
    assert(spec_magnitude(0) == 0) by {
        lemma_magnitude_zero(0);
    }
    gt(bits, 0)
}

/// The number as an unsigned integer, rounded towards zero and kept within
/// the range of the type.
pub fn to_u32(bits: u32) -> (value: u32)
    ensures
        value == spec_to_u32(bits),
{
    assert((bits >> 23) & 0xff == bits / 0x80_0000 % 0x100 && bits & 0x7f_ffff == bits % 0x80_0000
        && (bits & 0x7f_ffff) | 0x80_0000 == 0x80_0000 + (bits & 0x7f_ffff)) by (bit_vector);
    let exponent: u32 = (bits >> 23) & 0xff;
    let fraction: u32 = bits & 0x7f_ffff;
    if bits >= 0x8000_0000 || (exponent == 255 && fraction != 0) {
        return 0;
    }
    let ghost scale = spec_scale(bits);
    let ghost low = pow2((scale - 1) as nat) as int;
    proof {
        lemma2_to64();
        lemma_pow2_pos((scale - 1) as nat);
        lemma_pow2_pos(149);
    }
    if exponent < 127 {
        proof {
            // less than one
            lemma_mul_strict_inequality(spec_significand(bits) as int, 0x100_0000, low);
            lemma_pow2_adds(24, (scale - 1) as nat);
            if scale + 23 < 149 {
                lemma_pow2_strictly_increases(scale + 23, 149);
            }
            lemma_basic_div(spec_magnitude(bits) as int, pow2(149) as int);
        }
        return 0;
    }
    let significand: u32 = fraction | 0x80_0000;
    if exponent >= 150 {
        let ghost up = (exponent - 150) as nat;
        proof {
            // a whole number: the significand times a power of two
            lemma_pow2_adds(up, 149);
            lemma_pow2_pos(up);
            lemma_mul_is_associative(significand as int, pow2(up) as int, pow2(149) as int);
            lemma_div_by_multiple(significand * pow2(up), pow2(149) as int);
            assert(spec_magnitude(bits) / pow2(149) == significand * pow2(up));
        }
        if exponent >= 159 {
            proof {
                if 9 < up {
                    lemma_pow2_strictly_increases(9, up);
                }
                lemma_mul_inequality(0x200, pow2(up) as int, significand as int);
                lemma_mul_is_commutative(significand as int, pow2(up) as int);
                assert(0x200 * significand >= 0x1_0000_0000);
            }
            return u32::MAX;
        }
        let shift: u32 = exponent - 150;
        proof {
            if up < 8 {
                lemma_pow2_strictly_increases(up, 8);
            }
            lemma_mul_inequality(pow2(up) as int, 0x100, significand as int);
            lemma_mul_is_commutative(significand as int, pow2(up) as int);
            assert(0x100 * significand < 0x1_0000_0000);
            lemma_u32_shl_is_mul(significand, shift);
        }
        significand << shift
    } else {
        let shift: u32 = 150 - exponent;
        proof {
            // the significand divided by a power of two
            let down = (150 - scale) as nat;
            lemma_pow2_pos(down);
            lemma_pow2_adds((scale - 1) as nat, down);
            lemma_mul_is_commutative(significand as int, low);
            lemma_div_by_multiple(significand as int, low);
            lemma_div_denominator(spec_magnitude(bits) as int, low, pow2(down) as int);
            lemma_u32_shr_is_div(significand, shift);
        }
        significand >> shift
    }
}

} // verus!
