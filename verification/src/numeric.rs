//! Truncation of IEEE 754 values, taken on their bit patterns, to a signed
//! 32-bit integer: toward zero, saturating at the integer range, not-a-number
//! to zero. This is the numeric coercion the lookup translator applies to
//! floating-point arguments.

use vstd::arithmetic::div_mod::{lemma_div_is_ordered, lemma_multiply_divide_lt};
use vstd::arithmetic::mul::lemma_mul_inequality;
use vstd::arithmetic::power2::{
    lemma2_to64, lemma2_to64_rest, lemma_pow2_adds, lemma_pow2_pos, lemma_pow2_strictly_increases,
    pow2,
};
use vstd::prelude::*;

verus! {

/// Truncation toward zero of the single-precision value with the given bit
/// pattern: sign bit, 8 exponent bits (bias 127), 23 mantissa bits. Values
/// below 1 in magnitude go to 0; not-a-number goes to 0; values beyond the
/// `i32` range (infinities included) saturate at the range ends.
pub open spec fn spec_f32_trunc(bits: u32) -> int {
    let sign = bits >= 0x8000_0000;
    let e = ((bits as int) / 0x80_0000) % 0x100;
    let m = (bits as int) % 0x80_0000;
    if e == 0xff {
        if m != 0 {
            0
        } else if sign {
            -0x8000_0000
        } else {
            0x7fff_ffff
        }
    } else if e < 127 {
        0
    } else if e >= 158 {
        if sign {
            -0x8000_0000
        } else {
            0x7fff_ffff
        }
    } else {
        let mag = ((m + 0x80_0000) * pow2((e - 127) as nat) as int) / 0x80_0000;
        if sign {
            -mag
        } else {
            mag
        }
    }
}

/// Truncation toward zero of the double-precision value with the given bit
/// pattern: sign bit, 11 exponent bits (bias 1023), 52 mantissa bits, with
/// the same rounding as the single-precision case.
pub open spec fn spec_f64_trunc(bits: u64) -> int {
    let sign = bits >= 0x8000_0000_0000_0000;
    let e = ((bits as int) / 0x10_0000_0000_0000) % 0x800;
    let m = (bits as int) % 0x10_0000_0000_0000;
    if e == 0x7ff {
        if m != 0 {
            0
        } else if sign {
            -0x8000_0000
        } else {
            0x7fff_ffff
        }
    } else if e < 1023 {
        0
    } else if e >= 1054 {
        if sign {
            -0x8000_0000
        } else {
            0x7fff_ffff
        }
    } else {
        let mag = (m + 0x10_0000_0000_0000) / pow2((1075 - e) as nat) as int;
        if sign {
            -mag
        } else {
            mag
        }
    }
}

/// A power of two that fits a machine word.
fn pow2_u64(e: u32) -> (r: u64)
    requires
        e < 64,
    ensures
        r == pow2(e as nat),
{
    let mut r: u64 = 1;
    let mut i: u32 = 0;
    proof {
        lemma2_to64();
        lemma2_to64_rest();
    }
    while i < e
        invariant
            i <= e < 64,
            r == pow2(i as nat),
            pow2(63) == 0x8000_0000_0000_0000,
        decreases e - i,
    {
        proof {
            lemma_pow2_strictly_increases(i as nat, 63);
            lemma_pow2_adds(i as nat, 1);
            lemma2_to64();
        }
        r = r * 2;
        i += 1;
    }
    r
}

/// Truncates the single-precision value carried as `bits` to an `i32`,
/// exactly as `spec_f32_trunc` states.
pub fn f32_trunc_i32(bits: u32) -> (r: i32)
    ensures
        r as int == spec_f32_trunc(bits),
{
    let sign = bits >= 0x8000_0000;
    let e: u32 = (bits / 0x80_0000) % 0x100;
    let m: u32 = bits % 0x80_0000;
    if e == 0xff {
        if m != 0 {
            0
        } else if sign {
            -0x8000_0000
        } else {
            0x7fff_ffff
        }
    } else if e < 127 {
        0
    } else if e >= 158 {
        if sign {
            -0x8000_0000
        } else {
            0x7fff_ffff
        }
    } else {
        let mm: u64 = (m + 0x80_0000) as u64;
        let p: u64 = pow2_u64(e - 127);
        proof {
            lemma2_to64();
            if e - 127 < 30 {
                lemma_pow2_strictly_increases((e - 127) as nat, 30);
            }
            lemma_mul_inequality(mm as int, 0xff_ffff, p as int);
            lemma_mul_inequality(p as int, 0x4000_0000, 0xff_ffff);
        }
        let shifted: u64 = mm * p;
        let mag: u64 = shifted / 0x80_0000;
        proof {
            lemma_div_is_ordered(shifted as int, 0x3f_ffff_c000_0000, 0x80_0000);
        }
        if sign {
            let v: i64 = -(mag as i64);
            v as i32
        } else {
            mag as i32
        }
    }
}

/// Truncates the double-precision value carried as `bits` to an `i32`,
/// exactly as `spec_f64_trunc` states.
pub fn f64_trunc_i32(bits: u64) -> (r: i32)
    ensures
        r as int == spec_f64_trunc(bits),
{
    let sign = bits >= 0x8000_0000_0000_0000;
    let e: u64 = (bits / 0x10_0000_0000_0000) % 0x800;
    let m: u64 = bits % 0x10_0000_0000_0000;
    if e == 0x7ff {
        if m != 0 {
            0
        } else if sign {
            -0x8000_0000
        } else {
            0x7fff_ffff
        }
    } else if e < 1023 {
        0
    } else if e >= 1054 {
        if sign {
            -0x8000_0000
        } else {
            0x7fff_ffff
        }
    } else {
        let mm: u64 = m + 0x10_0000_0000_0000;
        let p: u64 = pow2_u64((1075 - e) as u32);
        proof {
            lemma2_to64();
            lemma2_to64_rest();
            lemma_pow2_pos((1075 - e) as nat);
            if 1075 - e > 22 {
                lemma_pow2_strictly_increases(22, (1075 - e) as nat);
            }
            lemma_mul_inequality(0x40_0000, p as int, 0x8000_0000);
            lemma_multiply_divide_lt(mm as int, p as int, 0x8000_0000);
        }
        let mag: u64 = mm / p;
        if sign {
            let v: i64 = -(mag as i64);
            v as i32
        } else {
            mag as i32
        }
    }
}

} // verus!
