//! Integer model of the IEEE 754 binary32 wire format.
//!
//! Parameter values travel on the wire inside a 32-bit float field.  The
//! library never touches a float: a wire value is carried as the `u32` bit
//! pattern of the binary32 number, and the numeric-cast encoding mode is
//! modelled here as integer arithmetic — building the bit pattern of the
//! nearest binary32 (ties to even) for an integer, and truncating a bit
//! pattern back to an integer with the saturating semantics of Rust's `as`
//! casts.

use vstd::arithmetic::div_mod::{
    lemma_fundamental_div_mod, lemma_fundamental_div_mod_converse, lemma_mod_add_multiples_vanish,
    lemma_small_mod,
};
use vstd::arithmetic::mul::{
    lemma_mul_inequality, lemma_mul_is_commutative, lemma_mul_is_distributive_add_other_way,
    lemma_mul_strict_inequality,
};
use vstd::arithmetic::power2::{
    lemma2_to64, lemma_pow2_adds, lemma_pow2_pos, lemma_pow2_strictly_increases,
    lemma_pow2_unfold, pow2,
};
use vstd::prelude::*;

verus! {

/// Sign bit of a binary32 bit pattern.
pub open spec fn b32_sign(bits: u32) -> bool {
    bits / 0x8000_0000 == 1
}

/// Biased exponent field of a binary32 bit pattern.
pub open spec fn b32_exp(bits: u32) -> nat {
    ((bits / 0x80_0000) % 0x100) as nat
}

/// Fraction field of a binary32 bit pattern.
pub open spec fn b32_frac(bits: u32) -> nat {
    (bits % 0x80_0000) as nat
}

/// True when the bit pattern is a NaN.
pub open spec fn b32_is_nan(bits: u32) -> bool {
    b32_exp(bits) == 255 && b32_frac(bits) != 0
}

/// True when the bit pattern is an infinity.
pub open spec fn b32_is_inf(bits: u32) -> bool {
    b32_exp(bits) == 255 && b32_frac(bits) == 0
}

/// Magnitude of a finite binary32, truncated toward zero to an integer.
///
/// A subnormal (biased exponent 0) is below 1 in magnitude and truncates to
/// zero; otherwise the significand with its hidden bit is scaled by the
/// unbiased exponent.
pub open spec fn b32_trunc_mag(bits: u32) -> nat {
    let e = b32_exp(bits);
    let m = pow2(23) + b32_frac(bits);
    if e == 0 {
        0
    } else if e >= 150 {
        m * pow2((e - 150) as nat)
    } else {
        m / pow2((150 - e) as nat)
    }
}

/// Position of the most significant set bit (floor of the base-2 logarithm).
pub open spec fn msb(v: nat) -> nat
    decreases v,
{
    if v < 2 {
        0
    } else {
        1 + msb(v / 2)
    }
}

/// The bit pattern of the binary32 nearest to `v` (ties to even).
///
/// For `v < 2^24` the value is exactly representable and no rounding
/// happens; beyond that the low bits are rounded away.  Defined for every
/// magnitude a 64-bit integer could carry (the exponent never reaches the
/// infinity range).
pub open spec fn b32_from_nat(v: nat) -> u32 {
    if v == 0 {
        0
    } else {
        let e = msb(v);
        if e <= 23 {
            (((e + 127) * pow2(23)) + (v * pow2((23 - e) as nat) - pow2(23))) as u32
        } else {
            let sh = (e - 23) as nat;
            let q = v / pow2(sh);
            let r = v % pow2(sh);
            let q2 = if 2 * r > pow2(sh) || (2 * r == pow2(sh) && q % 2 == 1) {
                q + 1
            } else {
                q
            };
            if q2 == pow2(24) {
                (((e + 128) * pow2(23))) as u32
            } else {
                (((e + 127) * pow2(23)) + (q2 - pow2(23))) as u32
            }
        }
    }
}

/// Bit pattern of the binary32 nearest to an unsigned 32-bit value.
pub open spec fn b32_from_u32(v: u32) -> u32 {
    b32_from_nat(v as nat)
}

/// Bit pattern of the binary32 nearest to a signed 32-bit value.
pub open spec fn b32_from_i32(v: i32) -> u32 {
    if v >= 0 {
        b32_from_nat(v as nat)
    } else {
        (b32_from_nat((0 - v as int) as nat) + 0x8000_0000) as u32
    }
}

/// `bits as u32` semantics of Rust's float-to-integer cast: NaN goes to
/// zero, the value is truncated toward zero and saturated at the bounds.
pub open spec fn b32_to_u32_cast(bits: u32) -> u32 {
    if b32_is_nan(bits) {
        0
    } else if b32_sign(bits) {
        0
    } else if b32_is_inf(bits) || b32_trunc_mag(bits) > 0xFFFF_FFFF {
        0xFFFF_FFFF
    } else {
        b32_trunc_mag(bits) as u32
    }
}

/// `bits as u8` semantics of the float-to-integer cast.
pub open spec fn b32_to_u8_cast(bits: u32) -> u8 {
    if b32_is_nan(bits) {
        0
    } else if b32_sign(bits) {
        0
    } else if b32_is_inf(bits) || b32_trunc_mag(bits) > 0xFF {
        0xFF
    } else {
        b32_trunc_mag(bits) as u8
    }
}

/// `bits as u16` semantics of the float-to-integer cast.
pub open spec fn b32_to_u16_cast(bits: u32) -> u16 {
    if b32_is_nan(bits) {
        0
    } else if b32_sign(bits) {
        0
    } else if b32_is_inf(bits) || b32_trunc_mag(bits) > 0xFFFF {
        0xFFFF
    } else {
        b32_trunc_mag(bits) as u16
    }
}

/// `bits as i32` semantics of the float-to-integer cast.
pub open spec fn b32_to_i32_cast(bits: u32) -> i32 {
    if b32_is_nan(bits) {
        0
    } else if !b32_sign(bits) {
        if b32_is_inf(bits) || b32_trunc_mag(bits) > 0x7FFF_FFFF {
            0x7FFF_FFFF
        } else {
            b32_trunc_mag(bits) as i32
        }
    } else {
        if b32_is_inf(bits) || b32_trunc_mag(bits) >= 0x8000_0000 {
            (-0x8000_0000) as i32
        } else {
            (0 - b32_trunc_mag(bits) as int) as i32
        }
    }
}

/// `bits as i8` semantics of the float-to-integer cast.
pub open spec fn b32_to_i8_cast(bits: u32) -> i8 {
    if b32_is_nan(bits) {
        0
    } else if !b32_sign(bits) {
        if b32_is_inf(bits) || b32_trunc_mag(bits) > 0x7F {
            0x7F
        } else {
            b32_trunc_mag(bits) as i8
        }
    } else {
        if b32_is_inf(bits) || b32_trunc_mag(bits) >= 0x80 {
            (-0x80) as i8
        } else {
            (0 - b32_trunc_mag(bits) as int) as i8
        }
    }
}

/// `bits as i16` semantics of the float-to-integer cast.
pub open spec fn b32_to_i16_cast(bits: u32) -> i16 {
    if b32_is_nan(bits) {
        0
    } else if !b32_sign(bits) {
        if b32_is_inf(bits) || b32_trunc_mag(bits) > 0x7FFF {
            0x7FFF
        } else {
            b32_trunc_mag(bits) as i16
        }
    } else {
        if b32_is_inf(bits) || b32_trunc_mag(bits) >= 0x8000 {
            (-0x8000) as i16
        } else {
            (0 - b32_trunc_mag(bits) as int) as i16
        }
    }
}

/// Computes a small power of two.
pub fn pow2_u32(e: u32) -> (r: u32)
    requires
        e < 32,
    ensures
        r == pow2(e as nat),
{
    let mut r: u32 = 1;
    let mut i: u32 = 0;
    proof {
        lemma2_to64();
    }
    while i < e
        invariant
            i <= e < 32,
            r == pow2(i as nat),
        decreases e - i,
    {
        proof {
            lemma_pow2_strictly_increases(i as nat, 31);
            lemma2_to64();
            lemma_pow2_unfold((i + 1) as nat);
        }
        r = r * 2;
        i = i + 1;
    }
    r
}

/// Computes the most significant bit position of a nonzero value.
pub fn msb_u32(v: u32) -> (e: u32)
    requires
        v >= 1,
    ensures
        e == msb(v as nat),
        e <= 31,
        pow2(e as nat) <= v < pow2((e + 1) as nat),
    decreases v,
{
    if v < 2 {
        proof {
            lemma2_to64();
        }
        0
    } else {
        let e1 = msb_u32(v / 2);
        proof {
            lemma_pow2_unfold((e1 + 1) as nat);
            lemma_pow2_unfold((e1 + 2) as nat);
            if e1 + 1 >= 32 {
                lemma_pow2_strictly_increases(31, (e1 + 1) as nat);
                lemma2_to64();
            }
        }
        e1 + 1
    }
}

/// Builds the binary32 bit pattern nearest to `v` (ties to even).
pub fn b32_of_u32(v: u32) -> (bits: u32)
    ensures
        bits == b32_from_u32(v),
{
    if v == 0 {
        return 0;
    }
    let e = msb_u32(v);
    proof {
        lemma2_to64();
    }
    if e <= 23 {
        let scale = pow2_u32(23 - e);
        proof {
            lemma_pow2_pos((23 - e) as nat);
            // v * scale < 2^(e+1) * 2^(23-e) == 2^24
            lemma_mul_strict_inequality(v as int, pow2((e + 1) as nat) as int, scale as int);
            lemma_pow2_adds((e + 1) as nat, (23 - e) as nat);
            // v * scale >= 2^e * 2^(23-e) == 2^23
            lemma_mul_inequality(pow2(e as nat) as int, v as int, scale as int);
            lemma_pow2_adds(e as nat, (23 - e) as nat);
        }
        let m = v * scale;
        (e + 127) * 0x80_0000 + (m - 0x80_0000)
    } else {
        let sh = e - 23;
        let p = pow2_u32(sh);
        let q = v / p;
        let r = v % p;
        proof {
            lemma_pow2_pos(sh as nat);
            lemma_fundamental_div_mod(v as int, p as int);
            lemma_pow2_adds(sh as nat, 24);
            lemma_pow2_adds(sh as nat, 23);
            // q < 2^24 because v < 2^(e+1) = 2^sh * 2^24
            lemma_div_by_multiple_bound(v as nat, sh as nat, 24);
            // q >= 2^23 because v >= 2^e = 2^sh * 2^23
            lemma_div_lower_bound(v as nat, sh as nat, 23);
        }
        let mut q2 = q;
        if 2 * r > p || (2 * r == p && q % 2 == 1) {
            q2 = q + 1;
        }
        if q2 == 0x100_0000 {
            (e + 128) * 0x80_0000
        } else {
            (e + 127) * 0x80_0000 + (q2 - 0x80_0000)
        }
    }
}

/// Classification of a binary32 bit pattern for integer casting: a NaN, a
/// magnitude too large for any 32-bit integer, or the exact truncated
/// magnitude.
pub enum B32Mag {
    NanVal,
    Huge,
    Mag(u64),
}

/// Splits a bit pattern into its sign and its truncated magnitude class.
pub fn b32_split(bits: u32) -> (r: (bool, B32Mag))
    ensures
        r.0 == b32_sign(bits),
        r.1 is NanVal <==> b32_is_nan(bits),
        r.1 is Huge ==> b32_is_inf(bits) || b32_trunc_mag(bits) > 0xFFFF_FFFF,
        r.1 matches B32Mag::Mag(m) ==> !b32_is_nan(bits) && !b32_is_inf(bits) && m
            == b32_trunc_mag(bits) && m <= 0xFFFF_FFFF,
{
    let exp = (bits / 0x80_0000) % 0x100;
    let frac = bits % 0x80_0000;
    let sign = bits >= 0x8000_0000;
    proof {
        lemma2_to64();
        assert(sign == b32_sign(bits)) by {
            if bits >= 0x8000_0000 {
                lemma_fundamental_div_mod_converse(
                    bits as int,
                    0x8000_0000,
                    1,
                    bits - 0x8000_0000,
                );
            }
        }
    }
    if exp == 255 {
        if frac != 0 {
            return (sign, B32Mag::NanVal);
        }
        return (sign, B32Mag::Huge);
    }
    if exp == 0 {
        return (sign, B32Mag::Mag(0));
    }
    let m: u32 = 0x80_0000 + frac;
    if exp >= 150 {
        let sh = exp - 150;
        if sh >= 9 {
            proof {
                if sh > 9 {
                    lemma_pow2_strictly_increases(9, sh as nat);
                }
                lemma_mul_inequality(pow2(23) as int, m as int, pow2(sh as nat) as int);
                lemma_mul_inequality(pow2(9) as int, pow2(sh as nat) as int, pow2(23) as int);
                lemma_mul_is_commutative(pow2(9) as int, pow2(23) as int);
                lemma_mul_is_commutative(pow2(sh as nat) as int, pow2(23) as int);
                lemma_pow2_adds(23, 9);
            }
            return (sign, B32Mag::Huge);
        }
        let p = pow2_u32(sh);
        proof {
            lemma_mul_inequality(m as int, 0xFF_FFFF, p as int);
            lemma_mul_inequality(p as int, 0x100, m as int);
            lemma_mul_is_commutative(p as int, m as int);
        }
        let mag = (m as u64) * (p as u64);
        (sign, B32Mag::Mag(mag))
    } else {
        let sh = 150 - exp;
        if sh >= 24 {
            proof {
                if sh > 24 {
                    lemma_pow2_strictly_increases(24, sh as nat);
                }
                lemma_pow2_pos(sh as nat);
                assert(pow2(sh as nat) * pow2(0) == pow2(sh as nat));
                lemma_div_by_multiple_bound(m as nat, sh as nat, 0);
            }
            return (sign, B32Mag::Mag(0));
        }
        let p = pow2_u32(sh);
        (sign, B32Mag::Mag((m / p) as u64))
    }
}

/// Casts a binary32 bit pattern to `u32` with Rust's saturating semantics.
pub fn b32_to_u32(bits: u32) -> (r: u32)
    ensures
        r == b32_to_u32_cast(bits),
{
    let (sign, mag) = b32_split(bits);
    match mag {
        B32Mag::NanVal => 0,
        B32Mag::Huge => if sign {
            0
        } else {
            0xFFFF_FFFF
        },
        B32Mag::Mag(m) => if sign {
            0
        } else {
            m as u32
        },
    }
}

/// Casts a binary32 bit pattern to `u8` with Rust's saturating semantics.
pub fn b32_to_u8(bits: u32) -> (r: u8)
    ensures
        r == b32_to_u8_cast(bits),
{
    let (sign, mag) = b32_split(bits);
    match mag {
        B32Mag::NanVal => 0,
        B32Mag::Huge => if sign {
            0
        } else {
            0xFF
        },
        B32Mag::Mag(m) => if sign {
            0
        } else if m > 0xFF {
            0xFF
        } else {
            m as u8
        },
    }
}

/// Casts a binary32 bit pattern to `u16` with Rust's saturating semantics.
pub fn b32_to_u16(bits: u32) -> (r: u16)
    ensures
        r == b32_to_u16_cast(bits),
{
    let (sign, mag) = b32_split(bits);
    match mag {
        B32Mag::NanVal => 0,
        B32Mag::Huge => if sign {
            0
        } else {
            0xFFFF
        },
        B32Mag::Mag(m) => if sign {
            0
        } else if m > 0xFFFF {
            0xFFFF
        } else {
            m as u16
        },
    }
}

/// Casts a binary32 bit pattern to `i32` with Rust's saturating semantics.
pub fn b32_to_i32(bits: u32) -> (r: i32)
    ensures
        r == b32_to_i32_cast(bits),
{
    let (sign, mag) = b32_split(bits);
    match mag {
        B32Mag::NanVal => 0,
        B32Mag::Huge => if sign {
            -0x8000_0000
        } else {
            0x7FFF_FFFF
        },
        B32Mag::Mag(m) => if !sign {
            if m > 0x7FFF_FFFF {
                0x7FFF_FFFF
            } else {
                m as i32
            }
        } else {
            if m >= 0x8000_0000 {
                -0x8000_0000
            } else {
                (0 - (m as i64)) as i32
            }
        },
    }
}

/// Casts a binary32 bit pattern to `i8` with Rust's saturating semantics.
pub fn b32_to_i8(bits: u32) -> (r: i8)
    ensures
        r == b32_to_i8_cast(bits),
{
    let (sign, mag) = b32_split(bits);
    match mag {
        B32Mag::NanVal => 0,
        B32Mag::Huge => if sign {
            -0x80
        } else {
            0x7F
        },
        B32Mag::Mag(m) => if !sign {
            if m > 0x7F {
                0x7F
            } else {
                m as i8
            }
        } else {
            if m >= 0x80 {
                -0x80
            } else {
                (0 - (m as i64)) as i8
            }
        },
    }
}

/// Casts a binary32 bit pattern to `i16` with Rust's saturating semantics.
pub fn b32_to_i16(bits: u32) -> (r: i16)
    ensures
        r == b32_to_i16_cast(bits),
{
    let (sign, mag) = b32_split(bits);
    match mag {
        B32Mag::NanVal => 0,
        B32Mag::Huge => if sign {
            -0x8000
        } else {
            0x7FFF
        },
        B32Mag::Mag(m) => if !sign {
            if m > 0x7FFF {
                0x7FFF
            } else {
                m as i16
            }
        } else {
            if m >= 0x8000 {
                -0x8000
            } else {
                (0 - (m as i64)) as i16
            }
        },
    }
}

/// The defining bounds of `msb`: `2^msb(v) <= v < 2^(msb(v) + 1)`.
pub proof fn lemma_msb_bounds(v: nat)
    requires
        v >= 1,
    ensures
        pow2(msb(v)) <= v < pow2(msb(v) + 1),
    decreases v,
{
    if v < 2 {
        lemma2_to64();
    } else {
        lemma_msb_bounds(v / 2);
        lemma_pow2_unfold(msb(v / 2) + 1);
        lemma_pow2_unfold(msb(v / 2) + 2);
    }
}

/// Decomposes a composed bit pattern back into its exponent and fraction
/// fields, and notes that the sign bit is clear.
proof fn lemma_b32_fields(ee: nat, ff: nat)
    requires
        ee < 256,
        ff < pow2(23),
    ensures
        ee * pow2(23) + ff < 0x8000_0000,
        b32_exp(((ee * pow2(23) + ff) as u32)) == ee,
        b32_frac(((ee * pow2(23) + ff) as u32)) == ff,
        !b32_sign(((ee * pow2(23) + ff) as u32)),
{
    lemma2_to64();
    lemma_mul_inequality(ee as int, 255, pow2(23) as int);
    let bits = (ee * pow2(23) + ff) as u32;
    lemma_fundamental_div_mod_converse(bits as int, pow2(23) as int, ee as int, ff as int);
    lemma_small_mod(ee, 256);
    lemma_small_mod(bits as nat, 0x8000_0000);
}

/// For a magnitude up to `2^31` the built bit pattern is finite, has a
/// clear sign bit, and a nonzero exponent field.
proof fn lemma_b32_from_nat_shape(v: nat)
    requires
        1 <= v <= pow2(31),
    ensures
        b32_from_nat(v) < 0x8000_0000,
        !b32_sign(b32_from_nat(v)),
        !b32_is_nan(b32_from_nat(v)),
        !b32_is_inf(b32_from_nat(v)),
        b32_exp(b32_from_nat(v)) >= 1,
{
    lemma2_to64();
    lemma_msb_bounds(v);
    let e = msb(v);
    if e > 31 {
        lemma_pow2_strictly_increases(32, e + 1);
    }
    if e <= 23 {
        let scale = pow2((23 - e) as nat);
        lemma_pow2_pos((23 - e) as nat);
        lemma_mul_strict_inequality(v as int, pow2((e + 1) as nat) as int, scale as int);
        lemma_pow2_adds((e + 1) as nat, (23 - e) as nat);
        lemma_mul_inequality(pow2(e) as int, v as int, scale as int);
        lemma_pow2_adds(e, (23 - e) as nat);
        lemma_b32_fields(e + 127, (v * scale - pow2(23)) as nat);
    } else {
        let sh = (e - 23) as nat;
        lemma_pow2_pos(sh);
        lemma_pow2_adds(sh, 24);
        lemma_pow2_adds(sh, 23);
        lemma_div_by_multiple_bound(v, sh, 24);
        lemma_div_lower_bound(v, sh, 23);
        let q = v / pow2(sh);
        let r = v % pow2(sh);
        let q2 = if 2 * r > pow2(sh) || (2 * r == pow2(sh) && q % 2 == 1) {
            q + 1
        } else {
            q
        };
        if q2 == pow2(24) {
            lemma_b32_fields(e + 128, 0);
        } else {
            lemma_b32_fields(e + 127, (q2 - pow2(23)) as nat);
        }
    }
}

/// For a magnitude up to `2^24` the binary32 encoding is exact: truncating
/// it back gives the original value.
pub proof fn lemma_b32_from_nat_exact(v: nat)
    requires
        1 <= v <= pow2(24),
    ensures
        !b32_sign(b32_from_nat(v)),
        !b32_is_nan(b32_from_nat(v)),
        !b32_is_inf(b32_from_nat(v)),
        b32_trunc_mag(b32_from_nat(v)) == v,
{
    lemma2_to64();
    lemma_msb_bounds(v);
    lemma_pow2_strictly_increases(31, 32);
    lemma_b32_from_nat_shape(v);
    let e = msb(v);
    if e > 24 {
        lemma_pow2_strictly_increases(24, e);
        assert(false);
    }
    if e <= 23 {
        let scale = pow2((23 - e) as nat);
        lemma_pow2_pos((23 - e) as nat);
        lemma_mul_strict_inequality(v as int, pow2((e + 1) as nat) as int, scale as int);
        lemma_pow2_adds((e + 1) as nat, (23 - e) as nat);
        lemma_mul_inequality(pow2(e) as int, v as int, scale as int);
        lemma_pow2_adds(e, (23 - e) as nat);
        lemma_b32_fields(e + 127, (v * scale - pow2(23)) as nat);
        let bits = b32_from_nat(v);
        assert(b32_exp(bits) == e + 127);
        assert(pow2(23) + b32_frac(bits) == v * scale);
        if e < 23 {
            assert(b32_trunc_mag(bits) == (v * scale) / pow2((23 - e) as nat));
            assert((v * scale) as int == (v as int) * (scale as int));
            assert(((v as int) * (scale as int)) / (scale as int) == v as int) by {
                vstd::arithmetic::div_mod::lemma_div_by_multiple(v as int, scale as int);
            }
            assert(pow2((23 - e) as nat) == scale);
            assert((v * scale) / scale == v);
            assert(b32_trunc_mag(bits) == v);
        } else {
            assert(b32_exp(bits) == 150);
            assert(scale == 1);
            assert(v * scale == v) by {
                vstd::arithmetic::mul::lemma_mul_basics(v as int);
            }
            assert(pow2(23) + b32_frac(bits) == v);
            assert(b32_trunc_mag(bits) == (pow2(23) + b32_frac(bits)) * pow2(0));
            assert(b32_trunc_mag(bits) == v);
        }
    } else {
        // e == 24, so 2^24 <= v <= 2^24 forces v == 2^24.
        assert(v == pow2(24));
        let sh = (e - 23) as nat;
        assert(sh == 1);
        lemma_pow2_unfold(24);
        assert(v / pow2(1) == pow2(23)) by {
            lemma_pow2_pos(23);
            lemma_fundamental_div_mod_converse(v as int, 2, pow2(23) as int, 0);
        }
        assert(v % pow2(1) == 0) by {
            lemma_fundamental_div_mod_converse(v as int, 2, pow2(23) as int, 0);
        }
        let q2 = pow2(23);
        lemma_pow2_strictly_increases(23, 24);
        lemma_b32_fields(e + 127, 0);
        let bits = b32_from_nat(v);
        assert(b32_exp(bits) == 151);
        assert(b32_trunc_mag(bits) == pow2(23) * pow2(1));
        lemma_pow2_adds(23, 1);
        assert(b32_trunc_mag(bits) == v);
    }
}

/// Builds the binary32 bit pattern nearest to a signed value.
pub fn b32_of_i32(v: i32) -> (bits: u32)
    ensures
        bits == b32_from_i32(v),
{
    if v >= 0 {
        b32_of_u32(v as u32)
    } else {
        let mag: u32 = (0 - (v as i64)) as u32;
        proof {
            lemma2_to64();
            lemma_b32_from_nat_shape(mag as nat);
        }
        b32_of_u32(mag) + 0x8000_0000
    }
}

/// Round trip for `u32` magnitudes that binary32 represents exactly.
pub proof fn lemma_round_trip_u32(v: u32)
    requires
        v <= 0x100_0000,
    ensures
        b32_to_u32_cast(b32_from_u32(v)) == v,
{
    lemma2_to64();
    if v > 0 {
        lemma_b32_from_nat_exact(v as nat);
    }
}

/// Round trip for `u16` values (always exact).
pub proof fn lemma_round_trip_u16(v: u16)
    ensures
        b32_to_u16_cast(b32_from_u32(v as u32)) == v,
{
    lemma2_to64();
    if v > 0 {
        lemma_pow2_strictly_increases(16, 24);
        lemma_b32_from_nat_exact(v as nat);
    }
}

/// Round trip for `u8` values (always exact).
pub proof fn lemma_round_trip_u8(v: u8)
    ensures
        b32_to_u8_cast(b32_from_u32(v as u32)) == v,
{
    lemma2_to64();
    if v > 0 {
        lemma_pow2_strictly_increases(8, 24);
        lemma_b32_from_nat_exact(v as nat);
    }
}

/// The exponent and fraction fields ignore the sign bit.
proof fn lemma_b32_negate_fields(bits0: u32)
    requires
        bits0 < 0x8000_0000,
    ensures
        b32_sign((bits0 + 0x8000_0000) as u32),
        b32_exp((bits0 + 0x8000_0000) as u32) == b32_exp(bits0),
        b32_frac((bits0 + 0x8000_0000) as u32) == b32_frac(bits0),
{
    lemma2_to64();
    let bits = (bits0 + 0x8000_0000) as u32;
    let e0 = b32_exp(bits0);
    let f0 = (bits0 % 0x80_0000) as nat;
    lemma_fundamental_div_mod(bits0 as int, 0x80_0000);
    let d0 = bits0 as int / 0x80_0000;
    assert(d0 < 0x100) by {
        if d0 >= 0x100 {
            lemma_mul_inequality(0x100, d0, 0x80_0000);
        }
    }
    assert(d0 >= 0);
    lemma_fundamental_div_mod_converse(bits as int, 0x80_0000, d0 + 0x100, f0 as int);
    lemma_small_mod(d0 as nat, 0x100);
    lemma_mod_add_multiples_vanish(d0, 0x100);
    lemma_fundamental_div_mod_converse(bits as int, 0x8000_0000, 1, bits0 as int);
}

/// Round trip for signed magnitudes that binary32 represents exactly.
pub proof fn lemma_round_trip_i32(v: i32)
    requires
        -0x100_0000 <= v <= 0x100_0000,
    ensures
        b32_to_i32_cast(b32_from_i32(v)) == v,
{
    lemma2_to64();
    if v >= 0 {
        if v > 0 {
            lemma_b32_from_nat_exact(v as nat);
        }
    } else {
        let mag = (0 - v as int) as nat;
        lemma_b32_from_nat_exact(mag);
        lemma_pow2_strictly_increases(24, 31);
        lemma_b32_from_nat_shape(mag);
        lemma_b32_negate_fields(b32_from_nat(mag));
    }
}

/// Round trip for `i16` values (always exact).
pub proof fn lemma_round_trip_i16(v: i16)
    ensures
        b32_to_i16_cast(b32_from_i32(v as i32)) == v,
{
    lemma2_to64();
    if v != 0 {
        let mag = if v >= 0 {
            v as nat
        } else {
            (0 - v as int) as nat
        };
        lemma_pow2_strictly_increases(16, 24);
        lemma_b32_from_nat_exact(mag);
        if v < 0 {
            lemma_pow2_strictly_increases(24, 31);
            lemma_b32_from_nat_shape(mag);
            lemma_b32_negate_fields(b32_from_nat(mag));
        }
    }
}

/// Round trip for `i8` values (always exact).
pub proof fn lemma_round_trip_i8(v: i8)
    ensures
        b32_to_i8_cast(b32_from_i32(v as i32)) == v,
{
    lemma2_to64();
    if v != 0 {
        let mag = if v >= 0 {
            v as nat
        } else {
            (0 - v as int) as nat
        };
        lemma_pow2_strictly_increases(8, 24);
        lemma_b32_from_nat_exact(mag);
        if v < 0 {
            lemma_pow2_strictly_increases(24, 31);
            lemma_b32_from_nat_shape(mag);
            lemma_b32_negate_fields(b32_from_nat(mag));
        }
    }
}

/// Division by a power of two stays under a power of two:
/// `v < 2^sh * 2^b` implies `v / 2^sh < 2^b`.
proof fn lemma_div_by_multiple_bound(v: nat, sh: nat, b: nat)
    requires
        v < pow2(sh) * pow2(b),
    ensures
        v / pow2(sh) < pow2(b),
{
    lemma_pow2_pos(sh);
    lemma_pow2_pos(b);
    lemma_fundamental_div_mod(v as int, pow2(sh) as int);
    let q = v as int / pow2(sh) as int;
    let r = v as int % pow2(sh) as int;
    if q >= pow2(b) {
        lemma_mul_inequality(pow2(b) as int, q, pow2(sh) as int);
        lemma_mul_is_commutative(pow2(b) as int, pow2(sh) as int);
        lemma_mul_is_commutative(q, pow2(sh) as int);
    }
}

/// Division by a power of two keeps a power-of-two lower bound:
/// `v >= 2^sh * 2^b` implies `v / 2^sh >= 2^b`.
proof fn lemma_div_lower_bound(v: nat, sh: nat, b: nat)
    requires
        v >= pow2(sh) * pow2(b),
    ensures
        v / pow2(sh) >= pow2(b),
{
    lemma_pow2_pos(sh);
    lemma_pow2_pos(b);
    lemma_fundamental_div_mod(v as int, pow2(sh) as int);
    let q = v as int / pow2(sh) as int;
    if q < pow2(b) {
        lemma_mul_inequality(q + 1, pow2(b) as int, pow2(sh) as int);
        lemma_mul_is_commutative(q + 1, pow2(sh) as int);
        lemma_mul_is_commutative(pow2(b) as int, pow2(sh) as int);
        lemma_mul_is_distributive_add_other_way(pow2(sh) as int, q, 1);
    }
}

} // verus!
