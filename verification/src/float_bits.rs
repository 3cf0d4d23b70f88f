//! Exact widening of an IEEE 754 single-precision bit pattern to the
//! double-precision bit pattern of the same value.
//!
//! The library carries `Float64` cells as raw `u64` bit patterns, while
//! the coordinate generators of the catalog produce 32-bit floats. Every
//! single-precision value is exactly representable as a double, so the
//! widening is a pure function on bit patterns: sign and fraction are
//! carried over, the exponent is re-biased, and a subnormal single is
//! normalised into an ordinary double.

use vstd::arithmetic::mul::lemma_mul_strict_inequality;
use vstd::arithmetic::power2::{
    lemma2_to64, lemma2_to64_rest, lemma_pow2_adds, lemma_pow2_pos, lemma_pow2_subtracts, pow2,
};
use vstd::prelude::*;

verus! {

/// Position of the most significant set bit of `f`, with `msb(0) == 0`.
pub open spec fn msb(f: nat) -> nat
    decreases f,
{
    if f <= 1 {
        0
    } else {
        1 + msb(f / 2)
    }
}

/// `msb` is characterised by the enclosing powers of two.
proof fn lemma_msb_unique(f: nat, p: nat)
    requires
        pow2(p) <= f < pow2(p + 1),
    ensures
        msb(f) == p,
    decreases f,
{
    lemma2_to64();
    if p == 0 {
        assert(f == 1);
    } else {
        lemma_pow2_adds((p - 1) as nat, 1);
        lemma_pow2_adds(p, 1);
        assert(pow2(1) == 2);
        assert(pow2(p) == pow2((p - 1) as nat) * 2);
        assert(pow2(p + 1) == pow2(p) * 2);
        assert(pow2((p - 1) as nat) <= f / 2 < pow2(p));
        lemma_msb_unique(f / 2, (p - 1) as nat);
        assert(f >= 2);
        assert(msb(f) == 1 + msb(f / 2));
    }
}

/// The double-precision bit pattern that denotes the same value as the
/// single-precision bit pattern `b`, as an integer.
///
/// With `s`, `e`, `f` the sign, biased exponent and fraction fields of
/// `b`: an infinity or not-a-number (`e == 255`) keeps its sign and
/// fraction under the maximal exponent; a zero stays a zero of the same
/// sign; a subnormal single (`e == 0`, `f != 0`), worth `f * 2^-149`, is
/// normalised, its leading fraction bit becoming implicit; a normal
/// number keeps its fraction and has its exponent re-biased from 127 to
/// 1023. Fractions move from 23 to 52 bits, a shift by 29.
pub open spec fn spec_widen_f32_bits(b: u32) -> int {
    let s = (b as int) / 0x8000_0000;
    let e = ((b as int) / 0x80_0000) % 0x100;
    let f = (b as int) % 0x80_0000;
    if e == 255 {
        s * 0x8000_0000_0000_0000 + 0x7FF * 0x10_0000_0000_0000 + f * 0x2000_0000
    } else if e == 0 && f == 0 {
        s * 0x8000_0000_0000_0000
    } else if e == 0 {
        let p = msb(f as nat);
        s * 0x8000_0000_0000_0000 + (p + 874) * 0x10_0000_0000_0000 + (f - pow2(p)) * pow2(
            (52 - p) as nat,
        )
    } else {
        s * 0x8000_0000_0000_0000 + (e + 896) * 0x10_0000_0000_0000 + f * 0x2000_0000
    }
}

/// Widen a single-precision bit pattern to the double-precision bit
/// pattern of the same value.
pub fn widen_f32_bits(b: u32) -> (r: u64)
    ensures
        r == spec_widen_f32_bits(b),
{
    let s: u64 = (b / 0x8000_0000) as u64;
    let e: u64 = ((b / 0x80_0000) % 0x100) as u64;
    let f: u64 = (b % 0x80_0000) as u64;
    assert(s <= 1 && e <= 255 && f < 0x80_0000);
    if e == 255 {
        s * 0x8000_0000_0000_0000 + 0x7FF * 0x10_0000_0000_0000 + f * 0x2000_0000
    } else if e == 0 && f == 0 {
        s * 0x8000_0000_0000_0000
    } else if e == 0 {
        // Normalise: find the leading set bit of the fraction.
        let mut p: u64 = 22;
        let mut t: u64 = 0x40_0000;
        proof {
            lemma2_to64();
        }
        while f < t
            invariant
                p <= 22,
                1 <= f < 0x80_0000,
                t == pow2(p as nat),
                f < pow2((p + 1) as nat),
            decreases p,
        {
            proof {
                lemma2_to64();
                if p == 0 {
                    assert(t == 1);
                    assert(false);
                }
                lemma_pow2_adds((p - 1) as nat, 1);
                assert(pow2(p as nat) == pow2((p - 1) as nat) * 2);
            }
            t = t / 2;
            p = p - 1;
        }
        proof {
            lemma_msb_unique(f as nat, p as nat);
        }
        let q: u64 = 0x10_0000_0000_0000 / t;
        proof {
            lemma_pow2_subtracts(p as nat, 52);
            lemma2_to64();
            lemma2_to64_rest();
            assert(q == pow2((52 - p) as nat));
            lemma_pow2_pos((52 - p) as nat);
            lemma_pow2_adds(p as nat, (52 - p) as nat);
            assert(pow2(p as nat) * pow2((52 - p) as nat) == pow2(52));
            lemma_pow2_adds(p as nat, 1);
            assert(f < pow2(p as nat) * 2);
            assert(f - t < t);
            lemma_mul_strict_inequality((f - t) as int, t as int, q as int);
            assert((f - t) * q < 0x10_0000_0000_0000);
        }
        s * 0x8000_0000_0000_0000 + (p + 874) * 0x10_0000_0000_0000 + (f - t) * q
    } else {
        s * 0x8000_0000_0000_0000 + (e + 896) * 0x10_0000_0000_0000 + f * 0x2000_0000
    }
}

} // verus!
