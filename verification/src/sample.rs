//! The bounded sampler: uniform values in `[0, n)` without modulo bias, by
//! widening multiplication and rejection, at widths 32, 64 and 128.

use vstd::prelude::*;

use vstd::arithmetic::div_mod::{
    lemma_fundamental_div_mod, lemma_fundamental_div_mod_converse_div, lemma_mod_bound,
    lemma_multiply_divide_lt,
};
use vstd::arithmetic::mul::lemma_mul_strict_inequality;

use crate::model::{
    accepts_128, accepts_32, accepts_64, draw128, mul_hi_128, mul_hi_32, mul_hi_64, next_state,
    output, sample_128, sample_32, sample_64, threshold_128, threshold_32, threshold_64,
    DRAW_LIMIT,
};
use crate::rng::Rng;

verus! {

/// Computes the high 32 bits of the 64-bit product `a * b`.
fn mul_high_u32(a: u32, b: u32) -> (r: u32)
    ensures
        r == mul_hi_32(a, b),
{
    proof {
        assert((a as int) * (b as int) < 0x1_0000_0000_0000_0000) by (nonlinear_arith)
            requires
                a < 0x1_0000_0000,
                b < 0x1_0000_0000,
        ;
    }
    let p = (a as u64) * (b as u64);
    proof {
        assert(p >> 32u64 == p / 0x1_0000_0000) by (bit_vector);
        lemma_multiply_divide_lt(p as int, 0x1_0000_0000, 0x1_0000_0000);
    }
    (p >> 32) as u32
}

/// Computes the high 64 bits of the 128-bit product `a * b`.
fn mul_high_u64(a: u64, b: u64) -> (r: u64)
    ensures
        r == mul_hi_64(a, b),
{
    proof {
        assert((a as int) * (b as int) < 0x1_0000_0000_0000_0000_0000_0000_0000_0000int)
            by (nonlinear_arith)
            requires
                a < 0x1_0000_0000_0000_0000,
                b < 0x1_0000_0000_0000_0000,
        ;
    }
    let p = (a as u128) * (b as u128);
    proof {
        lemma_u128_shr64_is_div(p);
        lemma_multiply_divide_lt(
            p as int,
            0x1_0000_0000_0000_0000,
            0x1_0000_0000_0000_0000,
        );
    }
    (p >> 64) as u64
}

/// Shifting a 128-bit value right by 64 divides it by 2^64.
proof fn lemma_u128_shr64_is_div(p: u128)
    by (bit_vector)
    ensures
        p >> 64u128 == p / 0x1_0000_0000_0000_0000,
{
}

/// The low 64 bits of a 128-bit value are its remainder modulo 2^64.
proof fn lemma_u128_low64_is_mod(p: u128)
    by (bit_vector)
    ensures
        ((p as u64) as u128) == p % 0x1_0000_0000_0000_0000,
{
}

/// Computes the high 128 bits of the 256-bit product `a * b` by a four-limb
/// schoolbook multiply.
fn mul_high_u128(a: u128, b: u128) -> (r: u128)
    ensures
        r == mul_hi_128(a, b),
{
    let a_lo = a as u64 as u128;
    let a_hi = (a >> 64) as u64 as u128;
    let b_lo = b as u64 as u128;
    let b_hi = (b >> 64) as u64 as u128;
    proof {
        lemma_u128_shr64_is_div(a);
        lemma_u128_shr64_is_div(b);
        lemma_u128_low64_is_mod(a);
        lemma_u128_low64_is_mod(b);
        lemma_u128_low64_is_mod(a >> 64);
        lemma_u128_low64_is_mod(b >> 64);
        lemma_limb_product_bounds(a_lo, a_hi, b_lo, b_hi);
    }
    let p0 = a_lo * b_lo;
    let p1 = a_hi * b_lo;
    let p2 = a_lo * b_hi;
    let carry = p0 >> 64;
    proof {
        lemma_u128_shr64_is_div(p0);
        lemma_u128_low64_is_mod(p1);
        lemma_u128_low64_is_mod(p2);
        lemma_multiply_divide_lt(
            p0 as int,
            0x1_0000_0000_0000_0000,
            0x1_0000_0000_0000_0000,
        );
    }
    let mid = (p1 as u64 as u128) + (p2 as u64 as u128) + carry;
    proof {
        lemma_u128_shr64_is_div(mid);
        lemma_multiply_divide_lt(mid as int, 0x1_0000_0000_0000_0000, 3);
        lemma_u128_shr64_is_div(p1);
        lemma_u128_shr64_is_div(p2);
        lemma_multiply_divide_lt(p1 as int, 0x1_0000_0000_0000_0000, 0xFFFF_FFFF_FFFF_FFFF);
        lemma_multiply_divide_lt(p2 as int, 0x1_0000_0000_0000_0000, 0xFFFF_FFFF_FFFF_FFFF);
    }
    let carry = mid >> 64;
    let r = a_hi * b_hi + (p1 >> 64) + (p2 >> 64) + carry;
    proof {
        lemma_schoolbook_high(
            a as int,
            b as int,
            a_hi as int,
            a_lo as int,
            b_hi as int,
            b_lo as int,
            mid as int,
            r as int,
        );
        lemma_multiply_divide_lt(
            (a as int) * (b as int),
            0x1_0000_0000_0000_0000_0000_0000_0000_0000int,
            0x1_0000_0000_0000_0000_0000_0000_0000_0000int,
        );
    }
    r
}

/// Limb products of 64-bit halves stay below 2^128, and the high product of
/// two values below 2^128 stays below 2^256.
proof fn lemma_limb_product_bounds(a_lo: u128, a_hi: u128, b_lo: u128, b_hi: u128)
    requires
        a_lo < 0x1_0000_0000_0000_0000,
        a_hi < 0x1_0000_0000_0000_0000,
        b_lo < 0x1_0000_0000_0000_0000,
        b_hi < 0x1_0000_0000_0000_0000,
    ensures
        (a_lo as int) * (b_lo as int) <= 0xFFFF_FFFF_FFFF_FFFF * 0xFFFF_FFFF_FFFF_FFFF,
        (a_hi as int) * (b_lo as int) <= 0xFFFF_FFFF_FFFF_FFFF * 0xFFFF_FFFF_FFFF_FFFF,
        (a_lo as int) * (b_hi as int) <= 0xFFFF_FFFF_FFFF_FFFF * 0xFFFF_FFFF_FFFF_FFFF,
        (a_hi as int) * (b_hi as int) <= 0xFFFF_FFFF_FFFF_FFFF * 0xFFFF_FFFF_FFFF_FFFF,
{
    assert((a_lo as int) * (b_lo as int) <= 0xFFFF_FFFF_FFFF_FFFF * 0xFFFF_FFFF_FFFF_FFFF
        && (a_hi as int) * (b_lo as int) <= 0xFFFF_FFFF_FFFF_FFFF * 0xFFFF_FFFF_FFFF_FFFF
        && (a_lo as int) * (b_hi as int) <= 0xFFFF_FFFF_FFFF_FFFF * 0xFFFF_FFFF_FFFF_FFFF
        && (a_hi as int) * (b_hi as int) <= 0xFFFF_FFFF_FFFF_FFFF * 0xFFFF_FFFF_FFFF_FFFF)
        by (nonlinear_arith)
        requires
            a_lo <= 0xFFFF_FFFF_FFFF_FFFFu128,
            a_hi <= 0xFFFF_FFFF_FFFF_FFFFu128,
            b_lo <= 0xFFFF_FFFF_FFFF_FFFFu128,
            b_hi <= 0xFFFF_FFFF_FFFF_FFFFu128,
    ;
}

/// The schoolbook combination of limb products computes the high 128 bits of
/// the 256-bit product.
proof fn lemma_schoolbook_high(
    a: int,
    b: int,
    ah: int,
    al: int,
    bh: int,
    bl: int,
    mid: int,
    r: int,
)
    requires
        0 <= al < 0x1_0000_0000_0000_0000,
        0 <= bl < 0x1_0000_0000_0000_0000,
        0 <= ah < 0x1_0000_0000_0000_0000,
        0 <= bh < 0x1_0000_0000_0000_0000,
        a == ah * 0x1_0000_0000_0000_0000 + al,
        b == bh * 0x1_0000_0000_0000_0000 + bl,
        mid == (ah * bl) % 0x1_0000_0000_0000_0000 + (al * bh) % 0x1_0000_0000_0000_0000 + (al
            * bl) / 0x1_0000_0000_0000_0000,
        r == ah * bh + (ah * bl) / 0x1_0000_0000_0000_0000 + (al * bh)
            / 0x1_0000_0000_0000_0000 + mid / 0x1_0000_0000_0000_0000,
    ensures
        r == (a * b) / 0x1_0000_0000_0000_0000_0000_0000_0000_0000int,
{
    let d = 0x1_0000_0000_0000_0000int;
    let m1 = ah * bl;
    let m2 = al * bh;
    let m0 = al * bl;
    assert(a * b == (ah * bh) * (d * d) + (m1 + m2) * d + m0) by (nonlinear_arith)
        requires
            a == ah * d + al,
            b == bh * d + bl,
            m1 == ah * bl,
            m2 == al * bh,
            m0 == al * bl,
            d == 0x1_0000_0000_0000_0000int,
    ;
    lemma_fundamental_div_mod(m0, d);
    lemma_fundamental_div_mod(m1, d);
    lemma_fundamental_div_mod(m2, d);
    lemma_fundamental_div_mod(mid, d);
    lemma_mod_bound(m0, d);
    lemma_mod_bound(m1, d);
    lemma_mod_bound(m2, d);
    lemma_mod_bound(mid, d);
    let rem = (mid % d) * d + m0 % d;
    assert(a * b == r * (d * d) + rem) by (nonlinear_arith)
        requires
            a * b == (ah * bh) * (d * d) + (m1 + m2) * d + m0,
            m1 == d * (m1 / d) + m1 % d,
            m2 == d * (m2 / d) + m2 % d,
            m0 == d * (m0 / d) + m0 % d,
            mid == d * (mid / d) + mid % d,
            mid == m1 % d + m2 % d + m0 / d,
            r == ah * bh + m1 / d + m2 / d + mid / d,
            rem == (mid % d) * d + m0 % d,
    ;
    assert(0 <= rem < d * d) by (nonlinear_arith)
        requires
            0 <= mid % d < d,
            0 <= m0 % d < d,
            rem == (mid % d) * d + m0 % d,
            d == 0x1_0000_0000_0000_0000int,
    ;
    lemma_fundamental_div_mod_converse_div(a * b, d * d, r, rem);
}

/// The rejection threshold at width 32 is below the modulus.
proof fn lemma_threshold_32_lt(n: u32)
    requires
        n >= 1,
    ensures
        threshold_32(n) < n,
{
    lemma_mod_bound(0x1_0000_0000 - n as int, n as int);
}

/// The rejection threshold at width 64 is below the modulus.
proof fn lemma_threshold_64_lt(n: u64)
    requires
        n >= 1,
    ensures
        threshold_64(n) < n,
{
    lemma_mod_bound(0x1_0000_0000_0000_0000 - n as int, n as int);
}

/// The rejection threshold at width 128 is below the modulus.
proof fn lemma_threshold_128_lt(n: u128)
    requires
        n >= 1,
    ensures
        threshold_128(n) < n,
{
    lemma_mod_bound(0x1_0000_0000_0000_0000_0000_0000_0000_0000int - n as int, n as int);
}

/// The high half of a widening multiply by a 32-bit modulus is below the
/// modulus.
proof fn lemma_mul_hi_32_lt(r: u32, n: u32)
    requires
        n >= 1,
    ensures
        mul_hi_32(r, n) < n,
{
    lemma_mul_strict_inequality(r as int, 0x1_0000_0000, n as int);
    lemma_multiply_divide_lt((r as int) * (n as int), 0x1_0000_0000, n as int);
}

/// The high half of a widening multiply by a 64-bit modulus is below the
/// modulus.
proof fn lemma_mul_hi_64_lt(r: u64, n: u64)
    requires
        n >= 1,
    ensures
        mul_hi_64(r, n) < n,
{
    lemma_mul_strict_inequality(r as int, 0x1_0000_0000_0000_0000, n as int);
    lemma_multiply_divide_lt((r as int) * (n as int), 0x1_0000_0000_0000_0000, n as int);
}

/// The high half of a widening multiply by a 128-bit modulus is below the
/// modulus.
proof fn lemma_mul_hi_128_lt(r: u128, n: u128)
    requires
        n >= 1,
    ensures
        mul_hi_128(r, n) < n,
{
    lemma_mul_strict_inequality(r as int, 0x1_0000_0000_0000_0000_0000_0000_0000_0000int, n as int);
    lemma_multiply_divide_lt(
        (r as int) * (n as int),
        0x1_0000_0000_0000_0000_0000_0000_0000_0000int,
        n as int,
    );
}

/// A bounded sample at width 32 lies in `[0, n)`.
pub(crate) proof fn lemma_sample_32_lt(s: u64, n: u32, fuel: nat)
    requires
        n >= 1,
        fuel >= 1,
    ensures
        sample_32(s, n, fuel).0 < n,
    decreases fuel,
{
    let s1 = next_state(s);
    let r = output(s1) as u32;
    if accepts_32(r, n) || fuel <= 1 {
        lemma_mul_hi_32_lt(r, n);
    } else {
        lemma_sample_32_lt(s1, n, (fuel - 1) as nat);
    }
}

/// A bounded sample at width 64 lies in `[0, n)`.
pub(crate) proof fn lemma_sample_64_lt(s: u64, n: u64, fuel: nat)
    requires
        n >= 1,
        fuel >= 1,
    ensures
        sample_64(s, n, fuel).0 < n,
    decreases fuel,
{
    let s1 = next_state(s);
    let r = output(s1);
    if accepts_64(r, n) || fuel <= 1 {
        lemma_mul_hi_64_lt(r, n);
    } else {
        lemma_sample_64_lt(s1, n, (fuel - 1) as nat);
    }
}

/// A bounded sample at width 128 lies in `[0, n)`.
pub(crate) proof fn lemma_sample_128_lt(s: u64, n: u128, fuel: nat)
    requires
        n >= 1,
        fuel >= 1,
    ensures
        sample_128(s, n, fuel).0 < n,
    decreases fuel,
{
    let s2 = next_state(next_state(s));
    let r = draw128(s);
    if accepts_128(r, n) || fuel <= 1 {
        lemma_mul_hi_128_lt(r, n);
    } else {
        lemma_sample_128_lt(s2, n, (fuel - 1) as nat);
    }
}

impl Rng {
    /// Draws a uniform `u32` in `[0, n)`: keep the high half of the widening
    /// multiply `r * n`, redrawing `r` while its low half falls under the
    /// rejection threshold, up to `DRAW_LIMIT` draws in all.
    pub(crate) fn gen_mod_u32(&mut self, n: u32) -> (r: u32)
        requires
            n >= 1,
        ensures
            r == sample_32(old(self)@, n, DRAW_LIMIT as nat).0,
            final(self)@ == sample_32(old(self)@, n, DRAW_LIMIT as nat).1,
            r < n,
    {
        let ghost s0 = self@;
        let ghost mut pre = self@;
        let mut r = self.gen_u32();
        let mut hi = mul_high_u32(r, n);
        let mut lo = r.wrapping_mul(n);
        proof {
            lemma_threshold_32_lt(n);
        }
        if lo < n {
            let t = ((u32::MAX - n) + 1) % n;
            let mut fuel: u32 = DRAW_LIMIT - 1;
            while lo < t && fuel > 0
                invariant
                    n >= 1,
                    t == threshold_32(n),
                    self@ == next_state(pre),
                    r == output(self@) as u32,
                    hi == mul_hi_32(r, n),
                    lo == r.wrapping_mul(n),
                    sample_32(s0, n, DRAW_LIMIT as nat) == sample_32(pre, n, (fuel + 1) as nat),
                decreases fuel,
            {
                proof {
                    assert(sample_32(pre, n, (fuel + 1) as nat) == sample_32(
                        next_state(pre),
                        n,
                        fuel as nat,
                    ));
                    pre = self@;
                }
                r = self.gen_u32();
                hi = mul_high_u32(r, n);
                lo = r.wrapping_mul(n);
                fuel = fuel - 1;
            }
            proof {
                assert(sample_32(pre, n, (fuel + 1) as nat) == (mul_hi_32(r, n), next_state(pre)));
            }
        }
        proof {
            assert(sample_32(s0, n, DRAW_LIMIT as nat) == (hi, self@));
            lemma_sample_32_lt(s0, n, DRAW_LIMIT as nat);
        }
        hi
    }

    /// Draws a uniform `u64` in `[0, n)`, as `gen_mod_u32` at width 64.
    pub(crate) fn gen_mod_u64(&mut self, n: u64) -> (r: u64)
        requires
            n >= 1,
        ensures
            r == sample_64(old(self)@, n, DRAW_LIMIT as nat).0,
            final(self)@ == sample_64(old(self)@, n, DRAW_LIMIT as nat).1,
            r < n,
    {
        let ghost s0 = self@;
        let ghost mut pre = self@;
        let mut r = self.gen_u64();
        let mut hi = mul_high_u64(r, n);
        let mut lo = r.wrapping_mul(n);
        proof {
            lemma_threshold_64_lt(n);
        }
        if lo < n {
            let t = ((u64::MAX - n) + 1) % n;
            let mut fuel: u32 = DRAW_LIMIT - 1;
            while lo < t && fuel > 0
                invariant
                    n >= 1,
                    t == threshold_64(n),
                    self@ == next_state(pre),
                    r == output(self@),
                    hi == mul_hi_64(r, n),
                    lo == r.wrapping_mul(n),
                    sample_64(s0, n, DRAW_LIMIT as nat) == sample_64(pre, n, (fuel + 1) as nat),
                decreases fuel,
            {
                proof {
                    assert(sample_64(pre, n, (fuel + 1) as nat) == sample_64(
                        next_state(pre),
                        n,
                        fuel as nat,
                    ));
                    pre = self@;
                }
                r = self.gen_u64();
                hi = mul_high_u64(r, n);
                lo = r.wrapping_mul(n);
                fuel = fuel - 1;
            }
            proof {
                assert(sample_64(pre, n, (fuel + 1) as nat) == (mul_hi_64(r, n), next_state(pre)));
            }
        }
        proof {
            assert(sample_64(s0, n, DRAW_LIMIT as nat) == (hi, self@));
            lemma_sample_64_lt(s0, n, DRAW_LIMIT as nat);
        }
        hi
    }

    /// Draws a uniform `u128` in `[0, n)`, as `gen_mod_u32` at width 128;
    /// each candidate consumes two 64-bit draws.
    pub(crate) fn gen_mod_u128(&mut self, n: u128) -> (r: u128)
        requires
            n >= 1,
        ensures
            r == sample_128(old(self)@, n, DRAW_LIMIT as nat).0,
            final(self)@ == sample_128(old(self)@, n, DRAW_LIMIT as nat).1,
            r < n,
    {
        let ghost s0 = self@;
        let ghost mut pre = self@;
        let mut r = self.gen_u128();
        let mut hi = mul_high_u128(r, n);
        let mut lo = r.wrapping_mul(n);
        proof {
            lemma_threshold_128_lt(n);
        }
        if lo < n {
            let t = ((u128::MAX - n) + 1) % n;
            let mut fuel: u32 = DRAW_LIMIT - 1;
            while lo < t && fuel > 0
                invariant
                    n >= 1,
                    t == threshold_128(n),
                    self@ == next_state(next_state(pre)),
                    r == draw128(pre),
                    hi == mul_hi_128(r, n),
                    lo == r.wrapping_mul(n),
                    sample_128(s0, n, DRAW_LIMIT as nat) == sample_128(pre, n, (fuel + 1) as nat),
                decreases fuel,
            {
                proof {
                    assert(sample_128(pre, n, (fuel + 1) as nat) == sample_128(
                        next_state(next_state(pre)),
                        n,
                        fuel as nat,
                    ));
                    pre = self@;
                }
                r = self.gen_u128();
                hi = mul_high_u128(r, n);
                lo = r.wrapping_mul(n);
                fuel = fuel - 1;
            }
            proof {
                assert(sample_128(pre, n, (fuel + 1) as nat) == (
                    mul_hi_128(r, n),
                    next_state(next_state(pre)),
                ));
            }
        }
        proof {
            assert(sample_128(s0, n, DRAW_LIMIT as nat) == (hi, self@));
            lemma_sample_128_lt(s0, n, DRAW_LIMIT as nat);
        }
        hi
    }
}

} // verus!
