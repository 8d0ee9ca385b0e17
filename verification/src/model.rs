//! The mathematical model of the generator: what one step of the state does
//! and what value each state emits. All executable draws are specified in
//! terms of these functions.

use vstd::prelude::*;

verus! {

/// The odd constant added to the state word on every draw.
pub const STATE_STEP: u64 = 0xA076_1D64_78BD_642F;

/// The constant the state is XOR-mixed with before the widening multiply.
pub const STATE_MIX: u64 = 0xE703_7ED1_A0B4_28DB;

/// The state word after one draw.
pub open spec fn next_state(s: u64) -> u64 {
    s.wrapping_add(STATE_STEP)
}

/// The 64-bit value a state word emits: widen `s * (s ^ STATE_MIX)` to 128
/// bits and XOR-fold the high half into the low half.
pub open spec fn output(s: u64) -> u64 {
    let t = ((s as u128) * ((s ^ STATE_MIX) as u128)) as u128;
    (t as u64) ^ ((t >> 64) as u64)
}

/// The next 64-bit draw from state `s`, which moves the state to
/// `next_state(s)`.
pub open spec fn draw64(s: u64) -> u64 {
    output(next_state(s))
}

/// The next 32-bit draw: the 64-bit draw truncated.
pub open spec fn draw32(s: u64) -> u32 {
    draw64(s) as u32
}

/// The next 128-bit draw: two 64-bit draws, the first in the high half.
pub open spec fn draw128(s: u64) -> u128 {
    ((draw64(s) as u128) << 64) | (draw64(next_state(s)) as u128)
}

/// The state word after `k` draws.
pub open spec fn nth_state(s: u64, k: nat) -> u64
    decreases k,
{
    if k == 0 {
        s
    } else {
        nth_state(next_state(s), (k - 1) as nat)
    }
}

/// Taking one more draw advances the state once beyond `nth_state`.
pub proof fn lemma_nth_state_one_more(s: u64, k: nat)
    ensures
        nth_state(s, k + 1) == next_state(nth_state(s, k)),
    decreases k,
{
    reveal_with_fuel(nth_state, 2);
    if k > 0 {
        lemma_nth_state_one_more(next_state(s), (k - 1) as nat);
    }
}

/// How many raw draws a bounded sample may consume before it settles for the
/// current candidate. A draw is rejected with probability below one half, so
/// the chance of ever reaching the limit is below 2^-127.
pub const DRAW_LIMIT: u32 = 128;

/// The high 32 bits of the widening multiply `r * n`.
pub open spec fn mul_hi_32(a: u32, b: u32) -> u32 {
    (((a as int) * (b as int)) / 0x1_0000_0000) as u32
}

/// The high 64 bits of the widening multiply `r * n`.
pub open spec fn mul_hi_64(a: u64, b: u64) -> u64 {
    (((a as int) * (b as int)) / 0x1_0000_0000_0000_0000) as u64
}

/// The high 128 bits of the widening multiply `r * n`.
pub open spec fn mul_hi_128(a: u128, b: u128) -> u128 {
    (((a as int) * (b as int)) / 0x1_0000_0000_0000_0000_0000_0000_0000_0000int) as u128
}

/// The rejection threshold for modulus `n` at width 32: `2^32 % n`. A raw
/// draw `r` is kept only when `r * n mod 2^32` is at least this value.
pub open spec fn threshold_32(n: u32) -> u32
    recommends
        n >= 1,
{
    ((0x1_0000_0000 - n as int) % (n as int)) as u32
}

/// The rejection threshold for modulus `n` at width 64: `2^64 % n`.
pub open spec fn threshold_64(n: u64) -> u64
    recommends
        n >= 1,
{
    ((0x1_0000_0000_0000_0000 - n as int) % (n as int)) as u64
}

/// The rejection threshold for modulus `n` at width 128: `2^128 % n`.
pub open spec fn threshold_128(n: u128) -> u128
    recommends
        n >= 1,
{
    ((0x1_0000_0000_0000_0000_0000_0000_0000_0000int - n as int) % (n as int)) as u128
}

/// Whether the 32-bit draw `r` is kept for modulus `n`.
pub open spec fn accepts_32(r: u32, n: u32) -> bool {
    r.wrapping_mul(n) >= threshold_32(n)
}

/// Whether the 64-bit draw `r` is kept for modulus `n`.
pub open spec fn accepts_64(r: u64, n: u64) -> bool {
    r.wrapping_mul(n) >= threshold_64(n)
}

/// Whether the 128-bit draw `r` is kept for modulus `n`.
pub open spec fn accepts_128(r: u128, n: u128) -> bool {
    r.wrapping_mul(n) >= threshold_128(n)
}

/// The bounded sample in `[0, n)` at width 32, together with the state after
/// it: draw, and redraw while the draw is rejected, up to `fuel` draws in
/// all; the last permitted draw is kept whatever it is.
pub open spec fn sample_32(s: u64, n: u32, fuel: nat) -> (u32, u64)
    recommends
        n >= 1,
        fuel >= 1,
    decreases fuel,
{
    let s1 = next_state(s);
    let r = output(s1) as u32;
    if accepts_32(r, n) || fuel <= 1 {
        (mul_hi_32(r, n), s1)
    } else {
        sample_32(s1, n, (fuel - 1) as nat)
    }
}

/// The bounded sample in `[0, n)` at width 64, as `sample_32`.
pub open spec fn sample_64(s: u64, n: u64, fuel: nat) -> (u64, u64)
    recommends
        n >= 1,
        fuel >= 1,
    decreases fuel,
{
    let s1 = next_state(s);
    let r = output(s1);
    if accepts_64(r, n) || fuel <= 1 {
        (mul_hi_64(r, n), s1)
    } else {
        sample_64(s1, n, (fuel - 1) as nat)
    }
}

/// The bounded sample in `[0, n)` at width 128, as `sample_32`; each draw
/// here consumes two 64-bit draws.
pub open spec fn sample_128(s: u64, n: u128, fuel: nat) -> (u128, u64)
    recommends
        n >= 1,
        fuel >= 1,
    decreases fuel,
{
    let s2 = next_state(next_state(s));
    let r = draw128(s);
    if accepts_128(r, n) || fuel <= 1 {
        (mul_hi_128(r, n), s2)
    } else {
        sample_128(s2, n, (fuel - 1) as nat)
    }
}

} // verus!
