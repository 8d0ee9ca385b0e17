//! Bit patterns for uniform floating-point draws in `[0, 1)`. Proof code
//! cannot hold floating-point values, so the library hands out the IEEE 754
//! encoding: the pattern of 1.0 with a uniformly random mantissa, which
//! decodes to a value in `[1, 2)`; subtracting one from the decoded value
//! yields the draw in `[0, 1)`.

use vstd::prelude::*;

use crate::model::{draw32, draw64, next_state};
use crate::rng::Rng;

verus! {

impl Rng {
    /// Returns the single-precision IEEE 754 pattern of `1.0 + m / 2^23`
    /// with a uniform 23-bit mantissa `m`: decode and subtract one for a
    /// uniform value in `[0, 1)`.
    pub fn f32_bits(&mut self) -> (r: u32)
        ensures
            final(self)@ == next_state(old(self)@),
            r == 0x3F80_0000 + (draw32(old(self)@) >> 9),
            0x3F80_0000 <= r < 0x4000_0000,
    {
        let x = self.gen_u32();
        proof {
            assert(x >> 9u32 < 0x80_0000) by (bit_vector);
        }
        0x3F80_0000 + (x >> 9)
    }

    /// Returns the double-precision IEEE 754 pattern of `1.0 + m / 2^52`
    /// with a uniform 52-bit mantissa `m`: decode and subtract one for a
    /// uniform value in `[0, 1)`.
    pub fn f64_bits(&mut self) -> (r: u64)
        ensures
            final(self)@ == next_state(old(self)@),
            r == 0x3FF0_0000_0000_0000 + (draw64(old(self)@) >> 12),
            0x3FF0_0000_0000_0000 <= r < 0x4000_0000_0000_0000,
    {
        let x = self.gen_u64();
        proof {
            assert(x >> 12u64 < 0x10_0000_0000_0000) by (bit_vector);
        }
        0x3FF0_0000_0000_0000 + (x >> 12)
    }
}

} // verus!
