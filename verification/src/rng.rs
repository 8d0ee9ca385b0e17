//! The generator object: a single 64-bit state word, advanced once per draw.

use vstd::prelude::*;

use std::hash::{BuildHasher, Hash, Hasher};

use crate::model::{draw128, draw32, draw64, next_state, output, STATE_MIX, STATE_STEP};

verus! {

/// Relies on `std::time::Instant::now` hashed under a freshly keyed
/// `std::collections::hash_map::RandomState`: the opaque entropy source,
/// read only when a generator is seeded without an explicit seed. Nothing
/// is assumed of the value.
#[verifier::external_body]
fn entropy_word() -> u64 {
    let mut h = std::collections::hash_map::RandomState::new().build_hasher();
    std::time::Instant::now().hash(&mut h);
    h.finish()
}

/// A random number generator holding a 64-bit state word. The state word
/// fully determines all future output.
#[derive(Debug, PartialEq, Eq, Structural)]
pub struct Rng(pub(crate) u64);

impl Default for Rng {
    /// A default generator is one freshly seeded from the entropy source.
    fn default() -> Rng {
        Rng::new()
    }
}

impl Clone for Rng {
    /// Clones the generator by copying its state word: the clone and the
    /// original produce the same draws from here on.
    fn clone(&self) -> (r: Rng)
        ensures
            r@ == self@,
    {
        Rng(self.0)
    }
}

impl View for Rng {
    type V = u64;

    /// The abstract value of a generator is its state word.
    closed spec fn view(&self) -> u64 {
        self.0
    }
}

impl Rng {
    /// Creates a generator seeded from the entropy source: the source's
    /// word, forced odd, seeds a parent that is forked once.
    pub fn new() -> Rng {
        let e = entropy_word();
        let mut base = Rng::with_seed((e << 1) | 1);
        base.fork()
    }

    /// Derives an independent generator seeded with this one's next raw
    /// 64-bit draw, advancing this one's state once.
    pub fn fork(&mut self) -> (r: Rng)
        ensures
            final(self)@ == next_state(old(self)@),
            r@ == draw64(old(self)@),
    {
        let seed = self.gen_u64();
        Rng::with_seed(seed)
    }

    /// Creates a generator whose state word is `seed`.
    pub fn with_seed(seed: u64) -> (r: Rng)
        ensures
            r@ == seed,
    {
        let mut rng = Rng(0);
        rng.seed(seed);
        rng
    }

    /// Resets the state word to `seed`, discarding the old trajectory.
    pub fn seed(&mut self, seed: u64)
        ensures
            final(self)@ == seed,
    {
        self.0 = seed;
    }

    /// Returns the current state word.
    pub fn get_seed(&self) -> (r: u64)
        ensures
            r == self@,
    {
        self.0
    }

    /// Draws the next 64-bit value, advancing the state once.
    pub(crate) fn gen_u64(&mut self) -> (r: u64)
        ensures
            final(self)@ == next_state(old(self)@),
            r == draw64(old(self)@),
    {
        let s = self.0.wrapping_add(STATE_STEP);
        self.0 = s;
        proof {
            assert((s as u128) * ((s ^ STATE_MIX) as u128) < 0x1_0000_0000_0000_0000_0000_0000_0000_0000int)
                by (nonlinear_arith)
                requires
                    s <= 0xFFFF_FFFF_FFFF_FFFFu64,
            ;
        }
        let t = (s as u128) * ((s ^ STATE_MIX) as u128);
        (t as u64) ^ ((t >> 64) as u64)
    }

    /// Draws the next 32-bit value: the 64-bit draw truncated.
    pub(crate) fn gen_u32(&mut self) -> (r: u32)
        ensures
            final(self)@ == next_state(old(self)@),
            r == draw32(old(self)@),
    {
        self.gen_u64() as u32
    }

    /// Draws the next 128-bit value: two 64-bit draws, the first occupying
    /// the high half.
    pub(crate) fn gen_u128(&mut self) -> (r: u128)
        ensures
            final(self)@ == next_state(next_state(old(self)@)),
            r == draw128(old(self)@),
    {
        let high = self.gen_u64();
        let low = self.gen_u64();
        ((high as u128) << 64) | (low as u128)
    }
}

} // verus!
