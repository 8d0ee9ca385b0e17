//! Bounded integer draws at every width and signedness. Each method resolves
//! its endpoints, refuses an empty range, and otherwise draws uniformly from
//! the resolved range; a full-range request takes one raw draw directly.

use vstd::prelude::*;

use crate::bounds::{resolved, Bound, Error};
use crate::model::{
    draw128, draw32, draw64, next_state, sample_128, sample_32, sample_64, DRAW_LIMIT,
};
use crate::rng::Rng;

verus! {

/// A `u8` endpoint as a mathematical one.
pub open spec fn bound_int_u8(b: Bound<u8>) -> Bound<int> {
    match b {
        Bound::Unbounded => Bound::Unbounded,
        Bound::Included(x) => Bound::Included(x as int),
        Bound::Excluded(x) => Bound::Excluded(x as int),
    }
}

/// An `i8` endpoint as a mathematical one.
pub open spec fn bound_int_i8(b: Bound<i8>) -> Bound<int> {
    match b {
        Bound::Unbounded => Bound::Unbounded,
        Bound::Included(x) => Bound::Included(x as int),
        Bound::Excluded(x) => Bound::Excluded(x as int),
    }
}

/// A `u16` endpoint as a mathematical one.
pub open spec fn bound_int_u16(b: Bound<u16>) -> Bound<int> {
    match b {
        Bound::Unbounded => Bound::Unbounded,
        Bound::Included(x) => Bound::Included(x as int),
        Bound::Excluded(x) => Bound::Excluded(x as int),
    }
}

/// An `i16` endpoint as a mathematical one.
pub open spec fn bound_int_i16(b: Bound<i16>) -> Bound<int> {
    match b {
        Bound::Unbounded => Bound::Unbounded,
        Bound::Included(x) => Bound::Included(x as int),
        Bound::Excluded(x) => Bound::Excluded(x as int),
    }
}

/// A `u32` endpoint as a mathematical one.
pub open spec fn bound_int_u32(b: Bound<u32>) -> Bound<int> {
    match b {
        Bound::Unbounded => Bound::Unbounded,
        Bound::Included(x) => Bound::Included(x as int),
        Bound::Excluded(x) => Bound::Excluded(x as int),
    }
}

/// An `i32` endpoint as a mathematical one.
pub open spec fn bound_int_i32(b: Bound<i32>) -> Bound<int> {
    match b {
        Bound::Unbounded => Bound::Unbounded,
        Bound::Included(x) => Bound::Included(x as int),
        Bound::Excluded(x) => Bound::Excluded(x as int),
    }
}

/// A `u64` endpoint as a mathematical one.
pub open spec fn bound_int_u64(b: Bound<u64>) -> Bound<int> {
    match b {
        Bound::Unbounded => Bound::Unbounded,
        Bound::Included(x) => Bound::Included(x as int),
        Bound::Excluded(x) => Bound::Excluded(x as int),
    }
}

/// An `i64` endpoint as a mathematical one.
pub open spec fn bound_int_i64(b: Bound<i64>) -> Bound<int> {
    match b {
        Bound::Unbounded => Bound::Unbounded,
        Bound::Included(x) => Bound::Included(x as int),
        Bound::Excluded(x) => Bound::Excluded(x as int),
    }
}

/// A `u128` endpoint as a mathematical one.
pub open spec fn bound_int_u128(b: Bound<u128>) -> Bound<int> {
    match b {
        Bound::Unbounded => Bound::Unbounded,
        Bound::Included(x) => Bound::Included(x as int),
        Bound::Excluded(x) => Bound::Excluded(x as int),
    }
}

/// An `i128` endpoint as a mathematical one.
pub open spec fn bound_int_i128(b: Bound<i128>) -> Bound<int> {
    match b {
        Bound::Unbounded => Bound::Unbounded,
        Bound::Included(x) => Bound::Included(x as int),
        Bound::Excluded(x) => Bound::Excluded(x as int),
    }
}

/// A `usize` endpoint as a mathematical one.
pub open spec fn bound_int_usize(b: Bound<usize>) -> Bound<int> {
    match b {
        Bound::Unbounded => Bound::Unbounded,
        Bound::Included(x) => Bound::Included(x as int),
        Bound::Excluded(x) => Bound::Excluded(x as int),
    }
}

/// An `isize` endpoint as a mathematical one.
pub open spec fn bound_int_isize(b: Bound<isize>) -> Bound<int> {
    match b {
        Bound::Unbounded => Bound::Unbounded,
        Bound::Included(x) => Bound::Included(x as int),
        Bound::Excluded(x) => Bound::Excluded(x as int),
    }
}

/// The value drawn from the resolved range `[l, h]` of `u8`, and the state
/// after it.
pub open spec fn ranged_u8(s: u64, l: int, h: int) -> (u8, u64)
    recommends
        0 <= l <= h <= 0xFF,
{
    if l == 0 && h == 0xFF {
        (draw32(s) as u8, next_state(s))
    } else {
        let v = sample_32(s, (h - l + 1) as u32, DRAW_LIMIT as nat);
        (((l + v.0) as u8), v.1)
    }
}

/// The value drawn from the resolved range `[l, h]` of `i8`, and the state
/// after it.
pub open spec fn ranged_i8(s: u64, l: int, h: int) -> (i8, u64)
    recommends
        -0x80 <= l <= h <= 0x7F,
{
    if l == -0x80 && h == 0x7F {
        (draw32(s) as i8, next_state(s))
    } else {
        let v = sample_32(s, (h - l + 1) as u32, DRAW_LIMIT as nat);
        (((l + v.0) as i8), v.1)
    }
}

/// The value drawn from the resolved range `[l, h]` of `u16`, and the state
/// after it.
pub open spec fn ranged_u16(s: u64, l: int, h: int) -> (u16, u64)
    recommends
        0 <= l <= h <= 0xFFFF,
{
    if l == 0 && h == 0xFFFF {
        (draw32(s) as u16, next_state(s))
    } else {
        let v = sample_32(s, (h - l + 1) as u32, DRAW_LIMIT as nat);
        (((l + v.0) as u16), v.1)
    }
}

/// The value drawn from the resolved range `[l, h]` of `i16`, and the state
/// after it.
pub open spec fn ranged_i16(s: u64, l: int, h: int) -> (i16, u64)
    recommends
        -0x8000 <= l <= h <= 0x7FFF,
{
    if l == -0x8000 && h == 0x7FFF {
        (draw32(s) as i16, next_state(s))
    } else {
        let v = sample_32(s, (h - l + 1) as u32, DRAW_LIMIT as nat);
        (((l + v.0) as i16), v.1)
    }
}

/// The value drawn from the resolved range `[l, h]` of `u32`, and the state
/// after it.
pub open spec fn ranged_u32(s: u64, l: int, h: int) -> (u32, u64)
    recommends
        0 <= l <= h <= 0xFFFF_FFFF,
{
    if l == 0 && h == 0xFFFF_FFFF {
        (draw32(s), next_state(s))
    } else {
        let v = sample_32(s, (h - l + 1) as u32, DRAW_LIMIT as nat);
        (((l + v.0) as u32), v.1)
    }
}

/// The value drawn from the resolved range `[l, h]` of `i32`, and the state
/// after it.
pub open spec fn ranged_i32(s: u64, l: int, h: int) -> (i32, u64)
    recommends
        -0x8000_0000 <= l <= h <= 0x7FFF_FFFF,
{
    if l == -0x8000_0000 && h == 0x7FFF_FFFF {
        (draw32(s) as i32, next_state(s))
    } else {
        let v = sample_32(s, (h - l + 1) as u32, DRAW_LIMIT as nat);
        (((l + v.0) as i32), v.1)
    }
}

/// The value drawn from the resolved range `[l, h]` of `u64`, and the state
/// after it.
pub open spec fn ranged_u64(s: u64, l: int, h: int) -> (u64, u64)
    recommends
        0 <= l <= h <= 0xFFFF_FFFF_FFFF_FFFF,
{
    if l == 0 && h == 0xFFFF_FFFF_FFFF_FFFF {
        (draw64(s), next_state(s))
    } else {
        let v = sample_64(s, (h - l + 1) as u64, DRAW_LIMIT as nat);
        (((l + v.0) as u64), v.1)
    }
}

/// The value drawn from the resolved range `[l, h]` of `i64`, and the state
/// after it.
pub open spec fn ranged_i64(s: u64, l: int, h: int) -> (i64, u64)
    recommends
        -0x8000_0000_0000_0000 <= l <= h <= 0x7FFF_FFFF_FFFF_FFFF,
{
    if l == -0x8000_0000_0000_0000 && h == 0x7FFF_FFFF_FFFF_FFFF {
        (draw64(s) as i64, next_state(s))
    } else {
        let v = sample_64(s, (h - l + 1) as u64, DRAW_LIMIT as nat);
        (((l + v.0) as i64), v.1)
    }
}

/// The value drawn from the resolved range `[l, h]` of `u128`, and the state
/// after it.
pub open spec fn ranged_u128(s: u64, l: int, h: int) -> (u128, u64)
    recommends
        0 <= l <= h <= 0xFFFF_FFFF_FFFF_FFFF_FFFF_FFFF_FFFF_FFFFint,
{
    if l == 0 && h == 0xFFFF_FFFF_FFFF_FFFF_FFFF_FFFF_FFFF_FFFFint {
        (draw128(s), next_state(next_state(s)))
    } else {
        let v = sample_128(s, (h - l + 1) as u128, DRAW_LIMIT as nat);
        (((l + v.0) as u128), v.1)
    }
}

/// The value drawn from the resolved range `[l, h]` of `i128`, and the state
/// after it.
pub open spec fn ranged_i128(s: u64, l: int, h: int) -> (i128, u64)
    recommends
        -0x8000_0000_0000_0000_0000_0000_0000_0000int <= l <= h
            <= 0x7FFF_FFFF_FFFF_FFFF_FFFF_FFFF_FFFF_FFFFint,
{
    if l == -0x8000_0000_0000_0000_0000_0000_0000_0000int && h
        == 0x7FFF_FFFF_FFFF_FFFF_FFFF_FFFF_FFFF_FFFFint {
        (draw128(s) as i128, next_state(next_state(s)))
    } else {
        let v = sample_128(s, (h - l + 1) as u128, DRAW_LIMIT as nat);
        (((l + v.0) as i128), v.1)
    }
}

/// The value drawn from the resolved range `[l, h]` of `usize`, and the
/// state after it. Pointer-sized draws run on the 64-bit core.
pub open spec fn ranged_usize(s: u64, l: int, h: int) -> (usize, u64)
    recommends
        0 <= l <= h <= usize::MAX as int,
{
    if l == 0 && h == usize::MAX as int {
        (draw64(s) as usize, next_state(s))
    } else {
        let v = sample_64(s, (h - l + 1) as u64, DRAW_LIMIT as nat);
        (((l + v.0) as usize), v.1)
    }
}

/// The value drawn from the resolved range `[l, h]` of `isize`, and the
/// state after it. Pointer-sized draws run on the 64-bit core.
pub open spec fn ranged_isize(s: u64, l: int, h: int) -> (isize, u64)
    recommends
        isize::MIN as int <= l <= h <= isize::MAX as int,
{
    if l == isize::MIN as int && h == isize::MAX as int {
        (draw64(s) as isize, next_state(s))
    } else {
        let v = sample_64(s, (h - l + 1) as u64, DRAW_LIMIT as nat);
        (((l + v.0) as isize), v.1)
    }
}

impl Rng {
    /// Draws a uniform `u8` from the given range, or reports `EmptyRange`
    /// without touching the generator.
    pub fn u8(&mut self, lo: Bound<u8>, hi: Bound<u8>) -> (r: Result<u8, Error>)
        ensures
            (r is Err) <==> (resolved(bound_int_u8(lo), bound_int_u8(hi), 0, 0xFF) is None),
            (match resolved(bound_int_u8(lo), bound_int_u8(hi), 0, 0xFF) {
                None => r == Err::<u8, Error>(Error::EmptyRange) && final(self)@ == old(self)@,
                Some(b) => {
                    let v = ranged_u8(old(self)@, b.0, b.1);
                    r == Ok::<u8, Error>(v.0) && final(self)@ == v.1 && b.0 <= v.0 <= b.1
                },
            }),
    {
        let low = match lo {
            Bound::Unbounded => 0u8,
            Bound::Included(x) => x,
            Bound::Excluded(x) => match x.checked_add(1) {
                Some(v) => v,
                None => {
                    return Err(Error::EmptyRange);
                },
            },
        };
        let high = match hi {
            Bound::Unbounded => u8::MAX,
            Bound::Included(x) => x,
            Bound::Excluded(x) => match x.checked_sub(1) {
                Some(v) => v,
                None => {
                    return Err(Error::EmptyRange);
                },
            },
        };
        if low > high {
            return Err(Error::EmptyRange);
        }
        if low == 0 && high == u8::MAX {
            return Ok(self.gen_u32() as u8);
        }
        let len = (high - low) + 1;
        let sample = self.gen_mod_u32(len as u32);
        Ok(low + (sample as u8))
    }

    /// Draws a uniform `i8` from the given range, or reports `EmptyRange`
    /// without touching the generator.
    pub fn i8(&mut self, lo: Bound<i8>, hi: Bound<i8>) -> (r: Result<i8, Error>)
        ensures
            (r is Err) <==> (resolved(bound_int_i8(lo), bound_int_i8(hi), -0x80, 0x7F) is None),
            (match resolved(bound_int_i8(lo), bound_int_i8(hi), -0x80, 0x7F) {
                None => r == Err::<i8, Error>(Error::EmptyRange) && final(self)@ == old(self)@,
                Some(b) => {
                    let v = ranged_i8(old(self)@, b.0, b.1);
                    r == Ok::<i8, Error>(v.0) && final(self)@ == v.1 && b.0 <= v.0 <= b.1
                },
            }),
    {
        let low = match lo {
            Bound::Unbounded => i8::MIN,
            Bound::Included(x) => x,
            Bound::Excluded(x) => match x.checked_add(1) {
                Some(v) => v,
                None => {
                    return Err(Error::EmptyRange);
                },
            },
        };
        let high = match hi {
            Bound::Unbounded => i8::MAX,
            Bound::Included(x) => x,
            Bound::Excluded(x) => match x.checked_sub(1) {
                Some(v) => v,
                None => {
                    return Err(Error::EmptyRange);
                },
            },
        };
        if low > high {
            return Err(Error::EmptyRange);
        }
        if low == i8::MIN && high == i8::MAX {
            return Ok(self.gen_u32() as i8);
        }
        let len = ((high as u8).wrapping_sub(low as u8)).wrapping_add(1);
        proof {
            assert(((high as u8).wrapping_sub(low as u8)).wrapping_add(1) == high - low + 1)
                by (bit_vector)
                requires
                    low <= high,
                    high - low < 0xFF,
            ;
        }
        let sample = self.gen_mod_u32(len as u32);
        let out = ((low as u8).wrapping_add(sample as u8)) as i8;
        proof {
            assert(((low as u8).wrapping_add(sample as u8)) as i8 == low + sample)
                by (bit_vector)
                requires
                    sample < 0x100,
                    -0x80 <= low + sample <= 0x7F,
            ;
        }
        Ok(out)
    }

    /// Draws a uniform `u16` from the given range, or reports `EmptyRange`
    /// without touching the generator.
    pub fn u16(&mut self, lo: Bound<u16>, hi: Bound<u16>) -> (r: Result<u16, Error>)
        ensures
            (r is Err) <==> (resolved(bound_int_u16(lo), bound_int_u16(hi), 0, 0xFFFF) is None),
            (match resolved(bound_int_u16(lo), bound_int_u16(hi), 0, 0xFFFF) {
                None => r == Err::<u16, Error>(Error::EmptyRange) && final(self)@ == old(self)@,
                Some(b) => {
                    let v = ranged_u16(old(self)@, b.0, b.1);
                    r == Ok::<u16, Error>(v.0) && final(self)@ == v.1 && b.0 <= v.0 <= b.1
                },
            }),
    {
        let low = match lo {
            Bound::Unbounded => 0u16,
            Bound::Included(x) => x,
            Bound::Excluded(x) => match x.checked_add(1) {
                Some(v) => v,
                None => {
                    return Err(Error::EmptyRange);
                },
            },
        };
        let high = match hi {
            Bound::Unbounded => u16::MAX,
            Bound::Included(x) => x,
            Bound::Excluded(x) => match x.checked_sub(1) {
                Some(v) => v,
                None => {
                    return Err(Error::EmptyRange);
                },
            },
        };
        if low > high {
            return Err(Error::EmptyRange);
        }
        if low == 0 && high == u16::MAX {
            return Ok(self.gen_u32() as u16);
        }
        let len = (high - low) + 1;
        let sample = self.gen_mod_u32(len as u32);
        Ok(low + (sample as u16))
    }

    /// Draws a uniform `i16` from the given range, or reports `EmptyRange`
    /// without touching the generator.
    pub fn i16(&mut self, lo: Bound<i16>, hi: Bound<i16>) -> (r: Result<i16, Error>)
        ensures
            (r is Err) <==> (resolved(bound_int_i16(lo), bound_int_i16(hi), -0x8000, 0x7FFF)
                is None),
            (match resolved(bound_int_i16(lo), bound_int_i16(hi), -0x8000, 0x7FFF) {
                None => r == Err::<i16, Error>(Error::EmptyRange) && final(self)@ == old(self)@,
                Some(b) => {
                    let v = ranged_i16(old(self)@, b.0, b.1);
                    r == Ok::<i16, Error>(v.0) && final(self)@ == v.1 && b.0 <= v.0 <= b.1
                },
            }),
    {
        let low = match lo {
            Bound::Unbounded => i16::MIN,
            Bound::Included(x) => x,
            Bound::Excluded(x) => match x.checked_add(1) {
                Some(v) => v,
                None => {
                    return Err(Error::EmptyRange);
                },
            },
        };
        let high = match hi {
            Bound::Unbounded => i16::MAX,
            Bound::Included(x) => x,
            Bound::Excluded(x) => match x.checked_sub(1) {
                Some(v) => v,
                None => {
                    return Err(Error::EmptyRange);
                },
            },
        };
        if low > high {
            return Err(Error::EmptyRange);
        }
        if low == i16::MIN && high == i16::MAX {
            return Ok(self.gen_u32() as i16);
        }
        let len = ((high as u16).wrapping_sub(low as u16)).wrapping_add(1);
        proof {
            assert(((high as u16).wrapping_sub(low as u16)).wrapping_add(1) == high - low + 1)
                by (bit_vector)
                requires
                    low <= high,
                    high - low < 0xFFFF,
            ;
        }
        let sample = self.gen_mod_u32(len as u32);
        let out = ((low as u16).wrapping_add(sample as u16)) as i16;
        proof {
            assert(((low as u16).wrapping_add(sample as u16)) as i16 == low + sample)
                by (bit_vector)
                requires
                    sample < 0x1_0000,
                    -0x8000 <= low + sample <= 0x7FFF,
            ;
        }
        Ok(out)
    }

    /// Draws a uniform `u32` from the given range, or reports `EmptyRange`
    /// without touching the generator.
    pub fn u32(&mut self, lo: Bound<u32>, hi: Bound<u32>) -> (r: Result<u32, Error>)
        ensures
            (r is Err) <==> (resolved(bound_int_u32(lo), bound_int_u32(hi), 0, 0xFFFF_FFFF)
                is None),
            (match resolved(bound_int_u32(lo), bound_int_u32(hi), 0, 0xFFFF_FFFF) {
                None => r == Err::<u32, Error>(Error::EmptyRange) && final(self)@ == old(self)@,
                Some(b) => {
                    let v = ranged_u32(old(self)@, b.0, b.1);
                    r == Ok::<u32, Error>(v.0) && final(self)@ == v.1 && b.0 <= v.0 <= b.1
                },
            }),
    {
        let low = match lo {
            Bound::Unbounded => 0u32,
            Bound::Included(x) => x,
            Bound::Excluded(x) => match x.checked_add(1) {
                Some(v) => v,
                None => {
                    return Err(Error::EmptyRange);
                },
            },
        };
        let high = match hi {
            Bound::Unbounded => u32::MAX,
            Bound::Included(x) => x,
            Bound::Excluded(x) => match x.checked_sub(1) {
                Some(v) => v,
                None => {
                    return Err(Error::EmptyRange);
                },
            },
        };
        if low > high {
            return Err(Error::EmptyRange);
        }
        if low == 0 && high == u32::MAX {
            return Ok(self.gen_u32());
        }
        let len = (high - low) + 1;
        let sample = self.gen_mod_u32(len);
        Ok(low + sample)
    }

    /// Draws a uniform `i32` from the given range, or reports `EmptyRange`
    /// without touching the generator.
    pub fn i32(&mut self, lo: Bound<i32>, hi: Bound<i32>) -> (r: Result<i32, Error>)
        ensures
            (r is Err) <==> (resolved(
                bound_int_i32(lo),
                bound_int_i32(hi),
                -0x8000_0000,
                0x7FFF_FFFF,
            ) is None),
            (match resolved(bound_int_i32(lo), bound_int_i32(hi), -0x8000_0000, 0x7FFF_FFFF) {
                None => r == Err::<i32, Error>(Error::EmptyRange) && final(self)@ == old(self)@,
                Some(b) => {
                    let v = ranged_i32(old(self)@, b.0, b.1);
                    r == Ok::<i32, Error>(v.0) && final(self)@ == v.1 && b.0 <= v.0 <= b.1
                },
            }),
    {
        let low = match lo {
            Bound::Unbounded => i32::MIN,
            Bound::Included(x) => x,
            Bound::Excluded(x) => match x.checked_add(1) {
                Some(v) => v,
                None => {
                    return Err(Error::EmptyRange);
                },
            },
        };
        let high = match hi {
            Bound::Unbounded => i32::MAX,
            Bound::Included(x) => x,
            Bound::Excluded(x) => match x.checked_sub(1) {
                Some(v) => v,
                None => {
                    return Err(Error::EmptyRange);
                },
            },
        };
        if low > high {
            return Err(Error::EmptyRange);
        }
        if low == i32::MIN && high == i32::MAX {
            return Ok(self.gen_u32() as i32);
        }
        let len = ((high as u32).wrapping_sub(low as u32)).wrapping_add(1);
        proof {
            assert(((high as u32).wrapping_sub(low as u32)).wrapping_add(1) == high - low + 1)
                by (bit_vector)
                requires
                    low <= high,
                    high - low < 0xFFFF_FFFF,
            ;
        }
        let sample = self.gen_mod_u32(len);
        let out = ((low as u32).wrapping_add(sample)) as i32;
        proof {
            assert(((low as u32).wrapping_add(sample)) as i32 == low + sample) by (bit_vector)
                requires
                    -0x8000_0000 <= low + sample <= 0x7FFF_FFFF,
            ;
        }
        Ok(out)
    }

    /// Draws a uniform `u64` from the given range, or reports `EmptyRange`
    /// without touching the generator.
    pub fn u64(&mut self, lo: Bound<u64>, hi: Bound<u64>) -> (r: Result<u64, Error>)
        ensures
            (r is Err) <==> (resolved(
                bound_int_u64(lo),
                bound_int_u64(hi),
                0,
                0xFFFF_FFFF_FFFF_FFFF,
            ) is None),
            (match resolved(bound_int_u64(lo), bound_int_u64(hi), 0, 0xFFFF_FFFF_FFFF_FFFF) {
                None => r == Err::<u64, Error>(Error::EmptyRange) && final(self)@ == old(self)@,
                Some(b) => {
                    let v = ranged_u64(old(self)@, b.0, b.1);
                    r == Ok::<u64, Error>(v.0) && final(self)@ == v.1 && b.0 <= v.0 <= b.1
                },
            }),
    {
        let low = match lo {
            Bound::Unbounded => 0u64,
            Bound::Included(x) => x,
            Bound::Excluded(x) => match x.checked_add(1) {
                Some(v) => v,
                None => {
                    return Err(Error::EmptyRange);
                },
            },
        };
        let high = match hi {
            Bound::Unbounded => u64::MAX,
            Bound::Included(x) => x,
            Bound::Excluded(x) => match x.checked_sub(1) {
                Some(v) => v,
                None => {
                    return Err(Error::EmptyRange);
                },
            },
        };
        if low > high {
            return Err(Error::EmptyRange);
        }
        if low == 0 && high == u64::MAX {
            return Ok(self.gen_u64());
        }
        let len = (high - low) + 1;
        let sample = self.gen_mod_u64(len);
        Ok(low + sample)
    }

    /// Draws a uniform `i64` from the given range, or reports `EmptyRange`
    /// without touching the generator.
    pub fn i64(&mut self, lo: Bound<i64>, hi: Bound<i64>) -> (r: Result<i64, Error>)
        ensures
            (r is Err) <==> (resolved(
                bound_int_i64(lo),
                bound_int_i64(hi),
                -0x8000_0000_0000_0000,
                0x7FFF_FFFF_FFFF_FFFF,
            ) is None),
            (match resolved(
                bound_int_i64(lo),
                bound_int_i64(hi),
                -0x8000_0000_0000_0000,
                0x7FFF_FFFF_FFFF_FFFF,
            ) {
                None => r == Err::<i64, Error>(Error::EmptyRange) && final(self)@ == old(self)@,
                Some(b) => {
                    let v = ranged_i64(old(self)@, b.0, b.1);
                    r == Ok::<i64, Error>(v.0) && final(self)@ == v.1 && b.0 <= v.0 <= b.1
                },
            }),
    {
        let low = match lo {
            Bound::Unbounded => i64::MIN,
            Bound::Included(x) => x,
            Bound::Excluded(x) => match x.checked_add(1) {
                Some(v) => v,
                None => {
                    return Err(Error::EmptyRange);
                },
            },
        };
        let high = match hi {
            Bound::Unbounded => i64::MAX,
            Bound::Included(x) => x,
            Bound::Excluded(x) => match x.checked_sub(1) {
                Some(v) => v,
                None => {
                    return Err(Error::EmptyRange);
                },
            },
        };
        if low > high {
            return Err(Error::EmptyRange);
        }
        if low == i64::MIN && high == i64::MAX {
            return Ok(self.gen_u64() as i64);
        }
        let len = ((high as u64).wrapping_sub(low as u64)).wrapping_add(1);
        proof {
            assert(((high as u64).wrapping_sub(low as u64)).wrapping_add(1) == high - low + 1)
                by (bit_vector)
                requires
                    low <= high,
                    high - low < 0xFFFF_FFFF_FFFF_FFFF,
            ;
        }
        let sample = self.gen_mod_u64(len);
        let out = ((low as u64).wrapping_add(sample)) as i64;
        proof {
            assert(((low as u64).wrapping_add(sample)) as i64 == low + sample) by (bit_vector)
                requires
                    -0x8000_0000_0000_0000 <= low + sample <= 0x7FFF_FFFF_FFFF_FFFF,
            ;
        }
        Ok(out)
    }

    /// Draws a uniform `u128` from the given range, or reports `EmptyRange`
    /// without touching the generator.
    pub fn u128(&mut self, lo: Bound<u128>, hi: Bound<u128>) -> (r: Result<u128, Error>)
        ensures
            (r is Err) <==> (resolved(
                bound_int_u128(lo),
                bound_int_u128(hi),
                0,
                0xFFFF_FFFF_FFFF_FFFF_FFFF_FFFF_FFFF_FFFFint,
            ) is None),
            (match resolved(
                bound_int_u128(lo),
                bound_int_u128(hi),
                0,
                0xFFFF_FFFF_FFFF_FFFF_FFFF_FFFF_FFFF_FFFFint,
            ) {
                None => r == Err::<u128, Error>(Error::EmptyRange) && final(self)@ == old(self)@,
                Some(b) => {
                    let v = ranged_u128(old(self)@, b.0, b.1);
                    r == Ok::<u128, Error>(v.0) && final(self)@ == v.1 && b.0 <= v.0 <= b.1
                },
            }),
    {
        let low = match lo {
            Bound::Unbounded => 0u128,
            Bound::Included(x) => x,
            Bound::Excluded(x) => match x.checked_add(1) {
                Some(v) => v,
                None => {
                    return Err(Error::EmptyRange);
                },
            },
        };
        let high = match hi {
            Bound::Unbounded => u128::MAX,
            Bound::Included(x) => x,
            Bound::Excluded(x) => match x.checked_sub(1) {
                Some(v) => v,
                None => {
                    return Err(Error::EmptyRange);
                },
            },
        };
        if low > high {
            return Err(Error::EmptyRange);
        }
        if low == 0 && high == u128::MAX {
            return Ok(self.gen_u128());
        }
        let len = (high - low) + 1;
        let sample = self.gen_mod_u128(len);
        Ok(low + sample)
    }

    /// Draws a uniform `i128` from the given range, or reports `EmptyRange`
    /// without touching the generator.
    pub fn i128(&mut self, lo: Bound<i128>, hi: Bound<i128>) -> (r: Result<i128, Error>)
        ensures
            (r is Err) <==> (resolved(
                bound_int_i128(lo),
                bound_int_i128(hi),
                -0x8000_0000_0000_0000_0000_0000_0000_0000int,
                0x7FFF_FFFF_FFFF_FFFF_FFFF_FFFF_FFFF_FFFFint,
            ) is None),
            (match resolved(
                bound_int_i128(lo),
                bound_int_i128(hi),
                -0x8000_0000_0000_0000_0000_0000_0000_0000int,
                0x7FFF_FFFF_FFFF_FFFF_FFFF_FFFF_FFFF_FFFFint,
            ) {
                None => r == Err::<i128, Error>(Error::EmptyRange) && final(self)@ == old(self)@,
                Some(b) => {
                    let v = ranged_i128(old(self)@, b.0, b.1);
                    r == Ok::<i128, Error>(v.0) && final(self)@ == v.1 && b.0 <= v.0 <= b.1
                },
            }),
    {
        let low = match lo {
            Bound::Unbounded => i128::MIN,
            Bound::Included(x) => x,
            Bound::Excluded(x) => match x.checked_add(1) {
                Some(v) => v,
                None => {
                    return Err(Error::EmptyRange);
                },
            },
        };
        let high = match hi {
            Bound::Unbounded => i128::MAX,
            Bound::Included(x) => x,
            Bound::Excluded(x) => match x.checked_sub(1) {
                Some(v) => v,
                None => {
                    return Err(Error::EmptyRange);
                },
            },
        };
        if low > high {
            return Err(Error::EmptyRange);
        }
        if low == i128::MIN && high == i128::MAX {
            return Ok(self.gen_u128() as i128);
        }
        let len = ((high as u128).wrapping_sub(low as u128)).wrapping_add(1);
        proof {
            assert(((high as u128).wrapping_sub(low as u128)).wrapping_add(1) == high - low + 1)
                by (bit_vector)
                requires
                    low <= high,
                    high - low < 0xFFFF_FFFF_FFFF_FFFF_FFFF_FFFF_FFFF_FFFFint,
            ;
        }
        let sample = self.gen_mod_u128(len);
        let out = ((low as u128).wrapping_add(sample)) as i128;
        proof {
            assert(((low as u128).wrapping_add(sample)) as i128 == low + sample) by (bit_vector)
                requires
                    -0x8000_0000_0000_0000_0000_0000_0000_0000int <= low + sample
                        <= 0x7FFF_FFFF_FFFF_FFFF_FFFF_FFFF_FFFF_FFFFint,
            ;
        }
        Ok(out)
    }

    /// Draws a uniform `usize` from the given range, or reports `EmptyRange`
    /// without touching the generator. Pointer-sized draws run on the 64-bit
    /// core.
    pub fn usize(&mut self, lo: Bound<usize>, hi: Bound<usize>) -> (r: Result<usize, Error>)
        ensures
            (r is Err) <==> (resolved(
                bound_int_usize(lo),
                bound_int_usize(hi),
                0,
                usize::MAX as int,
            ) is None),
            (match resolved(bound_int_usize(lo), bound_int_usize(hi), 0, usize::MAX as int) {
                None => r == Err::<usize, Error>(Error::EmptyRange) && final(self)@ == old(
                    self,
                )@,
                Some(b) => {
                    let v = ranged_usize(old(self)@, b.0, b.1);
                    r == Ok::<usize, Error>(v.0) && final(self)@ == v.1 && b.0 <= v.0 <= b.1
                },
            }),
    {
        let low = match lo {
            Bound::Unbounded => 0usize,
            Bound::Included(x) => x,
            Bound::Excluded(x) => match x.checked_add(1) {
                Some(v) => v,
                None => {
                    return Err(Error::EmptyRange);
                },
            },
        };
        let high = match hi {
            Bound::Unbounded => usize::MAX,
            Bound::Included(x) => x,
            Bound::Excluded(x) => match x.checked_sub(1) {
                Some(v) => v,
                None => {
                    return Err(Error::EmptyRange);
                },
            },
        };
        if low > high {
            return Err(Error::EmptyRange);
        }
        if low == 0 && high == usize::MAX {
            return Ok(self.gen_u64() as usize);
        }
        let len = (high - low) + 1;
        let sample = self.gen_mod_u64(len as u64);
        Ok(low + (sample as usize))
    }

    /// Draws a uniform `isize` from the given range, or reports `EmptyRange`
    /// without touching the generator. Pointer-sized draws run on the 64-bit
    /// core.
    pub fn isize(&mut self, lo: Bound<isize>, hi: Bound<isize>) -> (r: Result<isize, Error>)
        ensures
            (r is Err) <==> (resolved(
                bound_int_isize(lo),
                bound_int_isize(hi),
                isize::MIN as int,
                isize::MAX as int,
            ) is None),
            (match resolved(
                bound_int_isize(lo),
                bound_int_isize(hi),
                isize::MIN as int,
                isize::MAX as int,
            ) {
                None => r == Err::<isize, Error>(Error::EmptyRange) && final(self)@ == old(
                    self,
                )@,
                Some(b) => {
                    let v = ranged_isize(old(self)@, b.0, b.1);
                    r == Ok::<isize, Error>(v.0) && final(self)@ == v.1 && b.0 <= v.0 <= b.1
                },
            }),
    {
        let low = match lo {
            Bound::Unbounded => isize::MIN,
            Bound::Included(x) => x,
            Bound::Excluded(x) => match x.checked_add(1) {
                Some(v) => v,
                None => {
                    return Err(Error::EmptyRange);
                },
            },
        };
        let high = match hi {
            Bound::Unbounded => isize::MAX,
            Bound::Included(x) => x,
            Bound::Excluded(x) => match x.checked_sub(1) {
                Some(v) => v,
                None => {
                    return Err(Error::EmptyRange);
                },
            },
        };
        if low > high {
            return Err(Error::EmptyRange);
        }
        if low == isize::MIN && high == isize::MAX {
            return Ok(self.gen_u64() as isize);
        }
        let low64 = low as i64;
        let high64 = high as i64;
        let len = ((high64 as u64).wrapping_sub(low64 as u64)).wrapping_add(1);
        proof {
            assert(((high64 as u64).wrapping_sub(low64 as u64)).wrapping_add(1) == high64
                - low64 + 1) by (bit_vector)
                requires
                    low64 <= high64,
                    high64 - low64 < 0xFFFF_FFFF_FFFF_FFFF,
            ;
        }
        let sample = self.gen_mod_u64(len);
        let out64 = ((low64 as u64).wrapping_add(sample)) as i64;
        proof {
            assert(((low64 as u64).wrapping_add(sample)) as i64 == low64 + sample)
                by (bit_vector)
                requires
                    -0x8000_0000_0000_0000 <= low64 + sample <= 0x7FFF_FFFF_FFFF_FFFF,
            ;
        }
        Ok(out64 as isize)
    }

    /// Draws a random boolean: the parity of one truncated raw draw.
    pub fn bool(&mut self) -> (r: bool)
        ensures
            final(self)@ == next_state(old(self)@),
            r == ((draw32(old(self)@) as u8) % 2 == 0),
    {
        (self.gen_u32() as u8) % 2 == 0
    }
}

} // verus!
