//! Character draws: fixed ASCII classes, digits in a base, and arbitrary
//! scalar-value ranges that skip the UTF-16 surrogate gap.

use vstd::prelude::*;

use crate::bounds::{Bound, Error};
use crate::model::{sample_32, DRAW_LIMIT};
use crate::rng::Rng;

verus! {

broadcast use vstd::utf8::char_is_scalar, vstd::utf8::char_u32_cast;

/// Relies on `char::from_u32`: `Some` exactly for Unicode scalar values,
/// that is all code points up to 0x10FFFF outside the surrogate range
/// `[0xD800, 0xE000)`, and the character returned has the given value.
pub assume_specification[ std::primitive::char::from_u32 ](v: u32) -> (r: Option<char>)
    ensures
        (r is Some) <==> (v < 0xD800 || (0xE000 <= v && v <= 0x10FFFF)),
        (r matches Some(c) ==> c as u32 == v),
;

/// The alphabetic character at index `i`: the upper-case letters first,
/// then the lower-case ones.
pub open spec fn alpha_char(i: int) -> char
    recommends
        0 <= i < 52,
{
    if i < 26 {
        (0x41 + i) as char
    } else {
        (0x61 + i - 26) as char
    }
}

/// The alphanumeric character at index `i`: upper-case letters, lower-case
/// letters, then the ten digits.
pub open spec fn alnum_char(i: int) -> char
    recommends
        0 <= i < 62,
{
    if i < 26 {
        (0x41 + i) as char
    } else if i < 52 {
        (0x61 + i - 26) as char
    } else {
        (0x30 + i - 52) as char
    }
}

/// The digit character for value `i`: `0`-`9` then `a`-`z`.
pub open spec fn digit_char(i: int) -> char
    recommends
        0 <= i < 36,
{
    if i < 10 {
        (0x30 + i) as char
    } else {
        (0x61 + i - 10) as char
    }
}

/// The resolved low end of a character range: an excluded endpoint at the
/// lower gap edge steps across the gap, and one at the last scalar value
/// leaves the range empty.
pub open spec fn char_low(lo: Bound<char>) -> Option<int> {
    match lo {
        Bound::Unbounded => Some(0int),
        Bound::Included(x) => Some((x as u32) as int),
        Bound::Excluded(x) => if x as u32 == 0xD7FF {
            Some(0xE000int)
        } else if x as u32 == 0x10FFFF {
            None
        } else {
            Some((x as u32) + 1)
        },
    }
}

/// The resolved high end of a character range: an excluded endpoint at the
/// upper gap edge steps across the gap, and one at zero leaves the range
/// empty.
pub open spec fn char_high(hi: Bound<char>) -> Option<int> {
    match hi {
        Bound::Unbounded => Some(0x10FFFFint),
        Bound::Included(x) => Some((x as u32) as int),
        Bound::Excluded(x) => if x as u32 == 0xE000 {
            Some(0xD7FFint)
        } else if x as u32 == 0 {
            None
        } else {
            Some((x as u32) - 1)
        },
    }
}

/// The inclusive scalar-value pair a character range resolves to, or `None`
/// when it holds no character.
pub open spec fn resolved_char(lo: Bound<char>, hi: Bound<char>) -> Option<(int, int)> {
    match (char_low(lo), char_high(hi)) {
        (Some(l), Some(h)) => if l <= h {
            Some((l, h))
        } else {
            None
        },
        _ => None,
    }
}

/// How many code points of `[l, h]` the surrogate gap swallows: its full
/// width when the range straddles it, nothing otherwise.
pub open spec fn gap_width(l: int, h: int) -> int {
    if l < 0xD800 && h >= 0xD800 {
        0x800int
    } else {
        0int
    }
}

/// The scalar value drawn from the resolved range `[l, h]`, and the state
/// after it: a uniform draw over the span without the gap, shifted past the
/// gap when it lands at or beyond the gap's start.
pub open spec fn char_value(s: u64, l: int, h: int) -> (int, u64)
    recommends
        0 <= l <= h <= 0x10FFFF,
{
    let v = sample_32(s, (h - l - gap_width(l, h) + 1) as u32, DRAW_LIMIT as nat);
    let raw = l + v.0;
    let c = if raw >= 0xD800 {
        raw + gap_width(l, h)
    } else {
        raw
    };
    (c, v.1)
}

impl Rng {
    /// Draws a uniform letter: `A`-`Z` or `a`-`z`.
    pub fn alphabetic(&mut self) -> (r: char)
        ensures
            final(self)@ == sample_32(old(self)@, 52, DRAW_LIMIT as nat).1,
            r == alpha_char(sample_32(old(self)@, 52, DRAW_LIMIT as nat).0 as int),
            (0x41 <= r as int <= 0x5A) || (0x61 <= r as int <= 0x7A),
    {
        let i = self.gen_mod_u32(52);
        if i < 26 {
            (0x41u8 + i as u8) as char
        } else {
            (0x61u8 + (i as u8 - 26)) as char
        }
    }

    /// Draws a uniform letter or digit: `A`-`Z`, `a`-`z` or `0`-`9`.
    pub fn alphanumeric(&mut self) -> (r: char)
        ensures
            final(self)@ == sample_32(old(self)@, 62, DRAW_LIMIT as nat).1,
            r == alnum_char(sample_32(old(self)@, 62, DRAW_LIMIT as nat).0 as int),
            (0x41 <= r as int <= 0x5A) || (0x61 <= r as int <= 0x7A) || (0x30 <= r as int
                <= 0x39),
    {
        let i = self.gen_mod_u32(62);
        if i < 26 {
            (0x41u8 + i as u8) as char
        } else if i < 52 {
            (0x61u8 + (i as u8 - 26)) as char
        } else {
            (0x30u8 + (i as u8 - 52)) as char
        }
    }

    /// Draws a uniform lower-case letter: `a`-`z`.
    pub fn lowercase(&mut self) -> (r: char)
        ensures
            final(self)@ == sample_32(old(self)@, 26, DRAW_LIMIT as nat).1,
            r as int == 0x61 + sample_32(old(self)@, 26, DRAW_LIMIT as nat).0,
            0x61 <= r as int <= 0x7A,
    {
        let i = self.gen_mod_u32(26);
        (0x61u8 + i as u8) as char
    }

    /// Draws a uniform upper-case letter: `A`-`Z`.
    pub fn uppercase(&mut self) -> (r: char)
        ensures
            final(self)@ == sample_32(old(self)@, 26, DRAW_LIMIT as nat).1,
            r as int == 0x41 + sample_32(old(self)@, 26, DRAW_LIMIT as nat).0,
            0x41 <= r as int <= 0x5A,
    {
        let i = self.gen_mod_u32(26);
        (0x41u8 + i as u8) as char
    }

    /// Draws a uniform digit of the given base, written `0`-`9` then
    /// `a`-`z`, or reports `InvalidBase` for a base of zero or above 36
    /// without touching the generator.
    pub fn digit(&mut self, base: u32) -> (r: Result<char, Error>)
        ensures
            (r is Err) <==> (base == 0 || base > 36),
            (base == 0 || base > 36) ==> r == Err::<char, Error>(Error::InvalidBase)
                && final(self)@ == old(self)@,
            1 <= base <= 36 ==> ({
                let v = sample_32(old(self)@, base, DRAW_LIMIT as nat);
                r == Ok::<char, Error>(digit_char(v.0 as int)) && final(self)@ == v.1
            }),
            (r matches Ok(c) ==> (0x30 <= c as int <= 0x39) || (0x61 <= c as int <= 0x7A)),
    {
        if base == 0 {
            return Err(Error::InvalidBase);
        }
        if base > 36 {
            return Err(Error::InvalidBase);
        }
        let num = self.gen_mod_u32(base);
        if num < 10 {
            Ok((0x30u8 + num as u8) as char)
        } else {
            Ok((0x61u8 + (num as u8 - 10)) as char)
        }
    }

    /// Draws a uniform character from the given range, never a surrogate
    /// code point, or reports `EmptyRange` without touching the generator.
    pub fn char(&mut self, lo: Bound<char>, hi: Bound<char>) -> (r: Result<char, Error>)
        ensures
            (r is Err) <==> (resolved_char(lo, hi) is None),
            (match resolved_char(lo, hi) {
                None => r == Err::<char, Error>(Error::EmptyRange)
                    && final(self)@ == old(self)@,
                Some(b) => {
                    let v = char_value(old(self)@, b.0, b.1);
                    (r matches Ok(c) && c as u32 == v.0) && final(self)@ == v.1 && ((v.0
                        < 0xD800) || (v.0 >= 0xE000)) && b.0 <= v.0 <= b.1
                },
            }),
    {
        let low: u32 = match lo {
            Bound::Unbounded => 0,
            Bound::Included(x) => {
                proof {
                    vstd::utf8::char_is_scalar(x);
                }
                x as u32
            },
            Bound::Excluded(x) => {
                proof {
                    vstd::utf8::char_is_scalar(x);
                }
                if x as u32 == 0xD7FF {
                    0xE000
                } else if x as u32 == 0x10FFFF {
                    return Err(Error::EmptyRange);
                } else {
                    x as u32 + 1
                }
            },
        };
        let high: u32 = match hi {
            Bound::Unbounded => 0x10FFFF,
            Bound::Included(x) => {
                proof {
                    vstd::utf8::char_is_scalar(x);
                }
                x as u32
            },
            Bound::Excluded(x) => {
                proof {
                    vstd::utf8::char_is_scalar(x);
                }
                if x as u32 == 0xE000 {
                    0xD7FF
                } else if x as u32 == 0 {
                    return Err(Error::EmptyRange);
                } else {
                    x as u32 - 1
                }
            },
        };
        if low > high {
            return Err(Error::EmptyRange);
        }
        proof {
            assert(low < 0xD800 || (0xE000 <= low && low <= 0x10FFFF));
            assert(high < 0xD800 || (0xE000 <= high && high <= 0x10FFFF));
        }
        let gap: u32 = if low < 0xD800 && high >= 0xD800 {
            0x800
        } else {
            0
        };
        let span = high - low - gap;
        let sample = self.gen_mod_u32(span + 1);
        let raw = low + sample;
        let val = if raw >= 0xD800 {
            raw + gap
        } else {
            raw
        };
        match char::from_u32(val) {
            Some(c) => Ok(c),
            None => Err(Error::EmptyRange),
        }
    }
}

} // verus!
