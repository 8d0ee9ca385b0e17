//! Range endpoints for bounded draws, and the failure kinds a draw can
//! report.

use vstd::prelude::*;

verus! {

/// One endpoint of a requested range: absent, inclusive, or exclusive.
#[derive(Clone, Copy, Debug)]
pub enum Bound<T> {
    /// No constraint at this end: the type's own extreme applies.
    Unbounded,
    /// The endpoint itself is part of the range.
    Included(T),
    /// Everything strictly beyond the endpoint is part of the range.
    Excluded(T),
}

/// Why a draw was refused. A refused draw never changes the generator.
#[derive(Clone, Copy, Debug, PartialEq, Eq, Structural)]
pub enum Error {
    /// The resolved range holds no value, or adjusting an excluded endpoint
    /// left the type's representable range.
    EmptyRange,
    /// The base passed to a digit draw is zero or exceeds 36.
    InvalidBase,
}

/// Resolves a pair of endpoints over `[min, max]` to the inclusive pair
/// `(low, high)` they describe, or `None` when no value satisfies them:
/// an excluded endpoint steps inward by one, and stepping outside
/// `[min, max]` or crossing the endpoints leaves the range empty.
pub open spec fn resolved(lo: Bound<int>, hi: Bound<int>, min: int, max: int) -> Option<
    (int, int),
> {
    let l = match lo {
        Bound::Unbounded => min,
        Bound::Included(x) => x,
        Bound::Excluded(x) => x + 1,
    };
    let h = match hi {
        Bound::Unbounded => max,
        Bound::Included(x) => x,
        Bound::Excluded(x) => x - 1,
    };
    if l > max || h < min || l > h {
        None
    } else {
        Some((l, h))
    }
}

} // verus!
