//! Draws over sequences: in-place shuffling, bulk byte fill, and selection
//! of one or several elements.

use vstd::prelude::*;

use vstd::seq_lib::group_to_multiset_ensures;
use vstd::seq_lib::to_multiset_update;

use crate::model::{draw64, lemma_nth_state_one_more, nth_state, sample_64, DRAW_LIMIT};
use crate::rng::Rng;

verus! {

broadcast use vstd::seq::group_seq_axioms;

/// The position a Fisher-Yates step at `i` swaps with: the bounded draw,
/// which always lies in `[0, i]`.
pub open spec fn swap_pos(s: u64, i: int) -> int {
    let v = sample_64(s, (i + 1) as u64, DRAW_LIMIT as nat);
    if v.0 <= i {
        v.0 as int
    } else {
        i
    }
}

/// The sequence and state after running Fisher-Yates steps from position
/// `i` up to the end of the sequence: each step draws `j` uniformly from
/// `[0, i]` and swaps the elements at `i` and `j`.
pub open spec fn shuffled_from<T>(s: u64, q: Seq<T>, i: int) -> (Seq<T>, u64)
    decreases q.len() - i,
{
    if i < 1 || i >= q.len() {
        (q, s)
    } else {
        let v = sample_64(s, (i + 1) as u64, DRAW_LIMIT as nat);
        let j = swap_pos(s, i);
        shuffled_from(v.1, q.update(i, q[j]).update(j, q[i]), i + 1)
    }
}

/// Swapping two elements of a sequence keeps its multiset of elements.
proof fn lemma_swap_keeps_multiset<T>(q: Seq<T>, i: int, j: int)
    requires
        0 <= i < q.len(),
        0 <= j < q.len(),
    ensures
        q.update(i, q[j]).update(j, q[i]).to_multiset() == q.to_multiset(),
{
    broadcast use group_to_multiset_ensures, to_multiset_update;

    let q1 = q.update(i, q[j]);
    assert(q.to_multiset().count(q[i]) > 0);
    assert(q1.to_multiset().count(q[j]) > 0);
    assert(q1.update(j, q[i]).to_multiset() =~= q.to_multiset());
}

/// Every Fisher-Yates run keeps the multiset of elements.
proof fn lemma_shuffled_keeps_multiset<T>(s: u64, q: Seq<T>, i: int)
    requires
        q.len() <= 0xFFFF_FFFF_FFFF_FFFF,
    ensures
        shuffled_from(s, q, i).0.to_multiset() == q.to_multiset(),
    decreases q.len() - i,
{
    if i < 1 || i >= q.len() {
    } else {
        let v = sample_64(s, (i + 1) as u64, DRAW_LIMIT as nat);
        let j = swap_pos(s, i);
        lemma_swap_keeps_multiset(q, i, j);
        lemma_shuffled_keeps_multiset(v.1, q.update(i, q[j]).update(j, q[i]), i + 1);
    }
}

/// Whether `m` maps each position of `out` to its own source position in
/// `q`: selection without replacement.
pub open spec fn valid_pick_map<T>(out: Seq<T>, q: Seq<T>, m: Seq<int>) -> bool {
    &&& m.len() == out.len()
    &&& forall|p: int| 0 <= p < m.len() ==> 0 <= #[trigger] m[p] < q.len() && out[p] == q[m[p]]
    &&& forall|p: int, t: int| 0 <= p < t < m.len() ==> m[p] != m[t]
}

/// Whether every element of `out` was taken from a distinct position of
/// `q`.
pub open spec fn drawn_without_replacement<T>(out: Seq<T>, q: Seq<T>) -> bool {
    exists|m: Seq<int>| #[trigger] valid_pick_map(out, q, m)
}

/// One reservoir step at source position `i`: draw `j` uniformly from
/// `[0, i]` and replace slot `j` of the reservoir when it exists.
pub open spec fn reservoir_step<T>(s: u64, q: Seq<T>, out: Seq<T>, i: int) -> (Seq<T>, u64)
    recommends
        0 <= i < q.len(),
{
    let v = sample_64(s, (i + 1) as u64, DRAW_LIMIT as nat);
    let j = v.0 as int;
    if j < out.len() {
        (out.update(j, q[i]), v.1)
    } else {
        (out, v.1)
    }
}

/// The reservoir and state after running reservoir steps from source
/// position `i` up to the end of the source.
pub open spec fn reservoir_from<T>(s: u64, q: Seq<T>, out: Seq<T>, i: int) -> (Seq<T>, u64)
    decreases q.len() - i,
{
    if i < 0 || i >= q.len() {
        (out, s)
    } else {
        let st = reservoir_step(s, q, out, i);
        reservoir_from(st.1, q, st.0, i + 1)
    }
}

/// The byte the fill operation writes at position `p`: byte `p % 8` of the
/// draw numbered `p / 8`, low byte first.
pub open spec fn fill_byte(s: u64, p: int) -> u8 {
    (draw64(nth_state(s, (p / 8) as nat)) >> ((8 * (p % 8)) as u64)) as u8
}

/// A value shifted right by nothing is itself.
proof fn lemma_shr_zero(w: u64)
    by (bit_vector)
    ensures
        w >> 0u64 == w,
{
}

impl Rng {
    /// Shuffles the elements in place by Fisher-Yates: each position from 1
    /// upward is swapped with a uniformly drawn position at or below it.
    /// The elements are kept, only rearranged, and a sequence of length 0
    /// or 1 is left unchanged.
    pub fn shuffle<T: Copy>(&mut self, v: &mut Vec<T>)
        ensures
            final(v)@ == shuffled_from(old(self)@, old(v)@, 1).0,
            final(self)@ == shuffled_from(old(self)@, old(v)@, 1).1,
            final(v)@.to_multiset() == old(v)@.to_multiset(),
            final(v)@.len() == old(v)@.len(),
            old(v)@.len() <= 1 ==> final(v)@ == old(v)@ && final(self)@ == old(self)@,
    {
        let len = v.len();
        let mut i: usize = 1;
        while i < len
            invariant
                1 <= i,
                i <= len || len <= 1,
                len == v@.len(),
                shuffled_from(old(self)@, old(v)@, 1) == shuffled_from(self@, v@, i as int),
            decreases len - i,
        {
            let j = self.gen_mod_u64((i as u64) + 1) as usize;
            let a = v[i];
            let b = v[j];
            v[i] = b;
            v[j] = a;
            i = i + 1;
        }
        proof {
            lemma_shuffled_keeps_multiset(old(self)@, old(v)@, 1);
        }
    }

    /// Overwrites every byte of the buffer with random data, eight bytes
    /// per draw, low byte first; a final shorter block takes the low bytes
    /// of one more draw.
    pub fn fill(&mut self, v: &mut Vec<u8>)
        ensures
            final(v)@.len() == old(v)@.len(),
            forall|p: int| 0 <= p < old(v)@.len() ==> final(v)@[p] == fill_byte(old(self)@, p),
            final(self)@ == nth_state(old(self)@, ((old(v)@.len() + 7) / 8) as nat),
    {
        let len = v.len();
        let mut off: usize = 0;
        while off < len
            invariant
                off % 8 == 0 || off == len,
                off <= len,
                len == v@.len(),
                self@ == nth_state(old(self)@, ((off + 7) / 8) as nat),
                forall|p: int|
                    0 <= p < len && p < off ==> v@[p] == fill_byte(old(self)@, p),
            decreases len - off,
        {
            proof {
                lemma_nth_state_one_more(old(self)@, (off / 8) as nat);
            }
            let w = self.gen_u64();
            proof {
                lemma_shr_zero(w);
            }
            let mut t: usize = 0;
            while t < 8 && t < len - off
                invariant
                    t <= 8,
                    off < len,
                    off % 8 == 0,
                    len == v@.len(),
                    w == draw64(nth_state(old(self)@, (off / 8) as nat)),
                    self@ == nth_state(old(self)@, (off / 8 + 1) as nat),
                    forall|p: int|
                        0 <= p < len && p < off + t ==> v@[p] == fill_byte(old(self)@, p),
                decreases 8 - t,
            {
                v[off + t] = (w >> ((8 * t) as u64)) as u8;
                t = t + 1;
            }
            if len - off >= 8 {
                off = off + 8;
            } else {
                off = len;
            }
        }
    }

    /// Picks one element uniformly, or nothing from an empty sequence,
    /// which leaves the generator untouched.
    pub fn choice<T: Copy>(&mut self, v: &Vec<T>) -> (r: Option<T>)
        ensures
            (r is Some) <==> v@.len() >= 1,
            v@.len() == 0 ==> final(self)@ == old(self)@,
            v@.len() >= 1 ==> ({
                let s = sample_64(old(self)@, v@.len() as u64, DRAW_LIMIT as nat);
                r == Some(v@[s.0 as int]) && final(self)@ == s.1
            }),
    {
        if v.len() == 0 {
            return None;
        }
        let i = self.gen_mod_u64(v.len() as u64);
        Some(v[i as usize])
    }

    /// Picks `k` elements without replacement by reservoir sampling, or all
    /// of them when the sequence holds fewer, in no guaranteed order.
    pub fn choose_multiple<T: Copy>(&mut self, v: &Vec<T>, k: usize) -> (r: Vec<T>)
        ensures
            r@.len() == (if k <= v@.len() {
                k as int
            } else {
                v@.len() as int
            }),
            drawn_without_replacement(r@, v@),
            k >= v@.len() ==> r@ == v@ && final(self)@ == old(self)@,
            k < v@.len() ==> r@ == reservoir_from(
                old(self)@,
                v@,
                v@.subrange(0, k as int),
                k as int,
            ).0 && final(self)@ == reservoir_from(
                old(self)@,
                v@,
                v@.subrange(0, k as int),
                k as int,
            ).1,
    {
        let len = v.len();
        let take = if k < len {
            k
        } else {
            len
        };
        let mut out: Vec<T> = Vec::new();
        let mut idx: usize = 0;
        while idx < take
            invariant
                idx <= take,
                take <= len,
                len == v@.len(),
                out@ == v@.subrange(0, idx as int),
            decreases take - idx,
        {
            out.push(v[idx]);
            proof {
                assert(out@ =~= v@.subrange(0, idx + 1));
            }
            idx = idx + 1;
        }
        let ghost ident = Seq::new(take as nat, |p: int| p);
        proof {
            assert(valid_pick_map(out@, v@, ident));
        }
        if k >= len {
            proof {
                assert(out@ =~= v@);
            }
            return out;
        }
        let mut i: usize = k;
        let ghost mut m = ident;
        while i < len
            invariant
                k <= i <= len,
                len == v@.len(),
                out@.len() == k as int,
                valid_pick_map(out@, v@, m),
                forall|p: int| 0 <= p < m.len() ==> #[trigger] m[p] < i as int,
                reservoir_from(old(self)@, v@, v@.subrange(0, k as int), k as int)
                    == reservoir_from(self@, v@, out@, i as int),
            decreases len - i,
        {
            let ghost pre = self@;
            let ghost out_pre = out@;
            let j = self.gen_mod_u64((i as u64) + 1);
            if (j as usize) < k {
                out[j as usize] = v[i];
                proof {
                    m = m.update(j as int, i as int);
                }
            }
            proof {
                assert(reservoir_from(pre, v@, out_pre, i as int) == reservoir_from(
                    self@,
                    v@,
                    out@,
                    i + 1,
                ));
            }
            i = i + 1;
        }
        proof {
            assert(valid_pick_map(out@, v@, m));
        }
        out
    }
}

} // verus!
