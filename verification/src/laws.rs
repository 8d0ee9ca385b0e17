//! The library's global laws, stated over the generator model.

use vstd::prelude::*;

use crate::model::{draw64, next_state, nth_state};

verus! {

/// The draw a generator makes after `k` earlier draws.
pub open spec fn nth_draw(s: u64, k: nat) -> u64 {
    draw64(nth_state(s, k))
}

/// Determinism: two generators holding the same state word — seeded with
/// the same value, or one cloned from the other — agree on every future
/// draw and on every future state.
pub proof fn lemma_state_determines_trajectory(s: u64, t: u64)
    requires
        s == t,
    ensures
        forall|k: nat| nth_draw(s, k) == nth_draw(t, k),
        forall|k: nat| nth_state(s, k) == nth_state(t, k),
{
}

/// The state step never merges trajectories: distinct state words step to
/// distinct state words.
pub proof fn lemma_state_step_injective(s: u64, t: u64)
    requires
        next_state(s) == next_state(t),
    ensures
        s == t,
{
}

} // verus!
