//! Tick pacing: how long a loop iteration must still wait so that no
//! iteration completes faster than the minimum tick length. This caps the
//! processor time and the message rate of every loop, however its input
//! arrives.

use vstd::prelude::*;

verus! {

/// The suspension owed after an iteration whose work took `elapsed`, when
/// an iteration must last at least `min_tick`. Both are counted in the
/// same unit.
pub open spec fn tick_remainder(min_tick: nat, elapsed: nat) -> nat {
    if elapsed < min_tick {
        (min_tick - elapsed) as nat
    } else {
        0
    }
}

/// An iteration that is done before the minimum tick length has passed is
/// followed by a suspension that fills the tick exactly; one that took the
/// whole tick or longer is followed by none.
pub proof fn lemma_tick_is_filled(min_tick: nat, elapsed: nat)
    ensures
        elapsed < min_tick ==> elapsed + tick_remainder(min_tick, elapsed) == min_tick,
        elapsed >= min_tick ==> tick_remainder(min_tick, elapsed) == 0,
        elapsed + tick_remainder(min_tick, elapsed) >= min_tick,
{
}

/// Computes how long to suspend at the end of an iteration whose work took
/// `elapsed`. A driver that measures `elapsed` rounded down suspends for at
/// least what is left of the tick.
pub fn remaining_tick(min_tick: u64, elapsed: u64) -> (wait: u64)
    ensures
        wait as nat == tick_remainder(min_tick as nat, elapsed as nat),
        elapsed < min_tick ==> wait == min_tick - elapsed,
        elapsed >= min_tick ==> wait == 0,
{
    if elapsed < min_tick {
        min_tick - elapsed
    } else {
        0
    }
}

} // verus!
