//! Sizing of the processor's memory arena.
//!
//! The arena is one contiguous region handed to the processor exactly once,
//! at construction; nothing is allocated afterwards. Sizing it to the
//! worst case up front is the real-time safety mechanism: running out of
//! space is a construction-time error, never a runtime one.

use vstd::prelude::*;

verus! {

/// Seconds of delay line the arena must be able to hold.
pub const ARENA_SECONDS: usize = 60;

/// Delay lanes served out of the arena at once.
pub const ARENA_LANES: usize = 4;

/// Headroom factor over the computed worst case.
pub const ARENA_SAFETY: usize = 3;

/// Fastest sample rate the sizing rule covers.
pub const MAX_SAMPLE_RATE: usize = 1000000;

/// Words of storage the processor needs at `sample_rate`: the worst-case
/// delay-line length times the number of lanes, with headroom.
pub fn arena_words(sample_rate: usize) -> (r: usize)
    requires
        sample_rate <= MAX_SAMPLE_RATE,
    ensures
        r == sample_rate * ARENA_LANES * ARENA_SECONDS * ARENA_SAFETY,
{
    sample_rate * ARENA_LANES * ARENA_SECONDS * ARENA_SAFETY
}

} // verus!
