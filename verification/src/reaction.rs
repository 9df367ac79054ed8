//! Per-block feedback from the processor and the display snapshot broadcast
//! back to the host.

use vstd::prelude::*;
use crate::cache::ParameterCache;
use crate::value::UNIT;

verus! {

/// Number of indicator lamps the instrument drives.
pub const LAMP_COUNT: usize = 8;

/// What the processor reports after one chunk: indicator flags, the impulse
/// lamp and the impulse trigger gate. Produced once per chunk and consumed
/// immediately.
#[derive(Clone, Copy, PartialEq, Eq, Debug)]
pub struct ProcessorReaction {
    /// One flag per indicator lamp.
    pub lamps: [bool; 8],
    /// The impulse lamp.
    pub impulse_led: bool,
    /// The impulse trigger gate.
    pub impulse_trigger: bool,
}

/// The stable display snapshot broadcast to every frame of the current chunk
/// until the next chunk's reaction replaces it.
#[derive(Clone, Copy, PartialEq, Eq, Debug)]
pub struct DisplayState {
    /// One flag per indicator lamp.
    pub lamps: [bool; 8],
    /// The impulse lamp.
    pub impulse_led: bool,
    /// The impulse trigger gate.
    pub impulse_trigger: bool,
}

impl DisplayState {
    /// The display before any reaction arrived: everything dark.
    pub open spec fn is_dark(self) -> bool {
        &&& forall|i: int| 0 <= i < LAMP_COUNT ==> !self.lamps[i]
        &&& !self.impulse_led
        &&& !self.impulse_trigger
    }

    /// The display before any reaction arrived: everything dark.
    pub fn dark() -> (d: DisplayState)
        ensures
            d.is_dark(),
    {
        DisplayState {
            lamps: [false, false, false, false, false, false, false, false],
            impulse_led: false,
            impulse_trigger: false,
        }
    }
}

/// The display snapshot one reaction stands for. No latch duration is part
/// of the instrument's design, so every flag passes straight through.
pub open spec fn display_of(r: ProcessorReaction) -> DisplayState {
    DisplayState { lamps: r.lamps, impulse_led: r.impulse_led, impulse_trigger: r.impulse_trigger }
}

/// Fold one chunk's reaction into the cache and return the display snapshot
/// for that chunk. Never fails; everything but the held display snapshot is
/// left untouched.
pub fn reduce_reaction(reaction: &ProcessorReaction, cache: &mut ParameterCache) -> (d: DisplayState)
    requires
        old(cache)@.wf(),
    ensures
        final(cache)@.wf(),
        d == display_of(*reaction),
        final(cache)@.slots == old(cache)@.slots,
        final(cache)@.button == old(cache)@.button,
        final(cache)@.switches == old(cache)@.switches,
        final(cache)@.display == d,
{
    let d = DisplayState {
        lamps: reaction.lamps,
        impulse_led: reaction.impulse_led,
        impulse_trigger: reaction.impulse_trigger,
    };
    cache.display = d;
    d
}

/// Sample value driven onto an indicator channel for a whole chunk: one unit
/// while the flag is set, zero otherwise.
pub fn indicator_sample(on: bool) -> (r: i32)
    ensures
        r == (if on { UNIT } else { 0i32 }),
{
    if on {
        UNIT
    } else {
        0
    }
}

} // verus!
