//! The closed set of continuous parameters, their cache slots and their
//! value domains.
//!
//! Every continuous control of the instrument is listed here once; adding a
//! parameter means adding a variant and a domain entry, nothing else.

use vstd::prelude::*;
use crate::value::Domain;

verus! {

/// One of the four tape heads.
#[derive(Clone, Copy, PartialEq, Eq, Structural, Debug)]
pub enum HeadIndex {
    H1,
    H2,
    H3,
    H4,
}

impl HeadIndex {
    /// Position of this head within a per-head slot group.
    pub open spec fn offset(self) -> int {
        match self {
            HeadIndex::H1 => 0,
            HeadIndex::H2 => 1,
            HeadIndex::H3 => 2,
            HeadIndex::H4 => 3,
        }
    }

    /// Position of this head within a per-head slot group.
    pub fn offset_index(self) -> (r: usize)
        ensures
            r as int == self.offset(),
    {
        match self {
            HeadIndex::H1 => 0,
            HeadIndex::H2 => 1,
            HeadIndex::H3 => 2,
            HeadIndex::H4 => 3,
        }
    }
}

/// The head standing at offset `k` of a per-head slot group.
pub open spec fn head_of(k: int) -> HeadIndex {
    if k == 0 {
        HeadIndex::H1
    } else if k == 1 {
        HeadIndex::H2
    } else if k == 2 {
        HeadIndex::H3
    } else {
        HeadIndex::H4
    }
}

/// One of the ten option switches.
#[derive(Clone, Copy, PartialEq, Eq, Structural, Debug)]
pub enum SwitchIndex {
    S1,
    S2,
    S3,
    S4,
    S5,
    S6,
    S7,
    S8,
    S9,
    S10,
}

/// Number of option switches on the instrument.
pub const SWITCH_COUNT: usize = 10;

impl SwitchIndex {
    /// Position of this switch among the stored switch states.
    pub open spec fn offset(self) -> int {
        match self {
            SwitchIndex::S1 => 0,
            SwitchIndex::S2 => 1,
            SwitchIndex::S3 => 2,
            SwitchIndex::S4 => 3,
            SwitchIndex::S5 => 4,
            SwitchIndex::S6 => 5,
            SwitchIndex::S7 => 6,
            SwitchIndex::S8 => 7,
            SwitchIndex::S9 => 8,
            SwitchIndex::S10 => 9,
        }
    }

    /// Position of this switch among the stored switch states.
    pub fn offset_index(self) -> (r: usize)
        ensures
            r as int == self.offset(),
            r < SWITCH_COUNT,
    {
        match self {
            SwitchIndex::S1 => 0,
            SwitchIndex::S2 => 1,
            SwitchIndex::S3 => 2,
            SwitchIndex::S4 => 3,
            SwitchIndex::S5 => 4,
            SwitchIndex::S6 => 5,
            SwitchIndex::S7 => 6,
            SwitchIndex::S8 => 7,
            SwitchIndex::S9 => 8,
            SwitchIndex::S10 => 9,
        }
    }
}

/// One logical continuous parameter of the instrument.
#[derive(Clone, Copy, PartialEq, Eq, Structural, Debug)]
pub enum ParamId {
    PreAmp,
    DryWet,
    Drive,
    Bias,
    WowFlutter,
    Speed,
    Tone,
    HeadPosition(HeadIndex),
    HeadVolume(HeadIndex),
    HeadFeedback(HeadIndex),
    HeadPan(HeadIndex),
}

/// Number of cache slots: seven global parameters and four groups of four
/// per-head parameters.
pub const SLOT_COUNT: usize = 23;

impl ParamId {
    /// The cache slot this parameter occupies.
    pub open spec fn slot(self) -> int {
        match self {
            ParamId::PreAmp => 0,
            ParamId::DryWet => 1,
            ParamId::Drive => 2,
            ParamId::Bias => 3,
            ParamId::WowFlutter => 4,
            ParamId::Speed => 5,
            ParamId::Tone => 6,
            ParamId::HeadPosition(h) => 7 + h.offset(),
            ParamId::HeadVolume(h) => 11 + h.offset(),
            ParamId::HeadFeedback(h) => 15 + h.offset(),
            ParamId::HeadPan(h) => 19 + h.offset(),
        }
    }

    /// The cache slot this parameter occupies.
    pub fn slot_index(self) -> (r: usize)
        ensures
            r as int == self.slot(),
            r < SLOT_COUNT,
    {
        match self {
            ParamId::PreAmp => 0,
            ParamId::DryWet => 1,
            ParamId::Drive => 2,
            ParamId::Bias => 3,
            ParamId::WowFlutter => 4,
            ParamId::Speed => 5,
            ParamId::Tone => 6,
            ParamId::HeadPosition(h) => 7 + h.offset_index(),
            ParamId::HeadVolume(h) => 11 + h.offset_index(),
            ParamId::HeadFeedback(h) => 15 + h.offset_index(),
            ParamId::HeadPan(h) => 19 + h.offset_index(),
        }
    }

    /// Domain table: the range of effective values each parameter may take,
    /// in thousandths of a unit.
    pub open spec fn dom(self) -> Domain {
        match self {
            ParamId::PreAmp => Domain { lo: 0, hi: 2000 },
            ParamId::DryWet => Domain { lo: 0, hi: 1000 },
            ParamId::Drive => Domain { lo: 0, hi: 1000 },
            ParamId::Bias => Domain { lo: 0, hi: 1000 },
            ParamId::WowFlutter => Domain { lo: 0, hi: 1000 },
            ParamId::Speed => Domain { lo: 50, hi: 4000 },
            ParamId::Tone => Domain { lo: 0, hi: 1000 },
            ParamId::HeadPosition(_) => Domain { lo: 0, hi: 1000 },
            ParamId::HeadVolume(_) => Domain { lo: 0, hi: 1000 },
            ParamId::HeadFeedback(_) => Domain { lo: 0, hi: 1000 },
            ParamId::HeadPan(_) => Domain { lo: -1000i32, hi: 1000 },
        }
    }

    /// Domain table: the range of effective values each parameter may take.
    pub fn domain(self) -> (r: Domain)
        ensures
            r == self.dom(),
            r.wf(),
    {
        match self {
            ParamId::PreAmp => Domain { lo: 0, hi: 2000 },
            ParamId::DryWet => Domain { lo: 0, hi: 1000 },
            ParamId::Drive => Domain { lo: 0, hi: 1000 },
            ParamId::Bias => Domain { lo: 0, hi: 1000 },
            ParamId::WowFlutter => Domain { lo: 0, hi: 1000 },
            ParamId::Speed => Domain { lo: 50, hi: 4000 },
            ParamId::Tone => Domain { lo: 0, hi: 1000 },
            ParamId::HeadPosition(_) => Domain { lo: 0, hi: 1000 },
            ParamId::HeadVolume(_) => Domain { lo: 0, hi: 1000 },
            ParamId::HeadFeedback(_) => Domain { lo: 0, hi: 1000 },
            ParamId::HeadPan(_) => Domain { lo: -1000i32, hi: 1000 },
        }
    }
}

/// The parameter that occupies cache slot `i`.
pub open spec fn param_of_slot(i: int) -> ParamId {
    if i <= 0 {
        ParamId::PreAmp
    } else if i == 1 {
        ParamId::DryWet
    } else if i == 2 {
        ParamId::Drive
    } else if i == 3 {
        ParamId::Bias
    } else if i == 4 {
        ParamId::WowFlutter
    } else if i == 5 {
        ParamId::Speed
    } else if i == 6 {
        ParamId::Tone
    } else if i < 11 {
        ParamId::HeadPosition(head_of(i - 7))
    } else if i < 15 {
        ParamId::HeadVolume(head_of(i - 11))
    } else if i < 19 {
        ParamId::HeadFeedback(head_of(i - 15))
    } else {
        ParamId::HeadPan(head_of(i - 19))
    }
}

/// The head standing at offset `k` of a per-head slot group.
pub fn head_at(k: usize) -> (r: HeadIndex)
    ensures
        r == head_of(k as int),
{
    if k == 0 {
        HeadIndex::H1
    } else if k == 1 {
        HeadIndex::H2
    } else if k == 2 {
        HeadIndex::H3
    } else {
        HeadIndex::H4
    }
}

/// The parameter that occupies cache slot `i`.
pub fn slot_param(i: usize) -> (r: ParamId)
    ensures
        r == param_of_slot(i as int),
{
    if i == 0 {
        ParamId::PreAmp
    } else if i == 1 {
        ParamId::DryWet
    } else if i == 2 {
        ParamId::Drive
    } else if i == 3 {
        ParamId::Bias
    } else if i == 4 {
        ParamId::WowFlutter
    } else if i == 5 {
        ParamId::Speed
    } else if i == 6 {
        ParamId::Tone
    } else if i < 11 {
        ParamId::HeadPosition(head_at(i - 7))
    } else if i < 15 {
        ParamId::HeadVolume(head_at(i - 11))
    } else if i < 19 {
        ParamId::HeadFeedback(head_at(i - 15))
    } else {
        ParamId::HeadPan(head_at(i - 19))
    }
}

/// Every parameter sits in a slot of its own: the slot number determines the
/// parameter, so distinct parameters never share a slot.
pub proof fn lemma_slot_roundtrip(id: ParamId)
    ensures
        0 <= id.slot() < SLOT_COUNT as int,
        param_of_slot(id.slot()) == id,
        id.dom().wf(),
{
}

} // verus!
