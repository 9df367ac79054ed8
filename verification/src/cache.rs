//! The parameter cache: last-known value of every control source, the merged
//! effective value per parameter, and the complete attribute set it stands
//! for.

use vstd::prelude::*;
use crate::param::{ParamId, SLOT_COUNT, SWITCH_COUNT, param_of_slot};
use crate::reaction::DisplayState;
use crate::value::{CV_SPAN, Domain, UNIT, clamp, clamped, scale_pot, scaled};

verus! {

/// Raw sources and merged value of one logical control input.
#[derive(Clone, Copy, PartialEq, Eq, Debug)]
pub struct ControlInput {
    /// Absolute pot position, `0..=UNIT` steps.
    pub pot: i32,
    /// Last control-voltage sample to arrive, a signed offset in steps.
    pub cv: Option<i32>,
    /// Whether the CV jack is patched; an unpatched jack leaves the pot alone.
    pub connected: bool,
    /// Last merged effective value.
    pub effective: i32,
}

/// The merge rule: where the jack is patched and a CV sample has arrived,
/// the scaled pot is offset by the CV and pulled back into the domain;
/// otherwise the scaled pot alone.
pub open spec fn merged(pot: int, cv: Option<i32>, connected: bool, dom: Domain) -> int {
    if connected {
        match cv {
            Some(c) => clamped(scaled(pot, dom) + c, dom.lo as int, dom.hi as int),
            None => scaled(pot, dom),
        }
    } else {
        scaled(pot, dom)
    }
}

/// The merged value never leaves the parameter's domain.
pub proof fn lemma_merged_in_domain(pot: int, cv: Option<i32>, connected: bool, dom: Domain)
    requires
        dom.wf(),
        0 <= pot <= UNIT as int,
    ensures
        dom.lo <= merged(pot, cv, connected, dom) <= dom.hi,
{
    crate::value::lemma_scaled_in_domain(pot, dom);
}

impl ControlInput {
    /// Sources in range, and the stored merged value current: the cache is
    /// never partially updated.
    pub open spec fn wf(self, dom: Domain) -> bool {
        &&& 0 <= self.pot <= UNIT
        &&& (self.cv matches Some(c) ==> -CV_SPAN <= c <= CV_SPAN)
        &&& self.effective == merged(self.pot as int, self.cv, self.connected, dom)
    }
}

/// Rebuild one input from its sources, recomputing the merged value.
pub fn remerge(pot: i32, cv: Option<i32>, connected: bool, dom: Domain) -> (s: ControlInput)
    requires
        dom.wf(),
        0 <= pot <= UNIT,
        cv matches Some(c) ==> -CV_SPAN <= c <= CV_SPAN,
    ensures
        s.pot == pot,
        s.cv == cv,
        s.connected == connected,
        s.effective == merged(pot as int, cv, connected, dom),
        s.wf(dom),
{
    let base = scale_pot(pot, dom);
    let effective = if connected {
        match cv {
            Some(c) => clamp(base + c, dom.lo, dom.hi),
            None => base,
        }
    } else {
        base
    };
    ControlInput { pot, cv, connected, effective }
}

/// Ghost model of the cache: the slot sequence and the discrete states.
pub struct CacheModel {
    pub slots: Seq<ControlInput>,
    pub button: bool,
    pub switches: Seq<bool>,
    pub display: DisplayState,
}

impl CacheModel {
    /// Every slot well formed against its own parameter's domain, and every
    /// sequence of its full fixed length.
    pub open spec fn wf(self) -> bool {
        &&& self.slots.len() == SLOT_COUNT
        &&& forall|i: int|
            0 <= i < SLOT_COUNT ==> (#[trigger] self.slots[i]).wf(param_of_slot(i).dom())
        &&& self.switches.len() == SWITCH_COUNT
    }
}

/// The attribute values a cache model currently stands for: one merged
/// effective value per parameter slot.
pub open spec fn attribute_values(m: CacheModel) -> Seq<i32> {
    Seq::new(SLOT_COUNT as nat, |i: int| m.slots[i].effective)
}

/// Every attribute value of a well-formed cache already lies within its
/// parameter's domain: the processor is never handed an out-of-domain value.
pub proof fn lemma_attributes_in_domain(m: CacheModel, j: int)
    requires
        m.wf(),
        0 <= j < SLOT_COUNT,
    ensures
        param_of_slot(j).dom().lo <= attribute_values(m)[j] <= param_of_slot(j).dom().hi,
{
    let s = m.slots[j];
    crate::param::lemma_slot_roundtrip(param_of_slot(j));
    lemma_merged_in_domain(s.pot as int, s.cv, s.connected, param_of_slot(j).dom());
}

/// The complete, processor-ready configuration. Handing the whole set to the
/// processor on every change, rather than a diff, is deliberate: a full
/// replace cannot leave a stale field behind.
#[derive(Clone, PartialEq, Eq, Debug)]
pub struct AttributeSet {
    /// Merged effective value per parameter slot.
    pub values: Vec<i32>,
    /// The button state.
    pub button: bool,
    /// One state per option switch.
    pub switches: Vec<bool>,
}

impl AttributeSet {
    /// Both sequences of their full fixed length.
    pub open spec fn wf(self) -> bool {
        &&& self.values.len() == SLOT_COUNT
        &&& self.switches.len() == SWITCH_COUNT
    }

    /// This attribute set is exactly what the cache model `m` stands for.
    pub open spec fn of_cache(self, m: CacheModel) -> bool {
        &&& self.values@ == attribute_values(m)
        &&& self.button == m.button
        &&& self.switches@ == m.switches
    }

    /// The effective value of one parameter.
    pub fn value_of(&self, id: ParamId) -> (r: i32)
        requires
            self.wf(),
        ensures
            r == self.values@[id.slot()],
    {
        proof {
            crate::param::lemma_slot_roundtrip(id);
        }
        self.values[id.slot_index()]
    }
}

/// Holds the last-known value of every control input and every derived
/// state; always a fully valid attribute set, never partially constructed.
pub struct ParameterCache {
    /// One slot per continuous parameter.
    pub slots: Vec<ControlInput>,
    /// The button state.
    pub button: bool,
    /// One state per option switch.
    pub switches: Vec<bool>,
    /// The display snapshot of the current chunk.
    pub display: DisplayState,
}

impl View for ParameterCache {
    type V = CacheModel;

    open spec fn view(&self) -> CacheModel {
        CacheModel {
            slots: self.slots@,
            button: self.button,
            switches: self.switches@,
            display: self.display,
        }
    }
}

impl ParameterCache {
    /// A fresh cache: every pot at rest, no CV seen, every jack unpatched,
    /// button and switches off, display dark — and already a fully valid
    /// attribute set.
    pub fn new() -> (c: ParameterCache)
        ensures
            c@.wf(),
            forall|i: int|
                0 <= i < SLOT_COUNT ==> {
                    let s = #[trigger] c@.slots[i];
                    s.pot == 0 && s.cv is None && !s.connected
                },
            !c@.button,
            forall|i: int| 0 <= i < SWITCH_COUNT ==> !(#[trigger] c@.switches[i]),
            c@.display.is_dark(),
    {
        let mut slots: Vec<ControlInput> = Vec::new();
        let mut i: usize = 0;
        while i < SLOT_COUNT
            invariant
                i <= SLOT_COUNT,
                slots.len() == i,
                forall|j: int|
                    0 <= j < i ==> (#[trigger] slots@[j]).wf(param_of_slot(j).dom()),
                forall|j: int|
                    0 <= j < i ==> {
                        let s = #[trigger] slots@[j];
                        s.pot == 0 && s.cv is None && !s.connected
                    },
            decreases SLOT_COUNT - i,
        {
            let id = crate::param::slot_param(i);
            let s = remerge(0, None, false, id.domain());
            proof {
                crate::param::lemma_slot_roundtrip(id);
            }
            slots.push(s);
            i += 1;
        }
        let mut switches: Vec<bool> = Vec::new();
        let mut k: usize = 0;
        while k < SWITCH_COUNT
            invariant
                k <= SWITCH_COUNT,
                switches.len() == k,
                forall|j: int| 0 <= j < k ==> !(#[trigger] switches@[j]),
            decreases SWITCH_COUNT - k,
        {
            switches.push(false);
            k += 1;
        }
        ParameterCache { slots, button: false, switches, display: DisplayState::dark() }
    }

    /// Read the complete attribute set the cache currently stands for.
    pub fn attributes(&self) -> (r: AttributeSet)
        requires
            self@.wf(),
        ensures
            r.wf(),
            r.of_cache(self@),
    {
        let mut values: Vec<i32> = Vec::new();
        let mut i: usize = 0;
        while i < SLOT_COUNT
            invariant
                self@.wf(),
                i <= SLOT_COUNT,
                values.len() == i,
                forall|j: int| 0 <= j < i ==> values@[j] == self@.slots[j].effective,
            decreases SLOT_COUNT - i,
        {
            values.push(self.slots[i].effective);
            i += 1;
        }
        let mut switches: Vec<bool> = Vec::new();
        let mut k: usize = 0;
        while k < SWITCH_COUNT
            invariant
                self@.wf(),
                k <= SWITCH_COUNT,
                switches.len() == k,
                forall|j: int| 0 <= j < k ==> switches@[j] == self@.switches[j],
            decreases SWITCH_COUNT - k,
        {
            switches.push(self.switches[k]);
            k += 1;
        }
        let r = AttributeSet { values, button: self.button, switches };
        proof {
            assert(r.values@ =~= attribute_values(self@));
            assert(r.switches@ =~= self@.switches);
        }
        r
    }

    /// The display snapshot of the current chunk.
    pub fn display(&self) -> (d: DisplayState)
        ensures
            d == self@.display,
    {
        self.display
    }
}

} // verus!
