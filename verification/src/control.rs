//! The control reducer: one discrete host event in, the complete
//! processor-ready attribute set out.

use vstd::prelude::*;
use crate::cache::{
    AttributeSet, CacheModel, ControlInput, ParameterCache, attribute_values,
    lemma_merged_in_domain, merged, remerge,
};
use crate::param::{ParamId, SLOT_COUNT, SwitchIndex, lemma_slot_roundtrip, param_of_slot};
use crate::value::{CV_SPAN, Domain, UNIT, clamp, clamped};

verus! {

/// One discrete control event, one variant per settable input. Raw values
/// arrive in fixed-point steps; switch-like inputs are thresholded to a
/// boolean at the host boundary, never here.
#[derive(Clone, Copy, PartialEq, Eq, Debug)]
pub enum ControlAction {
    /// The pot of a parameter moved to a new absolute position.
    SetPot(ParamId, i32),
    /// A CV sample arrived for a parameter.
    SetCv(ParamId, i32),
    /// A parameter's CV jack was patched or unpatched.
    SetConnected(ParamId, bool),
    /// The button was pressed or released.
    SetButton(bool),
    /// An option switch was flipped.
    SetSwitch(SwitchIndex, bool),
}

/// The cache slot an action addresses, if it addresses one.
pub open spec fn target_slot(a: ControlAction) -> Option<int> {
    match a {
        ControlAction::SetPot(id, _) => Some(id.slot()),
        ControlAction::SetCv(id, _) => Some(id.slot()),
        ControlAction::SetConnected(id, _) => Some(id.slot()),
        ControlAction::SetButton(_) => None,
        ControlAction::SetSwitch(_, _) => None,
    }
}

/// The slot an action leaves behind: the addressed source replaced — raw pot
/// and CV values pulled into their ranges first — and the merged value
/// recomputed. Nothing else of the slot changes.
pub open spec fn slot_after(a: ControlAction, s: ControlInput, dom: Domain) -> ControlInput {
    match a {
        ControlAction::SetPot(_, raw) => {
            let pot = clamped(raw as int, 0, UNIT as int) as i32;
            ControlInput {
                pot,
                cv: s.cv,
                connected: s.connected,
                effective: merged(pot as int, s.cv, s.connected, dom) as i32,
            }
        },
        ControlAction::SetCv(_, raw) => {
            let cv = Some(clamped(raw as int, -(CV_SPAN as int), CV_SPAN as int) as i32);
            ControlInput {
                pot: s.pot,
                cv,
                connected: s.connected,
                effective: merged(s.pot as int, cv, s.connected, dom) as i32,
            }
        },
        ControlAction::SetConnected(_, on) => ControlInput {
            pot: s.pot,
            cv: s.cv,
            connected: on,
            effective: merged(s.pot as int, s.cv, on, dom) as i32,
        },
        _ => s,
    }
}

/// The model with the slot of `id` replaced by what `a` makes of it.
pub open spec fn with_updated_slot(m: CacheModel, id: ParamId, a: ControlAction) -> CacheModel {
    CacheModel {
        slots: m.slots.update(id.slot(), slot_after(a, m.slots[id.slot()], id.dom())),
        ..m
    }
}

/// What one action does to the cache: exactly the addressed slot, the button
/// or the addressed switch is replaced; every other part is kept.
pub open spec fn cache_after(a: ControlAction, m: CacheModel) -> CacheModel {
    match a {
        ControlAction::SetPot(id, _) => with_updated_slot(m, id, a),
        ControlAction::SetCv(id, _) => with_updated_slot(m, id, a),
        ControlAction::SetConnected(id, _) => with_updated_slot(m, id, a),
        ControlAction::SetButton(on) => CacheModel { button: on, ..m },
        ControlAction::SetSwitch(w, on) => CacheModel {
            switches: m.switches.update(w.offset(), on),
            ..m
        },
    }
}

/// Every action takes a well-formed cache to a well-formed cache: the
/// reducer can never leave a partially valid attribute set behind.
pub proof fn lemma_cache_after_wf(a: ControlAction, m: CacheModel)
    requires
        m.wf(),
    ensures
        cache_after(a, m).wf(),
{
    match a {
        ControlAction::SetPot(id, _) => lemma_updated_slot_wf(a, id, m),
        ControlAction::SetCv(id, _) => lemma_updated_slot_wf(a, id, m),
        ControlAction::SetConnected(id, _) => lemma_updated_slot_wf(a, id, m),
        ControlAction::SetButton(_) => {},
        ControlAction::SetSwitch(_, _) => {},
    }
}

/// Replacing one slot by what an action makes of it preserves
/// well-formedness of the whole cache.
proof fn lemma_updated_slot_wf(a: ControlAction, id: ParamId, m: CacheModel)
    requires
        m.wf(),
        target_slot(a) == Some(id.slot()),
    ensures
        with_updated_slot(m, id, a).wf(),
{
    lemma_slot_roundtrip(id);
    let i = id.slot();
    let s = m.slots[i];
    assert(s.wf(param_of_slot(i).dom()));
    let ns = slot_after(a, s, id.dom());
    lemma_merged_in_domain(ns.pot as int, ns.cv, ns.connected, id.dom());
    assert(ns.wf(id.dom()));
    let m2 = with_updated_slot(m, id, a);
    assert forall|j: int| 0 <= j < SLOT_COUNT implies (#[trigger] m2.slots[j]).wf(
        param_of_slot(j).dom(),
    ) by {
        if j != i {
            assert(m2.slots[j] == m.slots[j]);
        }
    }
}

/// The cache after a whole sequence of actions, applied in delivery order.
pub open spec fn cache_after_all(actions: Seq<ControlAction>, m: CacheModel) -> CacheModel
    decreases actions.len(),
{
    if actions.len() == 0 {
        m
    } else {
        cache_after(actions.last(), cache_after_all(actions.drop_last(), m))
    }
}

/// A whole sequence of actions keeps the cache well formed.
pub proof fn lemma_cache_after_all_wf(actions: Seq<ControlAction>, m: CacheModel)
    requires
        m.wf(),
    ensures
        cache_after_all(actions, m).wf(),
    decreases actions.len(),
{
    if actions.len() > 0 {
        lemma_cache_after_all_wf(actions.drop_last(), m);
        lemma_cache_after_wf(actions.last(), cache_after_all(actions.drop_last(), m));
    }
}

/// One action leaves every slot it does not address unchanged.
pub proof fn lemma_action_locality(a: ControlAction, m: CacheModel, j: int)
    requires
        m.wf(),
        0 <= j < SLOT_COUNT,
        target_slot(a) != Some(j),
    ensures
        cache_after(a, m).slots[j] == m.slots[j],
{
}

/// The slot an action addresses lands in a state that depends only on the
/// action and on that slot's previous state, wherever the rest of the cache
/// stands.
pub proof fn lemma_slot_from_last_write(a: ControlAction, m1: CacheModel, m2: CacheModel, j: int)
    requires
        m1.wf(),
        m2.wf(),
        target_slot(a) == Some(j),
        m1.slots[j] == m2.slots[j],
    ensures
        cache_after(a, m1).slots[j] == cache_after(a, m2).slots[j],
{
    match a {
        ControlAction::SetPot(id, _) => lemma_slot_roundtrip(id),
        ControlAction::SetCv(id, _) => lemma_slot_roundtrip(id),
        ControlAction::SetConnected(id, _) => lemma_slot_roundtrip(id),
        _ => {},
    }
}

/// A sequence none of whose actions addresses slot `j` leaves slot `j`
/// exactly as it stood, whatever else it changes.
pub proof fn lemma_sequence_isolation(actions: Seq<ControlAction>, m: CacheModel, j: int)
    requires
        m.wf(),
        0 <= j < SLOT_COUNT,
        forall|k: int| 0 <= k < actions.len() ==> target_slot(#[trigger] actions[k]) != Some(j),
    ensures
        cache_after_all(actions, m).slots[j] == m.slots[j],
    decreases actions.len(),
{
    if actions.len() > 0 {
        lemma_sequence_isolation(actions.drop_last(), m, j);
        lemma_cache_after_all_wf(actions.drop_last(), m);
        assert(target_slot(actions[actions.len() - 1]) != Some(j));
        lemma_action_locality(actions.last(), cache_after_all(actions.drop_last(), m), j);
    }
}

/// Determinism of the attribute set: after any delivery sequence, the state
/// of a parameter's slot — and with it the parameter's attribute — is a pure
/// function of the most recent action addressing it and of the slot as it
/// stood at that update; every action delivered after it leaves it alone.
pub proof fn lemma_last_matching_action_decides(
    actions: Seq<ControlAction>,
    m: CacheModel,
    j: int,
    k: int,
)
    requires
        m.wf(),
        0 <= j < SLOT_COUNT,
        0 <= k < actions.len(),
        target_slot(actions[k]) == Some(j),
        forall|l: int| k < l < actions.len() ==> target_slot(#[trigger] actions[l]) != Some(j),
    ensures
        cache_after_all(actions, m).slots[j] == cache_after(
            actions[k],
            cache_after_all(actions.take(k), m),
        ).slots[j],
    decreases actions.len(),
{
    if k == actions.len() - 1 {
        assert(actions.drop_last() =~= actions.take(k));
    } else {
        lemma_cache_after_all_wf(actions.drop_last(), m);
        assert(target_slot(actions[actions.len() - 1]) != Some(j));
        lemma_action_locality(actions.last(), cache_after_all(actions.drop_last(), m), j);
        assert(forall|l: int|
            k < l < actions.drop_last().len() ==> target_slot(
                #[trigger] actions.drop_last()[l],
            ) != Some(j));
        lemma_last_matching_action_decides(actions.drop_last(), m, j, k);
        assert(actions.drop_last().take(k) =~= actions.take(k));
    }
}

/// Isolation invariant: while a parameter's jack is unpatched, a CV event
/// addressed to it changes no effective value — the attribute values, the
/// button and the switches stay exactly what they were.
pub proof fn lemma_disconnected_cv_keeps_attributes(id: ParamId, raw: i32, m: CacheModel)
    requires
        m.wf(),
        !m.slots[id.slot()].connected,
    ensures
        attribute_values(cache_after(ControlAction::SetCv(id, raw), m)) == attribute_values(m),
        cache_after(ControlAction::SetCv(id, raw), m).button == m.button,
        cache_after(ControlAction::SetCv(id, raw), m).switches == m.switches,
{
    lemma_slot_roundtrip(id);
    let m2 = cache_after(ControlAction::SetCv(id, raw), m);
    assert(m.slots[id.slot()].wf(id.dom()));
    assert(m2.slots[id.slot()].effective == m.slots[id.slot()].effective);
    assert(attribute_values(m2) =~= attribute_values(m));
}

/// Apply one control event to the cache: update exactly the addressed slot
/// or state, recompute the merged value, and return the entire current
/// attribute set for a full replace. Total over the whole representable
/// input range: values are clamped, never rejected.
pub fn reduce(action: ControlAction, cache: &mut ParameterCache) -> (r: AttributeSet)
    requires
        old(cache)@.wf(),
    ensures
        final(cache)@.wf(),
        final(cache)@ == cache_after(action, old(cache)@),
        r.wf(),
        r.of_cache(final(cache)@),
{
    match action {
        ControlAction::SetPot(id, raw) => {
            let i = id.slot_index();
            proof {
                lemma_slot_roundtrip(id);
                assert(old(cache)@.slots[i as int].wf(id.dom()));
            }
            let s = cache.slots[i];
            let pot = clamp(raw, 0, UNIT);
            let ns = remerge(pot, s.cv, s.connected, id.domain());
            cache.slots.set(i, ns);
            proof {
                lemma_merged_in_domain(pot as int, s.cv, s.connected, id.dom());
                lemma_updated_slot_wf(action, id, old(cache)@);
                assert(ns == slot_after(action, s, id.dom()));
            }
        },
        ControlAction::SetCv(id, raw) => {
            let i = id.slot_index();
            proof {
                lemma_slot_roundtrip(id);
                assert(old(cache)@.slots[i as int].wf(id.dom()));
            }
            let s = cache.slots[i];
            let c = clamp(raw, -CV_SPAN, CV_SPAN);
            let ns = remerge(s.pot, Some(c), s.connected, id.domain());
            cache.slots.set(i, ns);
            proof {
                lemma_merged_in_domain(s.pot as int, Some(c), s.connected, id.dom());
                lemma_updated_slot_wf(action, id, old(cache)@);
                assert(ns == slot_after(action, s, id.dom()));
            }
        },
        ControlAction::SetConnected(id, on) => {
            let i = id.slot_index();
            proof {
                lemma_slot_roundtrip(id);
                assert(old(cache)@.slots[i as int].wf(id.dom()));
            }
            let s = cache.slots[i];
            let ns = remerge(s.pot, s.cv, on, id.domain());
            cache.slots.set(i, ns);
            proof {
                lemma_merged_in_domain(s.pot as int, s.cv, on, id.dom());
                lemma_updated_slot_wf(action, id, old(cache)@);
                assert(ns == slot_after(action, s, id.dom()));
            }
        },
        ControlAction::SetButton(on) => {
            cache.button = on;
        },
        ControlAction::SetSwitch(w, on) => {
            let k = w.offset_index();
            cache.switches.set(k, on);
        },
    }
    cache.attributes()
}

} // verus!
