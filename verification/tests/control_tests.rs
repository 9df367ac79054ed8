//! Control-side behaviour: merging, clamping, isolation and determinism.

use automaton::cache::ParameterCache;
use automaton::control::{ControlAction, reduce};
use automaton::param::{HeadIndex, ParamId, SwitchIndex};
use automaton::value::{clamp, switch_on};

#[test]
fn fresh_cache_stands_for_domain_floors() {
    let cache = ParameterCache::new();
    let a = cache.attributes();
    assert_eq!(a.value_of(ParamId::Drive), 0);
    assert_eq!(a.value_of(ParamId::PreAmp), 0);
    assert_eq!(a.value_of(ParamId::Speed), 50);
    assert_eq!(a.value_of(ParamId::HeadPan(HeadIndex::H1)), -1000);
    assert!(!a.button);
    assert!(a.switches.iter().all(|s| !s));
}

#[test]
fn drive_round_trip_with_cv() {
    let mut cache = ParameterCache::new();
    let _ = reduce(ControlAction::SetPot(ParamId::Drive, 700), &mut cache);
    let _ = reduce(ControlAction::SetConnected(ParamId::Drive, true), &mut cache);
    let a = reduce(ControlAction::SetCv(ParamId::Drive, 200), &mut cache);
    assert_eq!(a.value_of(ParamId::Drive), 900);
    let b = reduce(ControlAction::SetConnected(ParamId::Drive, false), &mut cache);
    assert_eq!(b.value_of(ParamId::Drive), 700);
}

#[test]
fn cv_offset_is_clamped_to_domain() {
    let mut cache = ParameterCache::new();
    let _ = reduce(ControlAction::SetPot(ParamId::Drive, 900), &mut cache);
    let _ = reduce(ControlAction::SetConnected(ParamId::Drive, true), &mut cache);
    let a = reduce(ControlAction::SetCv(ParamId::Drive, 500), &mut cache);
    assert_eq!(a.value_of(ParamId::Drive), 1000);
    let b = reduce(ControlAction::SetCv(ParamId::Drive, -2000), &mut cache);
    assert_eq!(b.value_of(ParamId::Drive), 0);
}

#[test]
fn disconnected_cv_changes_nothing() {
    let mut cache = ParameterCache::new();
    let before = reduce(ControlAction::SetPot(ParamId::Tone, 450), &mut cache);
    let after = reduce(ControlAction::SetCv(ParamId::Tone, 300), &mut cache);
    assert_eq!(before, after);
}

#[test]
fn replay_of_one_sequence_is_identical() {
    let sequence = [
        ControlAction::SetPot(ParamId::Bias, 333),
        ControlAction::SetConnected(ParamId::Bias, true),
        ControlAction::SetCv(ParamId::Bias, -100),
        ControlAction::SetPot(ParamId::HeadFeedback(HeadIndex::H2), 810),
        ControlAction::SetButton(true),
        ControlAction::SetSwitch(SwitchIndex::S7, true),
        ControlAction::SetCv(ParamId::Bias, 50),
    ];
    let mut first = ParameterCache::new();
    let mut second = ParameterCache::new();
    let mut replies_first = Vec::new();
    let mut replies_second = Vec::new();
    for action in sequence {
        replies_first.push(reduce(action, &mut first));
    }
    for action in sequence {
        replies_second.push(reduce(action, &mut second));
    }
    assert_eq!(replies_first, replies_second);
    assert_eq!(first.attributes(), second.attributes());
}

#[test]
fn reduce_swallows_the_whole_representable_range() {
    let mut cache = ParameterCache::new();
    let a = reduce(ControlAction::SetPot(ParamId::PreAmp, i32::MAX), &mut cache);
    assert_eq!(a.value_of(ParamId::PreAmp), 2000);
    let b = reduce(ControlAction::SetPot(ParamId::PreAmp, i32::MIN), &mut cache);
    assert_eq!(b.value_of(ParamId::PreAmp), 0);
    let _ = reduce(ControlAction::SetConnected(ParamId::PreAmp, true), &mut cache);
    let c = reduce(ControlAction::SetCv(ParamId::PreAmp, i32::MIN), &mut cache);
    assert_eq!(c.value_of(ParamId::PreAmp), 0);
    let _ = reduce(ControlAction::SetPot(ParamId::PreAmp, 1000), &mut cache);
    let d = reduce(ControlAction::SetCv(ParamId::PreAmp, i32::MAX), &mut cache);
    assert_eq!(d.value_of(ParamId::PreAmp), 2000);
}

#[test]
fn pan_scales_onto_a_signed_domain() {
    let mut cache = ParameterCache::new();
    let a = reduce(ControlAction::SetPot(ParamId::HeadPan(HeadIndex::H1), 700), &mut cache);
    assert_eq!(a.value_of(ParamId::HeadPan(HeadIndex::H1)), 400);
    let b = reduce(ControlAction::SetPot(ParamId::HeadPan(HeadIndex::H2), 500), &mut cache);
    assert_eq!(b.value_of(ParamId::HeadPan(HeadIndex::H2)), 0);
}

#[test]
fn actions_land_on_their_own_slot_alone() {
    let mut cache = ParameterCache::new();
    let before = reduce(ControlAction::SetPot(ParamId::HeadVolume(HeadIndex::H1), 250), &mut cache);
    let after = reduce(ControlAction::SetPot(ParamId::HeadVolume(HeadIndex::H3), 750), &mut cache);
    assert_eq!(after.value_of(ParamId::HeadVolume(HeadIndex::H3)), 750);
    assert_eq!(
        after.value_of(ParamId::HeadVolume(HeadIndex::H1)),
        before.value_of(ParamId::HeadVolume(HeadIndex::H1))
    );
    assert_eq!(after.value_of(ParamId::HeadVolume(HeadIndex::H2)), 0);
}

#[test]
fn button_and_switches_reach_the_attribute_set() {
    let mut cache = ParameterCache::new();
    let a = reduce(ControlAction::SetButton(true), &mut cache);
    assert!(a.button);
    let b = reduce(ControlAction::SetSwitch(SwitchIndex::S10, true), &mut cache);
    assert!(b.switches[9]);
    assert!(!b.switches[0]);
    let c = reduce(ControlAction::SetSwitch(SwitchIndex::S10, false), &mut cache);
    assert!(!c.switches[9]);
}

#[test]
fn switch_threshold_is_exclusive_at_half() {
    assert!(!switch_on(500));
    assert!(switch_on(501));
    assert!(!switch_on(0));
    assert!(!switch_on(-700));
    assert!(switch_on(1000));
}

#[test]
fn clamp_pulls_to_the_nearest_bound() {
    assert_eq!(clamp(15, 0, 10), 10);
    assert_eq!(clamp(-15, 0, 10), 0);
    assert_eq!(clamp(7, 0, 10), 7);
}
