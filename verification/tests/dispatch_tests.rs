//! Block dispatch behaviour: exact partition, fail-fast alignment, and an
//! end-to-end run over a simulated processor.

use automaton::arena::arena_words;
use automaton::cache::ParameterCache;
use automaton::dispatch::{BlockError, begin_block};
use automaton::reaction::{DisplayState, ProcessorReaction, indicator_sample, reduce_reaction};

#[test]
fn a_block_of_two_chunks_is_walked_exactly_twice() {
    let mut session = begin_block(64).unwrap();
    let first = session.next_chunk().unwrap();
    assert_eq!((first.index, first.start, first.end), (0, 0, 32));
    let second = session.next_chunk().unwrap();
    assert_eq!((second.index, second.start, second.end), (32 / 32, 32, 64));
    assert!(session.next_chunk().is_none());
    assert!(session.next_chunk().is_none());
}

#[test]
fn an_empty_block_is_accepted_and_owes_nothing() {
    let mut session = begin_block(0).unwrap();
    assert_eq!(session.chunks_left(), 0);
    assert!(session.next_chunk().is_none());
}

#[test]
fn a_misaligned_block_is_refused_outright() {
    assert_eq!(begin_block(33).unwrap_err(), BlockError::MisalignedBlock);
    assert_eq!(begin_block(31).unwrap_err(), BlockError::MisalignedBlock);
    assert_eq!(begin_block(63).unwrap_err(), BlockError::MisalignedBlock);
    assert!(begin_block(96).is_ok());
}

/// A stand-in for the opaque processor: silences nothing, reports a reaction
/// that changes from one invocation to the next.
fn simulated_reaction(invocation: usize) -> ProcessorReaction {
    let odd = invocation % 2 == 1;
    ProcessorReaction {
        lamps: [odd, !odd, false, false, false, false, false, odd],
        impulse_led: odd,
        impulse_trigger: !odd,
    }
}

#[test]
fn sixty_four_silent_frames_make_two_stable_half_displays() {
    let input = vec![0.0f32; 64];
    let mut output = vec![1.0f32; 64];
    let mut impulse_out = vec![-1.0f32; 64];
    let mut cache = ParameterCache::new();
    let mut displays: Vec<DisplayState> = Vec::new();

    let mut invocations = 0;
    let mut session = begin_block(input.len()).expect("aligned block");
    while let Some(chunk) = session.next_chunk() {
        let mut buffer = [0.0f32; 32];
        buffer.copy_from_slice(&input[chunk.start..chunk.end]);
        let reaction = simulated_reaction(invocations);
        invocations += 1;
        let display = reduce_reaction(&reaction, &mut cache);
        displays.push(display);
        for (offset, frame) in buffer.iter().enumerate() {
            output[chunk.start + offset] = *frame;
            impulse_out[chunk.start + offset] =
                indicator_sample(display.impulse_trigger) as f32 / 1000.0;
        }
    }

    assert_eq!(invocations, 2);
    assert_eq!(output.len(), 64);
    assert!(output.iter().all(|s| *s == 0.0));
    assert_eq!(displays.len(), 2);
    assert!(impulse_out[0..32].iter().all(|s| *s == 1.0));
    assert!(impulse_out[32..64].iter().all(|s| *s == 0.0));
    assert_ne!(displays[0], displays[1]);
    assert_eq!(cache.display(), displays[1]);
}

#[test]
fn reactions_pass_through_to_the_display() {
    let mut cache = ParameterCache::new();
    let reaction = ProcessorReaction {
        lamps: [true, false, true, false, false, true, false, true],
        impulse_led: true,
        impulse_trigger: false,
    };
    let display = reduce_reaction(&reaction, &mut cache);
    assert_eq!(display.lamps, reaction.lamps);
    assert!(display.impulse_led);
    assert!(!display.impulse_trigger);
    assert_eq!(cache.display(), display);
}

#[test]
fn indicator_levels_are_one_unit_or_silence() {
    assert_eq!(indicator_sample(true), 1000);
    assert_eq!(indicator_sample(false), 0);
}

#[test]
fn the_arena_is_sized_once_for_the_worst_case() {
    assert_eq!(arena_words(48000), 48000 * 4 * 60 * 3);
    assert_eq!(arena_words(0), 0);
}
