use midisynth::state::SharedSynthState;
use midisynth::SynthError;

#[test]
fn new_accepts_only_valid_frequencies() {
    assert!(SharedSynthState::new(40000).is_ok());
    assert!(SharedSynthState::new(1).is_ok());
    assert!(SharedSynthState::new(10_000_000).is_ok());
    assert_eq!(
        SharedSynthState::new(0).err(),
        Some(SynthError::InvalidFrequency)
    );
    assert_eq!(
        SharedSynthState::new(10_000_001).err(),
        Some(SynthError::InvalidFrequency)
    );
}

#[test]
fn get_returns_the_committed_value() {
    let mut cell = SharedSynthState::new(40000).unwrap();
    assert_eq!(cell.get(), 40000);
    assert!(cell.set(26163).is_ok());
    assert_eq!(cell.get(), 26163);
}

#[test]
fn rejected_set_leaves_the_previous_value() {
    let mut cell = SharedSynthState::new(40000).unwrap();
    assert_eq!(cell.set(0), Err(SynthError::InvalidFrequency));
    assert_eq!(cell.get(), 40000);
    assert_eq!(cell.set(10_000_001), Err(SynthError::InvalidFrequency));
    assert_eq!(cell.get(), 40000);
}

#[test]
fn reads_observe_only_committed_inputs() {
    // A sequence of commits interleaved with reads, as the MIDI and render
    // callbacks interleave them: every read observes exactly the most
    // recently committed value, and nothing that was never committed.
    let committed = [44000u32, 26163, 2750, 1254385];
    let mut cell = SharedSynthState::new(40000).unwrap();
    let mut last = 40000u32;
    for (round, &f) in committed.iter().enumerate() {
        for _ in 0..3 {
            let seen = cell.get();
            assert_eq!(seen, last);
            assert!(seen == 40000 || committed.contains(&seen));
        }
        assert!(cell.set(f).is_ok());
        last = f;
        assert_eq!(cell.get(), last, "round {}", round);
    }
}
