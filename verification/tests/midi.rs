use midisynth::midi::handle_midi_message;
use midisynth::midi::ControlUpdate;
use midisynth::midi::MidiError;
use std::convert::TryFrom;

#[test]
fn note_on_yields_set_frequency_at_any_timestamp() {
    for stamp in [0u64, 1, 42, u64::MAX] {
        let r = handle_midi_message(stamp, &[0x90, 60, 100]);
        assert_eq!(r, Ok(ControlUpdate::SetFrequency(26163)));
    }
}

#[test]
fn note_on_any_channel_yields_set_frequency() {
    for channel in 0u8..16 {
        let r = handle_midi_message(7, &[0x90 | channel, 69, 1]);
        assert_eq!(r, Ok(ControlUpdate::SetFrequency(44000)));
    }
}

#[test]
fn note_off_yields_no_change() {
    let r = handle_midi_message(5, &[0x80, 60, 0]);
    assert_eq!(r, Ok(ControlUpdate::NoChange));
}

#[test]
fn note_on_with_zero_velocity_is_a_release() {
    let r = handle_midi_message(0, &[0x90, 60, 0]);
    assert_eq!(r, Ok(ControlUpdate::NoChange));
}

#[test]
fn truncated_note_on_is_malformed() {
    let r = handle_midi_message(0, &[0x90]);
    assert_eq!(r, Err(MidiError::MalformedMidiMessage));
    let r = handle_midi_message(0, &[0x90, 60]);
    assert_eq!(r, Err(MidiError::MalformedMidiMessage));
}

#[test]
fn empty_input_is_malformed() {
    let r = handle_midi_message(0, &[]);
    assert_eq!(r, Err(MidiError::MalformedMidiMessage));
}

#[test]
fn missing_status_byte_is_malformed() {
    let r = handle_midi_message(0, &[60, 100]);
    assert_eq!(r, Err(MidiError::MalformedMidiMessage));
}

#[test]
fn data_byte_with_high_bit_is_malformed() {
    let r = handle_midi_message(0, &[0x90, 0x85, 100]);
    assert_eq!(r, Err(MidiError::MalformedMidiMessage));
    let r = handle_midi_message(0, &[0x90, 60, 0x85]);
    assert_eq!(r, Err(MidiError::MalformedMidiMessage));
}

#[test]
fn control_change_yields_no_change() {
    let r = handle_midi_message(0, &[0xB0, 7, 100]);
    assert_eq!(r, Ok(ControlUpdate::NoChange));
}

#[test]
fn program_change_needs_one_data_byte() {
    assert_eq!(
        handle_midi_message(0, &[0xC0, 5]),
        Ok(ControlUpdate::NoChange)
    );
    assert_eq!(
        handle_midi_message(0, &[0xC0]),
        Err(MidiError::MalformedMidiMessage)
    );
}

#[test]
fn realtime_messages_stand_alone() {
    for status in [0xF8u8, 0xFA, 0xFB, 0xFC, 0xFE, 0xFF] {
        assert_eq!(
            handle_midi_message(0, &[status]),
            Ok(ControlUpdate::NoChange)
        );
    }
}

#[test]
fn sysex_must_be_terminated() {
    assert_eq!(
        handle_midi_message(0, &[0xF0, 1, 2, 3, 0xF7]),
        Ok(ControlUpdate::NoChange)
    );
    assert_eq!(
        handle_midi_message(0, &[0xF0, 1, 2, 3]),
        Err(MidiError::MalformedMidiMessage)
    );
    assert_eq!(
        handle_midi_message(0, &[0xF0, 1, 0x90, 0xF7]),
        Err(MidiError::MalformedMidiMessage)
    );
}

#[test]
fn bytes_past_the_message_are_ignored() {
    let r = handle_midi_message(0, &[0x90, 69, 100, 0x40]);
    assert_eq!(r, Ok(ControlUpdate::SetFrequency(44000)));
}

#[test]
fn acceptance_agrees_with_the_reference_parser() {
    let cases: [&[u8]; 16] = [
        &[0x90, 60, 100],
        &[0x90, 60, 0],
        &[0x80, 60, 64],
        &[0x90],
        &[],
        &[60, 100],
        &[0x90, 0x85, 1],
        &[0xB0, 7, 100],
        &[0xC0, 5],
        &[0xC0],
        &[0xD3, 12],
        &[0xE0, 0, 64],
        &[0xF8],
        &[0xF0, 1, 2, 3, 0xF7],
        &[0xF0, 1, 2, 3],
        &[0xF7],
    ];
    for bytes in cases {
        let ours = handle_midi_message(0, bytes).is_ok();
        let reference = wmidi::MidiMessage::try_from(bytes).is_ok();
        assert_eq!(ours, reference, "bytes {:?}", bytes);
    }
}
