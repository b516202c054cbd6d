use crate::tuning::note_centihertz;
use crate::tuning::play_note;
use vstd::prelude::*;

verus! {

/// A control update handed from the MIDI thread toward the render thread:
/// retune to a new frequency, in centihertz, or leave the signal alone.
#[derive(Clone, Copy, PartialEq, Eq, Structural, Debug)]
pub enum ControlUpdate {
    SetFrequency(u32),
    NoChange,
}

/// The translator's one recoverable fault: a byte sequence that is not a
/// MIDI message.  The caller logs and discards it and carries on; it never
/// reaches the render path.
#[derive(Clone, Copy, PartialEq, Eq, Structural, Debug)]
pub enum MidiError {
    MalformedMidiMessage,
}

/// Number of data bytes a channel message carries on the wire: program
/// change and channel pressure (status `0xC0..=0xDF`) take one, every other
/// channel message takes two.
pub open spec fn spec_channel_data_len(status: u8) -> int {
    if 0xC0 <= status && status <= 0xDF {
        1
    } else {
        2
    }
}

/// A system-exclusive message: somewhere after the `0xF0` status byte a
/// status byte appears, and the first one to appear is the `0xF7`
/// end-of-exclusive byte; everything before it is plain data.
pub open spec fn spec_sysex_ok(bytes: Seq<u8>) -> bool {
    exists|i: int|
        1 <= i < bytes.len() && #[trigger] bytes[i] == 0xF7 && (forall|j: int|
            1 <= j < i ==> #[trigger] bytes[j] < 0x80)
}

/// A byte sequence the translator accepts: one MIDI message read from the
/// front of the buffer, per the wire format.  The first byte must be a
/// status byte (high bit set).  A channel message (status below `0xF0`)
/// must be followed by its data bytes, each with the high bit clear.  Of
/// the system messages, system exclusive must be properly terminated, time
/// code, song position and song select carry their own data bytes, a stray
/// end-of-exclusive is not a message, and the remaining system bytes stand
/// alone.  Bytes past the message itself are ignored.
pub open spec fn spec_well_formed(bytes: Seq<u8>) -> bool {
    bytes.len() > 0 && {
        let s = bytes[0];
        if s < 0x80 {
            false
        } else if s < 0xF0 {
            bytes.len() > spec_channel_data_len(s) && (forall|j: int|
                1 <= j <= spec_channel_data_len(s) ==> #[trigger] bytes[j] < 0x80)
        } else if s == 0xF0 {
            spec_sysex_ok(bytes)
        } else if s == 0xF1 || s == 0xF3 {
            bytes.len() > 1 && bytes[1] < 0x80
        } else if s == 0xF2 {
            bytes.len() > 2 && bytes[1] < 0x80 && bytes[2] < 0x80
        } else if s == 0xF7 {
            false
        } else {
            true
        }
    }
}

/// The messages that retune the synthesizer: a Note-On — status high
/// nibble 9 — with a valid note byte and a strictly positive velocity.  A
/// Note-On with velocity zero is a release and changes nothing.
pub open spec fn spec_note_on_trigger(bytes: Seq<u8>) -> bool {
    &&& bytes.len() > 2
    &&& 0x90 <= bytes[0] && bytes[0] <= 0x9F
    &&& bytes[1] < 0x80
    &&& bytes[2] < 0x80
    &&& bytes[2] > 0
}

/// The update a well-formed message produces: the equal-tempered frequency
/// of the struck note for a sounding Note-On, no change for everything
/// else.
pub open spec fn spec_update(bytes: Seq<u8>) -> ControlUpdate {
    if spec_note_on_trigger(bytes) {
        ControlUpdate::SetFrequency(note_centihertz(bytes[1]))
    } else {
        ControlUpdate::NoChange
    }
}

/// Translates one timestamped raw MIDI message into a control update.
///
/// The result depends on the bytes alone — the timestamp never affects it.
/// Exactly the well-formed messages are accepted; a sounding Note-On yields
/// `SetFrequency` of the note's equal-tempered frequency, every other
/// well-formed message yields `NoChange`, and anything malformed is
/// rejected with `MalformedMidiMessage`, never applied.
pub fn handle_midi_message(_stamp: u64, bytes: &[u8]) -> (r: Result<ControlUpdate, MidiError>)
    ensures
        r is Ok <==> spec_well_formed(bytes@),
        spec_well_formed(bytes@) ==> r == Ok::<ControlUpdate, MidiError>(spec_update(bytes@)),
        !spec_well_formed(bytes@) ==> r == Err::<ControlUpdate, MidiError>(
            MidiError::MalformedMidiMessage,
        ),
{
    if bytes.len() == 0 {
        return Err(MidiError::MalformedMidiMessage);
    }
    let s: u8 = bytes[0];
    if s < 0x80 {
        return Err(MidiError::MalformedMidiMessage);
    }
    if s < 0xF0 {
        let data_len: usize = if 0xC0 <= s && s <= 0xDF {
            1
        } else {
            2
        };
        if bytes.len() <= data_len {
            return Err(MidiError::MalformedMidiMessage);
        }
        if bytes[1] >= 0x80 {
            return Err(MidiError::MalformedMidiMessage);
        }
        if data_len == 2 && bytes[2] >= 0x80 {
            return Err(MidiError::MalformedMidiMessage);
        }
        if 0x90 <= s && s <= 0x9F && bytes[2] > 0 {
            return Ok(ControlUpdate::SetFrequency(play_note(bytes[1])));
        }
        return Ok(ControlUpdate::NoChange);
    }
    if s == 0xF0 {
        let mut i: usize = 1;
        while i < bytes.len()
            invariant
                1 <= i <= bytes@.len(),
                bytes@.len() > 0,
                bytes@[0] == 0xF0,
                forall|j: int| 1 <= j < i ==> #[trigger] bytes@[j] < 0x80,
            decreases bytes@.len() - i,
        {
            if bytes[i] >= 0x80 {
                if bytes[i] == 0xF7 {
                    proof {
                        assert(spec_sysex_ok(bytes@));
                    }
                    return Ok(ControlUpdate::NoChange);
                }
                proof {
                    assert(!spec_sysex_ok(bytes@)) by {
                        if spec_sysex_ok(bytes@) {
                            let k = choose|k: int|
                                1 <= k < bytes@.len() && #[trigger] bytes@[k] == 0xF7 && (forall|
                                    j: int,
                                |
                                    1 <= j < k ==> #[trigger] bytes@[j] < 0x80);
                            if k < i {
                                assert(bytes@[k] < 0x80);
                            } else if k > i {
                                assert(bytes@[i as int] < 0x80);
                            }
                        }
                    }
                }
                return Err(MidiError::MalformedMidiMessage);
            }
            i = i + 1;
        }
        proof {
            assert(!spec_sysex_ok(bytes@)) by {
                if spec_sysex_ok(bytes@) {
                    let k = choose|k: int|
                        1 <= k < bytes@.len() && #[trigger] bytes@[k] == 0xF7 && (forall|j: int|
                            1 <= j < k ==> #[trigger] bytes@[j] < 0x80);
                    assert(bytes@[k] < 0x80);
                }
            }
        }
        return Err(MidiError::MalformedMidiMessage);
    }
    if s == 0xF1 || s == 0xF3 {
        if bytes.len() <= 1 || bytes[1] >= 0x80 {
            return Err(MidiError::MalformedMidiMessage);
        }
        return Ok(ControlUpdate::NoChange);
    }
    if s == 0xF2 {
        if bytes.len() <= 2 || bytes[1] >= 0x80 || bytes[2] >= 0x80 {
            return Err(MidiError::MalformedMidiMessage);
        }
        return Ok(ControlUpdate::NoChange);
    }
    if s == 0xF7 {
        return Err(MidiError::MalformedMidiMessage);
    }
    Ok(ControlUpdate::NoChange)
}

} // verus!
