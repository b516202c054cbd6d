//! Core of a monophonic, MIDI-driven waveform synthesizer.
//!
//! The library models the synthesizer's control and signal path with plain
//! integers so that every step of it can be verified:
//!
//! * frequencies are carried in **centihertz** (hundredths of a hertz), so
//!   the standard equal-tempered tuning can be stated exactly;
//! * audio samples are **fixed-point** values on a scale of 65536 units per
//!   unit of amplitude, so each waveform formula is exact integer arithmetic;
//! * the sine shapes read from a caller-supplied wavetable, since evaluating
//!   the transcendental sine itself is left to the embedding program.
//!
//! The embedding program owns the audio and MIDI devices; it hands raw MIDI
//! bytes to [`midi::handle_midi_message`], carries the resulting frequency
//! through [`state::SharedSynthState`], and fills each output buffer with
//! [`render::write_data`].

pub mod tuning;
pub mod wave;
pub mod wavegen;
pub mod state;
pub mod midi;
pub mod render;

use vstd::prelude::*;

verus! {

/// The recoverable faults of the control path: a frequency outside the
/// supported range reaching the shared control cell, or an unusable sample
/// rate at oscillator construction.  Both are reported to the caller and
/// never reach the render path.
#[derive(Clone, Copy, PartialEq, Eq, Structural, Debug)]
pub enum SynthError {
    InvalidFrequency,
    InvalidSampleRate,
}

} // verus!
