use crate::wave::valid_frequency;
use crate::SynthError;
use vstd::prelude::*;

verus! {

/// The single control value exchanged between the MIDI thread and the
/// render thread: the current frequency, in centihertz.  It is one machine
/// word, so the embedding program can hold it in an atomic cell or behind a
/// lock shared by the two callbacks; this type carries the commit rules —
/// only finite, strictly positive frequencies in the supported range are
/// ever committed, an invalid value is rejected and leaves the previous
/// committed value in place, and a read observes exactly the most recently
/// committed value, never a partial update.
pub struct SharedSynthState {
    frequency_chz: u32,
}

impl SharedSynthState {
    /// The most recently committed frequency, in centihertz.
    pub closed spec fn frequency(&self) -> u32 {
        self.frequency_chz
    }

    /// The cell's invariant: what it holds was committed, so it is always a
    /// valid frequency.
    pub open spec fn wf(&self) -> bool {
        valid_frequency(self.frequency())
    }

    /// Creates the cell with its first committed value.  Exactly the valid
    /// frequencies are accepted; anything else is `InvalidFrequency`.
    pub fn new(frequency_chz: u32) -> (r: Result<SharedSynthState, SynthError>)
        ensures
            r is Ok <==> valid_frequency(frequency_chz),
            r matches Ok(s) ==> s.wf() && s.frequency() == frequency_chz,
            !valid_frequency(frequency_chz) ==> r == Err::<SharedSynthState, SynthError>(
                SynthError::InvalidFrequency,
            ),
    {
        if frequency_chz < crate::wave::MIN_FREQUENCY_CHZ || frequency_chz
            > crate::wave::MAX_FREQUENCY_CHZ {
            return Err(SynthError::InvalidFrequency);
        }
        Ok(SharedSynthState { frequency_chz })
    }

    /// Reads the most recently committed frequency.  Never blocks and never
    /// fails: the render thread calls this once per frame.
    pub fn get(&self) -> (f: u32)
        requires
            self.wf(),
        ensures
            f == self.frequency(),
            valid_frequency(f),
    {
        self.frequency_chz
    }

    /// Commits a new frequency.  A valid value is committed whole; an
    /// invalid one is rejected with `InvalidFrequency` and the previously
    /// committed value stays in place — an invalid MIDI update can never
    /// disturb the signal.
    pub fn set(&mut self, frequency_chz: u32) -> (r: Result<(), SynthError>)
        requires
            old(self).wf(),
        ensures
            final(self).wf(),
            r is Ok <==> valid_frequency(frequency_chz),
            valid_frequency(frequency_chz) ==> final(self).frequency() == frequency_chz,
            !valid_frequency(frequency_chz) ==> r == Err::<(), SynthError>(
                SynthError::InvalidFrequency,
            ) && final(self).frequency() == old(self).frequency(),
    {
        if frequency_chz < crate::wave::MIN_FREQUENCY_CHZ || frequency_chz
            > crate::wave::MAX_FREQUENCY_CHZ {
            return Err(SynthError::InvalidFrequency);
        }
        self.frequency_chz = frequency_chz;
        Ok(())
    }
}

} // verus!
