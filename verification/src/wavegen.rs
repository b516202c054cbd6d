use crate::wave::spec_sample;
use crate::wave::table_wf;
use crate::wave::valid_frequency;
use crate::wave::valid_sample_rate;
use crate::wave::AMPLITUDE;
use crate::wave::MAX_FREQUENCY_CHZ;
use crate::wave::MAX_SAMPLE_RATE;
use crate::wave::MIN_FREQUENCY_CHZ;
use crate::wave::SineTable;
use crate::wave::WaveFunction;
use crate::wave::lemma_sample_at_phase_zero;
use crate::SynthError;
use vstd::prelude::*;

verus! {

/// The phase-accumulator oscillator.  It owns the running sample count —
/// the phase — advances it by one per rendered sample, wraps it at the
/// sample rate, and resets it whenever the frequency changes.  The phase is
/// touched by nothing but [`WaveGen::step`] and [`WaveGen::change_freq`], so
/// it always stays below the sample rate.
pub struct WaveGen {
    function: WaveFunction,
    sample_rate: u32,
    sample_clock: u32,
    frequency_chz: u32,
}

impl WaveGen {
    /// The waveform this oscillator produces.
    pub closed spec fn function(&self) -> WaveFunction {
        self.function
    }

    /// The sample rate, in hertz, fixed at construction.
    pub closed spec fn sample_rate(&self) -> u32 {
        self.sample_rate
    }

    /// The phase accumulator: samples rendered since the last reset, modulo
    /// the sample rate.
    pub closed spec fn sample_clock(&self) -> u32 {
        self.sample_clock
    }

    /// The current frequency, in centihertz.
    pub closed spec fn frequency(&self) -> u32 {
        self.frequency_chz
    }

    /// The oscillator's invariant: a usable sample rate, a valid frequency,
    /// and a phase strictly below the sample rate.  Established by the
    /// constructor and preserved by every method.
    pub open spec fn wf(&self) -> bool {
        &&& valid_sample_rate(self.sample_rate())
        &&& valid_frequency(self.frequency())
        &&& self.sample_clock() < self.sample_rate()
    }

    /// Builds an oscillator at phase zero.  A sample rate outside the
    /// supported range is a fatal configuration fault, reported as
    /// `InvalidSampleRate`; an out-of-range starting frequency is reported
    /// as `InvalidFrequency`.  Exactly the valid configurations succeed.
    pub fn new(function: WaveFunction, sample_rate: u32, frequency_chz: u32) -> (r: Result<
        WaveGen,
        SynthError,
    >)
        ensures
            r is Ok <==> valid_sample_rate(sample_rate) && valid_frequency(frequency_chz),
            r matches Ok(g) ==> g.wf() && g.function() == function && g.sample_rate()
                == sample_rate && g.frequency() == frequency_chz && g.sample_clock() == 0,
            !valid_sample_rate(sample_rate) ==> r == Err::<WaveGen, SynthError>(
                SynthError::InvalidSampleRate,
            ),
            valid_sample_rate(sample_rate) && !valid_frequency(frequency_chz) ==> r == Err::<
                WaveGen,
                SynthError,
            >(SynthError::InvalidFrequency),
    {
        if sample_rate < 1 || sample_rate > MAX_SAMPLE_RATE {
            return Err(SynthError::InvalidSampleRate);
        }
        if frequency_chz < MIN_FREQUENCY_CHZ || frequency_chz > MAX_FREQUENCY_CHZ {
            return Err(SynthError::InvalidFrequency);
        }
        Ok(WaveGen { function, sample_rate, sample_clock: 0, frequency_chz })
    }

    /// The current frequency, in centihertz.
    pub fn get_freq(&self) -> (f: u32)
        ensures
            f == self.frequency(),
    {
        self.frequency_chz
    }

    /// Retunes the oscillator: the frequency becomes `frequency_chz` and the
    /// phase accumulator is reset to zero, so the next step starts a fresh
    /// cycle.  Nothing else changes.
    pub fn change_freq(&mut self, frequency_chz: u32)
        requires
            old(self).wf(),
            valid_frequency(frequency_chz),
        ensures
            final(self).wf(),
            final(self).frequency() == frequency_chz,
            final(self).sample_clock() == 0,
            final(self).function() == old(self).function(),
            final(self).sample_rate() == old(self).sample_rate(),
    {
        self.sample_clock = 0;
        self.frequency_chz = frequency_chz;
    }

    /// Renders one sample: returns the waveform's value at the current
    /// phase, exactly as [`spec_sample`] states it and always within the
    /// peak level, then advances the phase by one, wrapped at the sample
    /// rate.  Frequency, waveform and sample rate are untouched.
    pub fn step(&mut self, table: &SineTable) -> (s: i64)
        requires
            old(self).wf(),
            table.wf(),
        ensures
            final(self).wf(),
            s == spec_sample(
                old(self).function(),
                old(self).sample_clock() as int,
                old(self).sample_rate() as int,
                old(self).frequency() as int,
                table@,
            ),
            -AMPLITUDE <= s <= AMPLITUDE,
            final(self).sample_clock() == ((old(self).sample_clock() + 1) as int % (old(
                self,
            ).sample_rate() as int)),
            final(self).function() == old(self).function(),
            final(self).sample_rate() == old(self).sample_rate(),
            final(self).frequency() == old(self).frequency(),
    {
        let v = self.function.val(self.sample_clock, self.sample_rate, self.frequency_chz, &table);
        self.sample_clock = (self.sample_clock + 1) % self.sample_rate;
        v
    }
}

/// A frequency change always lands the oscillator at phase zero, so the
/// immediately following step renders the waveform's origin value: 0 for
/// `Sine` and `Triangle`, `AMPLITUDE` for `Square`, `-AMPLITUDE` for
/// `Sawtooth` and `SineMag` — one well-defined in-range sample for every
/// waveform and every valid new frequency.
pub proof fn lemma_step_after_change_freq(g: WaveGen, frequency_chz: u32, table: Seq<i64>)
    requires
        g.wf(),
        valid_frequency(frequency_chz),
        table_wf(table),
    ensures
        spec_sample(g.function(), 0, g.sample_rate() as int, frequency_chz as int, table) == (
        match g.function() {
            WaveFunction::Sine => 0int,
            WaveFunction::Square => AMPLITUDE as int,
            WaveFunction::Triangle => 0int,
            WaveFunction::Sawtooth => -(AMPLITUDE as int),
            WaveFunction::SineMag => -(AMPLITUDE as int),
        }),
{
    lemma_sample_at_phase_zero(g.function(), g.sample_rate() as int, frequency_chz as int, table);
}

} // verus!
