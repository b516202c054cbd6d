use vstd::prelude::*;
use vstd::arithmetic::div_mod::lemma_div_is_ordered;
use vstd::arithmetic::div_mod::lemma_div_by_self;
use vstd::arithmetic::div_mod::lemma_basic_div_specific_divisor;
use vstd::arithmetic::div_mod::lemma_div_multiples_vanish;
use vstd::arithmetic::div_mod::lemma_multiply_divide_lt;

verus! {

/// Fixed-point scale of the whole signal path: 65536 sample units stand for
/// an amplitude of 1.0 on the audio device.
pub const SAMPLE_SCALE: i64 = 65536;

/// Peak level of every waveform: one quarter of [`SAMPLE_SCALE`], the
/// synthesizer's fixed output amplitude of 0.25.
pub const AMPLITUDE: i64 = 16384;

/// Highest sample rate the oscillator accepts, in hertz.
pub const MAX_SAMPLE_RATE: u32 = 1_000_000;

/// Lowest accepted frequency, in centihertz: frequencies must be strictly
/// positive.
pub const MIN_FREQUENCY_CHZ: u32 = 1;

/// Highest accepted frequency, in centihertz (100 kHz), comfortably above
/// the highest MIDI note and low enough that every intermediate product of
/// the sample formulas fits in a machine word.
pub const MAX_FREQUENCY_CHZ: u32 = 10_000_000;

/// Largest accepted wavetable, in entries.
pub const MAX_TABLE_LEN: usize = 1_048_576;

/// A sample rate the oscillator can run at.
pub open spec fn valid_sample_rate(sample_rate: u32) -> bool {
    1 <= sample_rate <= MAX_SAMPLE_RATE
}

/// A frequency, in centihertz, that the control path accepts: finite by
/// construction and strictly positive.
pub open spec fn valid_frequency(freq_chz: u32) -> bool {
    MIN_FREQUENCY_CHZ <= freq_chz <= MAX_FREQUENCY_CHZ
}

/// The closed set of waveform shapes the oscillator can produce.
#[derive(Clone, Copy, PartialEq, Eq, Structural, Debug)]
pub enum WaveFunction {
    Sine,
    Square,
    Triangle,
    Sawtooth,
    SineMag,
}

/// What a usable wavetable looks like: at least one entry, a bounded length,
/// every entry within the peak amplitude, and a zero first entry — the value
/// of `AMPLITUDE * sin(0)`, which the sine shapes read when the phase
/// accumulator has just been reset.
pub open spec fn table_wf(t: Seq<i64>) -> bool {
    &&& 1 <= t.len() <= MAX_TABLE_LEN
    &&& t[0] == 0
    &&& forall|i: int| 0 <= i < t.len() ==> -AMPLITUDE <= #[trigger] t[i] <= AMPLITUDE
}

/// One full cycle of the sine function, sampled uniformly and scaled to the
/// synthesizer's peak amplitude: entry `k` of `n` holds
/// `AMPLITUDE * sin(2*pi*k/n)`, rounded by whoever built the table.  The
/// library never evaluates the transcendental sine itself; the embedding
/// program fills the table once at startup.
pub struct SineTable {
    entries: Vec<i64>,
}

impl View for SineTable {
    type V = Seq<i64>;

    closed spec fn view(&self) -> Seq<i64> {
        self.entries@
    }
}

impl SineTable {
    /// A table accepted by the constructor.
    pub open spec fn wf(&self) -> bool {
        table_wf(self@)
    }

    /// Accepts exactly the entry vectors that satisfy [`table_wf`] and keeps
    /// them unchanged.
    pub fn new(entries: Vec<i64>) -> (r: Option<SineTable>)
        ensures
            r is Some <==> table_wf(entries@),
            r matches Some(t) ==> t@ == entries@,
    {
        if entries.len() < 1 || entries.len() > MAX_TABLE_LEN {
            return None;
        }
        if entries[0] != 0 {
            return None;
        }
        let mut i: usize = 0;
        while i < entries.len()
            invariant
                i <= entries.len(),
                forall|j: int| 0 <= j < i ==> -AMPLITUDE <= #[trigger] entries@[j] <= AMPLITUDE,
            decreases entries.len() - i,
        {
            if entries[i] < -AMPLITUDE || entries[i] > AMPLITUDE {
                return None;
            }
            i = i + 1;
        }
        Some(SineTable { entries })
    }

    /// Number of entries in the table.
    pub fn len(&self) -> (n: usize)
        ensures
            n == self@.len(),
    {
        self.entries.len()
    }
}

/// The sample every waveform produces, in fixed point, at an integer phase
/// count `phase`, a frequency of `freq_chz` centihertz and a sample rate of
/// `sample_rate` hertz.  With the normalized position
/// `x = phase * freq_chz / (100 * sample_rate)` of the classic formulas,
/// `n` below is the numerator of `x` over the denominator `d`, and `r/d` is
/// the fractional part of `x`:
///
/// * `Sine`: `sin(2*pi*x)`, read from the wavetable at the entry holding
///   position `frac(x)` of the cycle;
/// * `Square`: `(-1) ^ floor(2*x)`;
/// * `Triangle`: `1 - 4*|0.5 - frac(x + 0.25)|`;
/// * `Sawtooth`: `2*frac(x) - 1`;
/// * `SineMag`: `2*|sin(pi*x)| - 1`, read from the first half cycle of the
///   wavetable.
///
/// Every shape is scaled to the peak level [`AMPLITUDE`]; divisions round
/// toward negative infinity on the nonnegative quantities they are applied
/// to.
pub open spec fn spec_sample(
    kind: WaveFunction,
    phase: int,
    sample_rate: int,
    freq_chz: int,
    table: Seq<i64>,
) -> int {
    let d = 100 * sample_rate;
    let n = phase * freq_chz;
    let r = n % d;
    match kind {
        WaveFunction::Sine => table[(table.len() * r) / d] as int,
        WaveFunction::Square => if ((2 * n) / d) % 2 == 0 {
            AMPLITUDE as int
        } else {
            -(AMPLITUDE as int)
        },
        WaveFunction::Triangle => {
            let t = if 4 * r + d < 4 * d {
                4 * r + d
            } else {
                4 * r - 3 * d
            };
            let dev = if t <= 2 * d {
                2 * d - t
            } else {
                t - 2 * d
            };
            (AMPLITUDE as int) - ((AMPLITUDE as int) * dev) / d
        },
        WaveFunction::Sawtooth => (2 * r * (AMPLITUDE as int)) / d - (AMPLITUDE as int),
        WaveFunction::SineMag => {
            let v = table[(table.len() * r) / (2 * d)] as int;
            2 * (if v >= 0 { v } else { -v }) - (AMPLITUDE as int)
        },
    }
}

impl WaveFunction {
    /// The waveform's sample at the given phase count, sample rate and
    /// frequency, exactly as [`spec_sample`] states it, and always within
    /// the peak level — the signal can never leave `[-AMPLITUDE, AMPLITUDE]`.
    pub fn val(&self, sample_clock: u32, sample_rate: u32, freq_chz: u32, table: &SineTable) -> (s:
        i64)
        requires
            valid_sample_rate(sample_rate),
            valid_frequency(freq_chz),
            sample_clock < sample_rate,
            table.wf(),
        ensures
            s == spec_sample(
                *self,
                sample_clock as int,
                sample_rate as int,
                freq_chz as int,
                table@,
            ),
            -AMPLITUDE <= s <= AMPLITUDE,
    {
        proof {
            assert((sample_clock as int) * (freq_chz as int) <= (MAX_SAMPLE_RATE as int) * (
            MAX_FREQUENCY_CHZ as int)) by (nonlinear_arith)
                requires
                    0 <= sample_clock as int <= MAX_SAMPLE_RATE as int,
                    0 <= freq_chz as int <= MAX_FREQUENCY_CHZ as int,
            ;
        }
        let n: u64 = (sample_clock as u64) * (freq_chz as u64);
        let d: u64 = 100u64 * (sample_rate as u64);
        let r: u64 = n % d;
        match self {
            WaveFunction::Sine => {
                let len: u64 = self.table_index_bound(r, d, table);
                let idx: u64 = (len * r) / d;
                table.entries[idx as usize]
            },
            WaveFunction::Square => {
                let q: u64 = (2 * n) / d;
                if q % 2 == 0 {
                    AMPLITUDE
                } else {
                    -AMPLITUDE
                }
            },
            WaveFunction::Triangle => {
                let t: u64 = if 4 * r + d < 4 * d {
                    4 * r + d
                } else {
                    4 * r - 3 * d
                };
                let dev: u64 = if t <= 2 * d {
                    2 * d - t
                } else {
                    t - 2 * d
                };
                let q: u64 = ((AMPLITUDE as u64) * dev) / d;
                proof {
                    assert((AMPLITUDE as int) * dev <= (AMPLITUDE as int) * (2 * d)) by (
                    nonlinear_arith)
                        requires
                            0 <= dev <= 2 * (d as int),
                            0 < d,
                    ;
                    lemma_div_is_ordered((AMPLITUDE as int) * dev, (AMPLITUDE as int) * (2 * d), d as int);
                    lemma_div_multiples_vanish(2 * (AMPLITUDE as int), d as int);
                    assert((AMPLITUDE as int) * (2 * (d as int)) == (2 * (AMPLITUDE as int)) * (
                    d as int)) by (nonlinear_arith);
                }
                AMPLITUDE - (q as i64)
            },
            WaveFunction::Sawtooth => {
                let q: u64 = (2 * r * (AMPLITUDE as u64)) / d;
                proof {
                    assert(2 * (r as int) * (AMPLITUDE as int) < (d as int) * (2 * (
                    AMPLITUDE as int))) by (nonlinear_arith)
                        requires
                            0 <= r < d as int,
                    ;
                    lemma_multiply_divide_lt(
                        2 * (r as int) * (AMPLITUDE as int),
                        d as int,
                        2 * (AMPLITUDE as int),
                    );
                }
                (q as i64) - AMPLITUDE
            },
            WaveFunction::SineMag => {
                let len: u64 = self.table_index_bound(r, 2 * d, table);
                let idx: u64 = (len * r) / (2 * d);
                let v: i64 = table.entries[idx as usize];
                let a: i64 = if v >= 0 {
                    v
                } else {
                    -v
                };
                2 * a - AMPLITUDE
            },
        }
    }

    /// The wavetable lookups stay inside the table: with a fractional-part
    /// numerator `r` strictly below the denominator `d`, the scaled index
    /// `(len * r) / d` is strictly below `len`.  Returns the table length for
    /// the callers' arithmetic.
    fn table_index_bound(&self, r: u64, d: u64, table: &SineTable) -> (len: u64)
        requires
            0 < d <= 200_000_000,
            r < d,
            1 <= table@.len() <= MAX_TABLE_LEN,
        ensures
            len == table@.len(),
            (len as int) * (r as int) <= 300_000_000_000_000,
            (len as int) * (r as int) / (d as int) < len,
    {
        let len_usize: usize = table.len();
        let len: u64 = len_usize as u64;
        proof {
            assert((len as int) * (r as int) < (len as int) * (d as int)) by (nonlinear_arith)
                requires
                    0 <= r < d as int,
                    1 <= len as int,
            ;
            assert((len as int) * (d as int) <= (MAX_TABLE_LEN as int) * 200_000_000int) by (
            nonlinear_arith)
                requires
                    0 < d as int <= 200_000_000,
                    0 < len as int <= MAX_TABLE_LEN as int,
            ;
            assert((len as int) * (d as int) == (d as int) * (len as int)) by (nonlinear_arith);
            lemma_multiply_divide_lt((len as int) * (r as int), d as int, len as int);
        }
        len
    }
}

/// Right after a phase reset the accumulator is zero, and the very next
/// sample of every waveform is its value at the origin of the cycle: 0 for
/// `Sine` and `Triangle`, the peak `AMPLITUDE` for `Square`, and the trough
/// `-AMPLITUDE` for `Sawtooth` and `SineMag` — a well-defined in-range value
/// for every shape, every valid frequency and every usable wavetable.
pub proof fn lemma_sample_at_phase_zero(
    kind: WaveFunction,
    sample_rate: int,
    freq_chz: int,
    table: Seq<i64>,
)
    requires
        1 <= sample_rate,
        table_wf(table),
    ensures
        spec_sample(kind, 0, sample_rate, freq_chz, table) == (match kind {
            WaveFunction::Sine => 0int,
            WaveFunction::Square => AMPLITUDE as int,
            WaveFunction::Triangle => 0int,
            WaveFunction::Sawtooth => -(AMPLITUDE as int),
            WaveFunction::SineMag => -(AMPLITUDE as int),
        }),
{
    let d = 100 * sample_rate;
    assert(0int * freq_chz == 0) by (nonlinear_arith);
    assert(0int % d == 0);
    assert(table.len() * 0int == 0) by (nonlinear_arith);
    lemma_div_multiples_vanish(AMPLITUDE as int, d);
    assert((AMPLITUDE as int) * d == d * (AMPLITUDE as int)) by (nonlinear_arith);
}

/// The square wave starts each cycle at its peak and flips sign exactly at
/// the half-way point: at a phase count whose normalized position is one
/// half — `phase * freq_chz` equal to half of `100 * sample_rate` — the
/// output is `-AMPLITUDE`, the opposite of the `+AMPLITUDE` it produces at
/// phase zero.  At a quarter of the cycle, where `2 * x` is still below 1,
/// the sign has not flipped yet.
pub proof fn lemma_square_flips_at_half_cycle(
    phase: int,
    sample_rate: int,
    freq_chz: int,
    table: Seq<i64>,
)
    requires
        1 <= sample_rate,
        0 <= phase,
        0 <= freq_chz,
        2 * (phase * freq_chz) == 100 * sample_rate,
    ensures
        spec_sample(WaveFunction::Square, 0, sample_rate, freq_chz, table) == AMPLITUDE as int,
        spec_sample(WaveFunction::Square, phase, sample_rate, freq_chz, table) == -(
        AMPLITUDE as int),
{
    let d = 100 * sample_rate;
    assert(0int * freq_chz == 0) by (nonlinear_arith);
    lemma_div_by_self(d);
}

/// A quarter of the way into the cycle the square wave still sits at its
/// peak: with `phase * freq_chz` equal to a quarter of `100 * sample_rate`,
/// the output equals the phase-zero output `+AMPLITUDE` — the sign flip
/// happens only at the half-way point.
pub proof fn lemma_square_same_sign_at_quarter_cycle(
    phase: int,
    sample_rate: int,
    freq_chz: int,
    table: Seq<i64>,
)
    requires
        1 <= sample_rate,
        0 <= phase,
        0 <= freq_chz,
        4 * (phase * freq_chz) == 100 * sample_rate,
    ensures
        spec_sample(WaveFunction::Square, phase, sample_rate, freq_chz, table) == spec_sample(
            WaveFunction::Square,
            0,
            sample_rate,
            freq_chz,
            table,
        ),
        spec_sample(WaveFunction::Square, phase, sample_rate, freq_chz, table) == AMPLITUDE as int,
{
    let d = 100 * sample_rate;
    let n = phase * freq_chz;
    assert(0int * freq_chz == 0) by (nonlinear_arith);
    assert(2 * n < d);
    lemma_basic_div_specific_divisor(d);
}

} // verus!
