use crate::wave::spec_sample;
use crate::wave::valid_frequency;
use crate::wave::SineTable;
use crate::wave::AMPLITUDE;
use crate::wavegen::WaveGen;
use vstd::arithmetic::div_mod::lemma_add_mod_noop;
use vstd::arithmetic::div_mod::lemma_mod_twice;
use vstd::arithmetic::div_mod::lemma_small_mod;
use vstd::prelude::*;

verus! {

/// Largest number of frames accepted in one render pass.
pub const MAX_FRAME_COUNT: usize = 1_048_576;

/// Largest number of interleaved output channels accepted.
pub const MAX_CHANNELS: usize = 256;

/// The phase count frame `i` of a render pass is sampled at, when the pass
/// starts at phase `start`: the accumulator advances by one per frame and
/// wraps at the sample rate.
pub open spec fn spec_phase_at(start: int, i: int, sample_rate: int) -> int {
    (start + i) % sample_rate
}

/// The phase the oscillator starts a render pass at, for a target frequency
/// read from the shared control cell: unchanged when the target already is
/// the oscillator's own frequency, zero when the pass begins with a retune.
pub open spec fn spec_start_clock(g: WaveGen, target_chz: u32) -> int {
    if g.frequency() == target_chz {
        g.sample_clock() as int
    } else {
        0
    }
}

/// One pass of the render callback: retunes the oscillator if the frequency
/// read from the shared control cell differs from its own — and only then,
/// so an unchanged control value never resets the phase — then renders
/// `frame_count` frames of `channels` interleaved samples, the one mono
/// sample of each frame copied to every channel.
///
/// The buffer holds exactly `frame_count * channels` samples, sample
/// `i * channels + c` is the waveform's value at the `i`-th phase count of
/// the pass for every channel `c`, every sample is within the peak level,
/// and the oscillator leaves the pass at the target frequency with its
/// phase advanced by `frame_count`, ready for the next callback.
#[verifier::loop_isolation(false)]
pub fn write_data(
    gen: &mut WaveGen,
    table: &SineTable,
    target_chz: u32,
    frame_count: usize,
    channels: usize,
) -> (out: Vec<i64>)
    requires
        old(gen).wf(),
        table.wf(),
        valid_frequency(target_chz),
        1 <= channels <= MAX_CHANNELS,
        frame_count <= MAX_FRAME_COUNT,
    ensures
        final(gen).wf(),
        final(gen).function() == old(gen).function(),
        final(gen).sample_rate() == old(gen).sample_rate(),
        final(gen).frequency() == target_chz,
        final(gen).sample_clock() == spec_phase_at(
            spec_start_clock(*old(gen), target_chz),
            frame_count as int,
            old(gen).sample_rate() as int,
        ),
        out@.len() == frame_count * channels,
        forall|i: int, c: int|
            0 <= i < frame_count && 0 <= c < channels ==> #[trigger] out@[i * channels + c] == spec_sample(
                old(gen).function(),
                spec_phase_at(
                    spec_start_clock(*old(gen), target_chz),
                    i,
                    old(gen).sample_rate() as int,
                ),
                old(gen).sample_rate() as int,
                target_chz as int,
                table@,
            ),
        forall|k: int| 0 <= k < out@.len() ==> -AMPLITUDE <= #[trigger] out@[k] <= AMPLITUDE,
{
    if gen.get_freq() != target_chz {
        gen.change_freq(target_chz);
    }
    let ghost start: int = spec_start_clock(*old(gen), target_chz);
    let ghost sr: int = old(gen).sample_rate() as int;
    proof {
        lemma_small_mod(start as nat, sr as nat);
    }
    let mut out: Vec<i64> = Vec::new();
    let mut i: usize = 0;
    while i < frame_count
        invariant
            i <= frame_count,
            gen.wf(),
            gen.function() == old(gen).function(),
            gen.sample_rate() == old(gen).sample_rate(),
            gen.frequency() == target_chz,
            gen.sample_clock() == spec_phase_at(start, i as int, sr),
            out@.len() == i * channels,
            forall|k: int, c: int|
                0 <= k < i && 0 <= c < channels ==> #[trigger] out@[k * channels + c] == spec_sample(
                    old(gen).function(),
                    spec_phase_at(start, k, sr),
                    sr,
                    target_chz as int,
                    table@,
                ),
            forall|k: int| 0 <= k < out@.len() ==> -AMPLITUDE <= #[trigger] out@[k] <= AMPLITUDE,
        decreases frame_count - i,
    {
        let ghost clock_before: int = gen.sample_clock() as int;
        let s: i64 = gen.step(table);
        let mut c: usize = 0;
        while c < channels
            invariant
                c <= channels,
                i < frame_count,
                out@.len() == i * channels + c,
                gen.wf(),
                gen.function() == old(gen).function(),
                gen.sample_rate() == old(gen).sample_rate(),
                gen.frequency() == target_chz,
                gen.sample_clock() == ((clock_before + 1) % sr),
                forall|k: int, cc: int|
                    0 <= k < i && 0 <= cc < channels ==> #[trigger] out@[k * channels + cc] == spec_sample(
                        old(gen).function(),
                        spec_phase_at(start, k, sr),
                        sr,
                        target_chz as int,
                        table@,
                    ),
                forall|cc: int| 0 <= cc < c ==> #[trigger] out@[i * channels + cc] == s,
                forall|k: int| 0 <= k < out@.len() ==> -AMPLITUDE <= #[trigger] out@[k] <= AMPLITUDE,
            decreases channels - c,
        {
            out.push(s);
            proof {
                assert forall|k: int, cc: int|
                    0 <= k < i && 0 <= cc < channels implies #[trigger] out@[k * channels + cc]
                    == spec_sample(
                    old(gen).function(),
                    spec_phase_at(start, k, sr),
                    sr,
                    target_chz as int,
                    table@,
                ) by {
                    assert(k * channels + cc < i * channels) by (nonlinear_arith)
                        requires
                            0 <= k < i as int,
                            0 <= cc < channels as int,
                    ;
                }
            }
            c = c + 1;
        }
        proof {
            assert forall|k: int, cc: int|
                0 <= k < i + 1 && 0 <= cc < channels implies #[trigger] out@[k * channels + cc]
                == spec_sample(
                old(gen).function(),
                spec_phase_at(start, k, sr),
                sr,
                target_chz as int,
                table@,
            ) by {
                if k < i {
                    assert(k * channels + cc < i * channels) by (nonlinear_arith)
                        requires
                            0 <= k < i as int,
                            0 <= cc < channels as int,
                    ;
                } else {
                    assert(out@[i as int * channels + cc] == s);
                }
            }
            assert((i + 1) as int * channels == i as int * channels + channels) by (
            nonlinear_arith);
            lemma_add_mod_noop(start + i, 1, sr);
            lemma_mod_twice(start + i, sr);
            if sr > 1 {
                lemma_small_mod(1nat, sr as nat);
            } else {
                lemma_small_mod(0nat, 1nat);
                assert(clock_before == 0);
                assert((clock_before + 1) % sr == 0) by (nonlinear_arith)
                    requires
                        sr == 1,
                        clock_before == 0,
                ;
                assert((start + (i + 1)) % sr == 0) by (nonlinear_arith)
                    requires
                        sr == 1,
                ;
            }
            assert(gen.sample_clock() == spec_phase_at(start, i + 1, sr));
        }
        i = i + 1;
    }
    out
}

/// Mono fan-out: within any frame of a rendered buffer, every channel holds
/// the same sample — the render pass computes one value per frame and
/// copies it to each channel, so no channel can ever diverge from another.
pub proof fn lemma_frame_channels_equal(
    out: Seq<i64>,
    g: WaveGen,
    target_chz: u32,
    table: Seq<i64>,
    frame_count: int,
    channels: int,
)
    requires
        forall|i: int, c: int|
            0 <= i < frame_count && 0 <= c < channels ==> #[trigger] out[i * channels + c] == spec_sample(
                g.function(),
                spec_phase_at(spec_start_clock(g, target_chz), i, g.sample_rate() as int),
                g.sample_rate() as int,
                target_chz as int,
                table,
            ),
    ensures
        forall|i: int, c1: int, c2: int|
            0 <= i < frame_count && 0 <= c1 < channels && 0 <= c2 < channels ==> #[trigger] out[i
                * channels + c1] == #[trigger] out[i * channels + c2],
{
    assert forall|i: int, c1: int, c2: int|
        0 <= i < frame_count && 0 <= c1 < channels && 0 <= c2 < channels implies #[trigger] out[i
        * channels + c1] == #[trigger] out[i * channels + c2] by {
        assert(out[i * channels + c1] == spec_sample(
            g.function(),
            spec_phase_at(spec_start_clock(g, target_chz), i, g.sample_rate() as int),
            g.sample_rate() as int,
            target_chz as int,
            table,
        ));
        assert(out[i * channels + c2] == spec_sample(
            g.function(),
            spec_phase_at(spec_start_clock(g, target_chz), i, g.sample_rate() as int),
            g.sample_rate() as int,
            target_chz as int,
            table,
        ));
    }
}

} // verus!
