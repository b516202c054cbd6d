use midisynth::render::write_data;
use midisynth::wave::SineTable;
use midisynth::wave::WaveFunction;
use midisynth::wave::AMPLITUDE;
use midisynth::wavegen::WaveGen;

fn four_point_table() -> SineTable {
    SineTable::new(vec![0, AMPLITUDE, 0, -AMPLITUDE]).unwrap()
}

#[test]
fn renders_exactly_frame_count_times_channels_samples() {
    let table = four_point_table();
    let mut g = WaveGen::new(WaveFunction::Sine, 48000, 40000).unwrap();
    let out = write_data(&mut g, &table, 40000, 256, 2);
    assert_eq!(out.len(), 512);
}

#[test]
fn every_channel_of_a_frame_holds_the_same_sample() {
    let table = four_point_table();
    let mut g = WaveGen::new(WaveFunction::Triangle, 48000, 40000).unwrap();
    let out = write_data(&mut g, &table, 40000, 256, 2);
    for frame in out.chunks(2) {
        assert_eq!(frame[0], frame[1]);
    }
}

#[test]
fn four_channels_fan_out_identically() {
    let table = four_point_table();
    let mut g = WaveGen::new(WaveFunction::Sawtooth, 100, 2500).unwrap();
    let out = write_data(&mut g, &table, 2500, 8, 4);
    assert_eq!(out.len(), 32);
    for frame in out.chunks(4) {
        assert_eq!(frame[0], frame[1]);
        assert_eq!(frame[0], frame[2]);
        assert_eq!(frame[0], frame[3]);
    }
}

#[test]
fn zero_frames_render_an_empty_buffer() {
    let table = four_point_table();
    let mut g = WaveGen::new(WaveFunction::Square, 48000, 40000).unwrap();
    let out = write_data(&mut g, &table, 40000, 0, 2);
    assert!(out.is_empty());
}

#[test]
fn phase_continues_across_buffers_when_the_frequency_is_unchanged() {
    // Rendering 4 sawtooth samples in one pass equals rendering them in two
    // passes at the same target frequency: no needless phase reset.
    let table = four_point_table();
    let mut one_pass = WaveGen::new(WaveFunction::Sawtooth, 100, 2500).unwrap();
    let whole = write_data(&mut one_pass, &table, 2500, 4, 1);
    let mut two_passes = WaveGen::new(WaveFunction::Sawtooth, 100, 2500).unwrap();
    let mut halves = write_data(&mut two_passes, &table, 2500, 2, 1);
    halves.extend(write_data(&mut two_passes, &table, 2500, 2, 1));
    assert_eq!(whole, halves);
    assert_eq!(whole, vec![-AMPLITUDE, -AMPLITUDE / 2, 0, AMPLITUDE / 2]);
}

#[test]
fn a_changed_frequency_restarts_the_cycle() {
    let table = four_point_table();
    let mut g = WaveGen::new(WaveFunction::Sawtooth, 100, 2500).unwrap();
    let _ = write_data(&mut g, &table, 2500, 3, 1);
    // The retune resets the phase: the next buffer starts at the trough.
    let out = write_data(&mut g, &table, 5000, 2, 1);
    assert_eq!(out[0], -AMPLITUDE);
    assert_eq!(g.get_freq(), 5000);
}

#[test]
fn rendered_samples_scale_into_device_range() {
    // Scaled by the fixed-point unit, every rendered sample lies within the
    // audio interface's [-1.0, 1.0], at the 0.25 peak amplitude.
    let table = four_point_table();
    let mut g = WaveGen::new(WaveFunction::SineMag, 44100, 44000).unwrap();
    let out = write_data(&mut g, &table, 44000, 441, 2);
    for s in out {
        let scaled = s as f32 / 65536.0;
        assert!((-0.25..=0.25).contains(&scaled));
    }
}
