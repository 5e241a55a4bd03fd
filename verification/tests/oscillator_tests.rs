use little_weirdo::synth::wavetable_oscillator::{
    WaveTableLoFreqOscillatorConfig, WaveTableOscillator, WaveTableOscillatorConfig,
};
use little_weirdo::synth::wavetables::{BoxedWavetable, BoxedWavetables};
use little_weirdo::synth::Clockable;
use std::sync::Arc;

fn square_table_bytes() -> Vec<u8> {
    // 600 samples: +12000 for the first half cycle, -12000 for the second
    let mut bytes: Vec<u8> = Vec::new();
    for i in 0..600 {
        let sample: i16 = if i < 300 { 12000 } else { -12000 };
        let le = sample.to_le_bytes();
        bytes.push(le[0]);
        bytes.push(le[1]);
    }
    bytes
}

fn store() -> Arc<BoxedWavetables> {
    let mut wt = BoxedWavetables::new();
    let bytes = square_table_bytes();
    wt.add(BoxedWavetable::new(&bytes));
    Arc::new(wt)
}

fn config() -> WaveTableOscillatorConfig {
    WaveTableOscillatorConfig {
        soundbank_index: 0,
        glide: false,
        glide_rate: 0,
        detune: 0,
        freq_detune: 0,
    }
}

#[test]
fn oscillator_emits_wavetable_samples() {
    let mut osc = WaveTableOscillator::new(config(), 44100, store());
    let mut seen_high = false;
    let mut seen_low = false;
    for _ in 0..2000 {
        let s = osc.clock(None);
        assert!(s == 12000 || s == -12000);
        if s == 12000 {
            seen_high = true;
        }
        if s == -12000 {
            seen_low = true;
        }
    }
    assert!(seen_high && seen_low);
}

#[test]
fn change_freq_is_immediate_without_glide() {
    let mut osc = WaveTableOscillator::new(config(), 44100, store());
    osc.change_freq(880);
    assert_eq!(osc.current_freq, 880);
    assert_eq!(osc.target_freq, 880);
    assert_eq!(osc.original_freq, 880);
}

#[test]
fn change_freq_glides_toward_target() {
    let cfg = WaveTableOscillatorConfig { glide: true, glide_rate: 10, ..config() };
    let mut osc = WaveTableOscillator::new(cfg, 44100, store());
    osc.change_freq(940);
    // with glide the running frequency stays put until cycles elapse
    assert_eq!(osc.current_freq, 440);
    assert_eq!(osc.target_freq, 940);
    assert_eq!(osc.freq_step, 50);
    for _ in 0..44100 {
        osc.clock(None);
    }
    // after a second of audio the glide has finished
    assert_eq!(osc.current_freq, 940);
}

#[test]
fn one_hertz_glide_still_terminates() {
    // distance 1 truncates to zero under the rate and under halving;
    // the step falls back to the distance itself
    let cfg = WaveTableOscillatorConfig { glide: true, glide_rate: 10, ..config() };
    let mut osc = WaveTableOscillator::new(cfg, 44100, store());
    osc.change_freq(441);
    assert_eq!(osc.freq_step, 1);
    for _ in 0..1000 {
        osc.clock(None);
    }
    assert_eq!(osc.current_freq, 441);
    assert!(!osc.freq_changed);
}

#[test]
fn zero_glide_rate_is_treated_as_glide_disabled() {
    let cfg = WaveTableOscillatorConfig { glide: true, glide_rate: 0, ..config() };
    let mut osc = WaveTableOscillator::new(cfg, 44100, store());
    osc.change_freq(880);
    assert_eq!(osc.current_freq, 880);
}

#[test]
fn manipulate_freq_is_transient_and_non_accumulating() {
    let mut osc = WaveTableOscillator::new(config(), 44100, store());
    osc.manipulate_freq(50, 1000);
    assert_eq!(osc.current_freq, 440 + 500);
    // recomputed per call relative to the last requested frequency
    osc.manipulate_freq(10, 1000);
    assert_eq!(osc.current_freq, 440 + 100);
}

#[test]
fn noise_source_stays_in_range_and_varies() {
    let cfg = WaveTableOscillatorConfig { soundbank_index: 255, ..config() };
    let mut osc = WaveTableOscillator::new(cfg, 44100, store());
    let mut distinct = false;
    let first = osc.clock(None);
    for _ in 0..500 {
        let s = osc.clock(None);
        assert!(s >= i16::MIN + 1000 && s < i16::MAX - 1000);
        if s != first {
            distinct = true;
        }
    }
    assert!(distinct);
}

#[test]
fn lfo_updates_once_per_speed_samples() {
    let lfo_cfg = WaveTableLoFreqOscillatorConfig { soundbank_index: 0, time: 5 };
    let mut osc = WaveTableOscillator::new_lfo(lfo_cfg, 44100, store());
    assert_eq!(osc.speed, 20);
    let first = osc.clock(None);
    for _ in 0..18 {
        // held between updates
        assert_eq!(osc.clock(None), first);
    }
}

#[test]
fn wavetable_decodes_little_endian_pairs() {
    let bytes = square_table_bytes();
    let wt = BoxedWavetable::new(&bytes);
    assert_eq!(wt.data.len(), 600);
    assert_eq!(wt.data[0], 12000);
    assert_eq!(wt.data[299], 12000);
    assert_eq!(wt.data[300], -12000);
    assert_eq!(wt.data[599], -12000);
}
