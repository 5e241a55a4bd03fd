use little_weirdo::synth::bitcrunch::BitcrunchConfiguration;
use little_weirdo::synth::envelope::EnvelopConfiguration;
use little_weirdo::synth::filter::{FilterConfig, KindOfFilter};
use little_weirdo::synth::mixer::MixerConfiguration;
use little_weirdo::synth::overdrive::{KindOfOverdrive, OverdriveConfiguration};
use little_weirdo::synth::patch::{patch_is_valid, Patch, SynthConfiguration, SynthMode};
use little_weirdo::synth::router::{RoutingConfiguration, VoiceToLFORoute};
use little_weirdo::synth::wavetable_oscillator::{
    WaveTableLoFreqOscillatorConfig, WaveTableOscillatorConfig,
};
use little_weirdo::synth::wavetables::{BoxedWavetable, BoxedWavetables};
use little_weirdo::synth::Synth;
use std::sync::Arc;

fn square_table_bytes() -> Vec<u8> {
    let mut bytes: Vec<u8> = Vec::new();
    for i in 0..600 {
        let sample: i16 = if i < 300 { 12000 } else { -12000 };
        let le = sample.to_le_bytes();
        bytes.push(le[0]);
        bytes.push(le[1]);
    }
    bytes
}

fn store() -> Arc<BoxedWavetables> {
    let mut wt = BoxedWavetables::new();
    let bytes = square_table_bytes();
    wt.add(BoxedWavetable::new(&bytes));
    Arc::new(wt)
}

fn bass_patch(mode: SynthMode) -> Patch {
    let voice = WaveTableOscillatorConfig {
        soundbank_index: 0,
        glide: false,
        glide_rate: 0,
        detune: 0,
        freq_detune: 0,
    };
    let env = EnvelopConfiguration {
        attack_time: 100,
        decay_time: 10,
        release_time: 100,
        sustain_level: 80,
    };
    let lfo = WaveTableLoFreqOscillatorConfig { soundbank_index: 0, time: 5 };
    Patch {
        voices: [voice; 8],
        envelops: [env; 8],
        lfos: [lfo; 4],
        filter_config: FilterConfig {
            cutoff_frequency: 60000,
            resonance: 0,
            kind_of_filter: KindOfFilter::Low,
            enabled: false,
        },
        mixer_config: MixerConfiguration { gain_voices: [10; 8], gain_main: 50 },
        overdrive_config: OverdriveConfiguration {
            threshold: 8000,
            kind: KindOfOverdrive::Hard,
            enabled: false,
        },
        bitcrunch_config: BitcrunchConfiguration { enabled: false },
        routering_config: RoutingConfiguration {
            voices_to_envelop: [0, 1, 2, 3, 4, 5, 6, 7],
            lfo_to_voice: [VoiceToLFORoute { voices: [255, 255], enable: false }; 4],
            lfo_to_filter: false,
            lfo_to_freq: false,
            lfo_to_freq_amount: 0,
        },
        synth_config: SynthConfiguration { mode },
    }
}

#[test]
fn note_on_then_clock_returns_equal_channels() {
    let wt = store();
    let patch = bass_patch(SynthMode::Mono);
    assert!(patch_is_valid(&patch, 44100, &wt));
    let mut synth = Synth::new(44100, &patch, wt);
    for note in 24..=108u8 {
        synth.note_on(note, 100);
        let out = synth.clock_and_output();
        assert_eq!(out[0], out[1]);
        synth.note_off(note);
    }
}

#[test]
fn out_of_range_notes_are_dropped() {
    let wt = store();
    let patch = bass_patch(SynthMode::Mono);
    let mut synth = Synth::new(44100, &patch, wt);
    synth.note_on(23, 100);
    synth.note_on(109, 100);
    synth.note_on(0, 100);
    for i in 0..8 {
        assert_eq!(synth.active_note[i], 0);
        assert!(!synth.envelops[i].gate);
    }
}

#[test]
fn mono_note_occupies_all_eight_pairs() {
    let wt = store();
    let patch = bass_patch(SynthMode::Mono);
    let mut synth = Synth::new(44100, &patch, wt);
    synth.note_on(60, 100);
    assert_eq!(synth.active_note[0], 60);
    for i in 0..8 {
        assert!(synth.envelops[i].gate);
    }
}

#[test]
fn octopoly_allows_eight_notes_and_drops_the_ninth() {
    let wt = store();
    let patch = bass_patch(SynthMode::OctoPoly);
    let mut synth = Synth::new(44100, &patch, wt);
    for (slot, note) in (40..48u8).enumerate() {
        synth.note_on(note, 100);
        assert_eq!(synth.active_note[slot], note);
        assert!(synth.envelops[slot].gate);
    }
    let before = synth.active_note;
    synth.note_on(60, 100);
    // voice exhaustion: the ninth distinct note is dropped, no stealing
    assert_eq!(synth.active_note, before);
    for i in 0..8 {
        assert_ne!(synth.active_note[i], 60);
    }
}

#[test]
fn note_off_releases_only_the_matching_note() {
    let wt = store();
    let patch = bass_patch(SynthMode::OctoPoly);
    let mut synth = Synth::new(44100, &patch, wt);
    synth.note_on(60, 100);
    synth.note_on(64, 100);
    synth.note_off(72);
    assert_eq!(synth.active_note[0], 60);
    assert_eq!(synth.active_note[1], 64);
    synth.note_off(60);
    assert_eq!(synth.active_note[0], 0);
    assert_eq!(synth.active_note[1], 64);
    assert!(!synth.envelops[0].gate);
    assert!(synth.envelops[1].gate);
}

#[test]
fn runtime_knobs_change_configuration_directly() {
    let wt = store();
    let patch = bass_patch(SynthMode::Mono);
    let mut synth = Synth::new(44100, &patch, wt);
    synth.change_main_volume(70);
    assert_eq!(synth.mixer.config.gain_main, 70);
    synth.change_cutoff(100);
    assert_eq!(synth.filter.config.cutoff_frequency, 25500);
    synth.change_resonance(10);
    assert_eq!(synth.filter.config.resonance, 2550);
}

#[test]
fn load_patch_swaps_configuration_in_place() {
    let wt = store();
    let patch = bass_patch(SynthMode::Mono);
    assert!(patch_is_valid(&patch, 44100, &wt));
    let mut synth = Synth::new(44100, &patch, Arc::clone(&wt));
    let mut second = bass_patch(SynthMode::OctoPoly);
    second.mixer_config.gain_main = 33;
    second.envelops[0].sustain_level = 55;
    assert!(patch_is_valid(&second, 44100, &wt));
    second.routering_config.voices_to_envelop = [7, 6, 5, 4, 3, 2, 1, 0];
    second.bitcrunch_config.enabled = true;
    second.lfos[2].time = 9;
    assert!(patch_is_valid(&second, 44100, &wt));
    synth.load_patch(&second);
    assert_eq!(synth.mode, SynthMode::OctoPoly);
    assert_eq!(synth.mixer.config.gain_main, 33);
    assert_eq!(synth.envelops[0].configuration.sustain_level, 55);
    // every sub-component takes the new patch: router, bitcrunch and the
    // LFO update dividers included
    assert_eq!(synth.router.config.voices_to_envelop, [7, 6, 5, 4, 3, 2, 1, 0]);
    assert!(synth.bitcrunch.config.enabled);
    assert_eq!(synth.lfo[2].speed, 36);
}

#[test]
fn invalid_patches_are_rejected_by_validation() {
    let wt = store();
    let good = bass_patch(SynthMode::Mono);
    assert!(patch_is_valid(&good, 44100, &wt));
    let mut bad_gain = good;
    bad_gain.mixer_config.gain_main = 101;
    assert!(!patch_is_valid(&bad_gain, 44100, &wt));
    let mut bad_index = good;
    bad_index.voices[3].soundbank_index = 7;
    assert!(!patch_is_valid(&bad_index, 44100, &wt));
    let mut bad_detune = good;
    bad_detune.voices[0].detune = -30;
    assert!(!patch_is_valid(&bad_detune, 44100, &wt));
    let mut bad_env = good;
    bad_env.envelops[2].sustain_level = 150;
    assert!(!patch_is_valid(&bad_env, 44100, &wt));
    let mut bad_route = good;
    bad_route.routering_config.voices_to_envelop[5] = 8;
    assert!(!patch_is_valid(&bad_route, 44100, &wt));
    let mut bad_lfo = good;
    bad_lfo.lfos[1].time = 0;
    assert!(!patch_is_valid(&bad_lfo, 44100, &wt));
    let mut bad_threshold = good;
    bad_threshold.overdrive_config.threshold = -1;
    assert!(!patch_is_valid(&bad_threshold, 44100, &wt));
}

#[test]
fn post_release_energy_strictly_decreases() {
    // Scenario: one second of a held note, then one second after release.
    let wt = store();
    let patch = bass_patch(SynthMode::Mono);
    assert!(patch_is_valid(&patch, 44100, &wt));
    let mut synth = Synth::new(44100, &patch, wt);
    synth.note_on(60, 100);
    let mut sustain_energy: u64 = 0;
    for i in 0..44100 {
        let out = synth.clock_and_output();
        if i >= 34100 {
            // the last 10,000 samples of the held second
            sustain_energy += (out[0] as i64 * out[0] as i64) as u64;
        }
    }
    synth.note_off(60);
    let mut release_energy: u64 = 0;
    for i in 0..44100 {
        let out = synth.clock_and_output();
        if i >= 34100 {
            // the last 10,000 samples after release
            release_energy += (out[0] as i64 * out[0] as i64) as u64;
        }
    }
    assert!(sustain_energy > 0);
    assert!(release_energy < sustain_energy);
}
