//! Patch: the sole external configuration contract. A patch aggregates the
//! per-voice, per-LFO and effect configurations and is applied wholesale.

use vstd::prelude::*;

use crate::synth::bitcrunch::BitcrunchConfiguration;
use crate::synth::envelope::{env_config_valid, EnvelopConfiguration};
use crate::synth::filter::FilterConfig;
use crate::synth::frequencies::{note_frequency, spec_note_frequency, NOTE_TABLE_LEN};
use crate::synth::mixer::{mixer_config_valid, MixerConfiguration};
use crate::synth::overdrive::{overdrive_config_valid, OverdriveConfiguration};
use crate::synth::router::{routing_config_valid, RoutingConfiguration};
use crate::synth::wavetable_oscillator::{
    WaveTableLoFreqOscillatorConfig, WaveTableOscillatorConfig, MAX_OSC_FREQ,
    NOISE_SOUNDBANK_INDEX,
};
use crate::synth::wavetables::BoxedWavetables;

verus! {

/// Lowest MIDI note the synthesizer accepts.
pub const LOWEST_NOTE: u8 = 24;

/// Highest MIDI note the synthesizer accepts.
pub const HIGHEST_NOTE: u8 = 108;

/// How many oscillator/envelope pairs one played note consumes.
#[derive(Clone, Copy, PartialEq, Eq, Structural, Debug)]
pub enum SynthMode {
    /// One note drives all eight voices.
    Mono,
    /// One note drives four voices; two distinct notes sound at once.
    BiPoly,
    /// One note drives two voices; four distinct notes sound at once.
    QuadPoly,
    /// One note drives one voice; eight distinct notes sound at once.
    OctoPoly,
}

/// The number of oscillator/envelope pairs one played note consumes under
/// a mode.
pub open spec fn spec_voices_per_note(m: SynthMode) -> int {
    match m {
        SynthMode::Mono => 8,
        SynthMode::BiPoly => 4,
        SynthMode::QuadPoly => 2,
        SynthMode::OctoPoly => 1,
    }
}

impl SynthMode {
    /// The number of oscillator/envelope pairs one played note consumes.
    pub fn voices_per_note(self) -> (r: usize)
        ensures
            r == spec_voices_per_note(self),
            r == 1 || r == 2 || r == 4 || r == 8,
    {
        match self {
            SynthMode::Mono => 8,
            SynthMode::BiPoly => 4,
            SynthMode::QuadPoly => 2,
            SynthMode::OctoPoly => 1,
        }
    }
}

/// Top-level synthesizer configuration.
#[derive(Clone, Copy, Debug)]
pub struct SynthConfiguration {
    pub mode: SynthMode,
}

/// The aggregate configuration contract: eight oscillator configurations,
/// eight envelope configurations, four LFO configurations, and one
/// configuration for each effect, the mixer, the router and the mode.
#[derive(Clone, Copy)]
pub struct Patch {
    pub voices: [WaveTableOscillatorConfig; 8],
    pub envelops: [EnvelopConfiguration; 8],
    pub lfos: [WaveTableLoFreqOscillatorConfig; 4],
    pub filter_config: FilterConfig,
    pub mixer_config: MixerConfiguration,
    pub overdrive_config: OverdriveConfiguration,
    pub bitcrunch_config: BitcrunchConfiguration,
    pub routering_config: RoutingConfiguration,
    pub synth_config: SynthConfiguration,
}

/// A voice configuration is playable at `sample_rate` when its table index
/// is valid for the store, its semitone detune keeps every accepted note
/// inside the frequency table, and every resulting frequency lies in the
/// range the oscillator runs at.
pub open spec fn voice_config_valid(
    c: WaveTableOscillatorConfig,
    sample_rate: u16,
    table_count: int,
) -> bool {
    &&& c.soundbank_index == NOISE_SOUNDBANK_INDEX || (c.soundbank_index as int) < table_count
    &&& LOWEST_NOTE + c.detune >= 0
    &&& HIGHEST_NOTE + c.detune < NOTE_TABLE_LEN
    &&& forall|n: int|
        LOWEST_NOTE <= n <= HIGHEST_NOTE ==> {
            &&& 1 <= #[trigger] spec_note_frequency(n + c.detune) + c.freq_detune <= MAX_OSC_FREQ
            &&& sample_rate as int / (spec_note_frequency(n + c.detune) + c.freq_detune) <= 2999
        }
}

/// An LFO configuration is valid when its table index is valid for the
/// store and its period control is nonzero and small enough that the
/// update divider fits.
pub open spec fn lfo_config_valid(c: WaveTableLoFreqOscillatorConfig, table_count: int) -> bool {
    &&& c.soundbank_index == NOISE_SOUNDBANK_INDEX || (c.soundbank_index as int) < table_count
    &&& 1 <= c.time <= 16383
}

/// A patch is valid for a sample rate and a wavetable store when every
/// sub-configuration is valid. Validity is checked at patch-load time,
/// never during audio processing.
pub open spec fn patch_valid(p: Patch, sample_rate: u16, table_count: int) -> bool {
    &&& forall|i: int|
        0 <= i < 8 ==> voice_config_valid(#[trigger] p.voices@[i], sample_rate, table_count)
    &&& forall|i: int| 0 <= i < 8 ==> env_config_valid(#[trigger] p.envelops@[i])
    &&& forall|i: int| 0 <= i < 4 ==> lfo_config_valid(#[trigger] p.lfos@[i], table_count)
    &&& mixer_config_valid(p.mixer_config)
    &&& routing_config_valid(p.routering_config)
    &&& overdrive_config_valid(p.overdrive_config)
}

/// Check one voice configuration against a sample rate and a store size.
fn check_voice_config(c: &WaveTableOscillatorConfig, sample_rate: u16, table_count: usize) -> (r:
    bool)
    requires
        table_count < 256,
    ensures
        r == voice_config_valid(*c, sample_rate, table_count as int),
{
    if !(c.soundbank_index == NOISE_SOUNDBANK_INDEX || (c.soundbank_index as usize)
        < table_count) {
        return false;
    }
    if (LOWEST_NOTE as i16) + (c.detune as i16) < 0 {
        return false;
    }
    if (HIGHEST_NOTE as i16) + (c.detune as i16) >= NOTE_TABLE_LEN as i16 {
        return false;
    }
    let mut n: u16 = LOWEST_NOTE as u16;
    while n <= HIGHEST_NOTE as u16
        invariant
            LOWEST_NOTE <= n <= HIGHEST_NOTE + 1,
            0 <= LOWEST_NOTE + c.detune,
            HIGHEST_NOTE + c.detune < NOTE_TABLE_LEN,
            forall|m: int|
                LOWEST_NOTE <= m < n ==> {
                    &&& 1 <= #[trigger] spec_note_frequency(m + c.detune) + c.freq_detune
                        <= MAX_OSC_FREQ
                    &&& sample_rate as int / (spec_note_frequency(m + c.detune) + c.freq_detune)
                        <= 2999
                },
        decreases HIGHEST_NOTE + 1 - n,
    {
        let idx: i16 = n as i16 + c.detune as i16;
        let base: u16 = note_frequency(idx as usize);
        let f: i32 = base as i32 + c.freq_detune as i32;
        if f < 1 || f > MAX_OSC_FREQ as i32 {
            return false;
        }
        if sample_rate as u32 / (f as u32) > 2999 {
            return false;
        }
        n = n + 1;
    }
    true
}

/// Check a whole patch against a sample rate and a wavetable store, as
/// `patch_valid` states it. Call this before handing the patch to a
/// synthesizer.
pub fn patch_is_valid(p: &Patch, sample_rate: u16, wavetables: &BoxedWavetables) -> (r: bool)
    requires
        wavetables.data@.len() < 256,
    ensures
        r == patch_valid(*p, sample_rate, wavetables.data@.len() as int),
{
    let table_count: usize = wavetables.data.len();
    let mut i: usize = 0;
    while i < 8
        invariant
            i <= 8,
            table_count == wavetables.data@.len(),
            table_count < 256,
            forall|j: int|
                0 <= j < i ==> voice_config_valid(
                    #[trigger] p.voices@[j],
                    sample_rate,
                    table_count as int,
                ),
        decreases 8 - i,
    {
        if !check_voice_config(&p.voices[i], sample_rate, table_count) {
            return false;
        }
        i = i + 1;
    }
    let mut i: usize = 0;
    while i < 8
        invariant
            i <= 8,
            forall|j: int| 0 <= j < i ==> env_config_valid(#[trigger] p.envelops@[j]),
        decreases 8 - i,
    {
        let e = p.envelops[i];
        if e.attack_time < 0 || e.decay_time < 0 || e.release_time < 0 || e.sustain_level < 0
            || e.sustain_level > 100 {
            return false;
        }
        i = i + 1;
    }
    let mut i: usize = 0;
    while i < 4
        invariant
            i <= 4,
            table_count == wavetables.data@.len(),
            table_count < 256,
            forall|j: int|
                0 <= j < i ==> lfo_config_valid(#[trigger] p.lfos@[j], table_count as int),
        decreases 4 - i,
    {
        let c = p.lfos[i];
        if !(c.soundbank_index == NOISE_SOUNDBANK_INDEX || (c.soundbank_index as usize)
            < table_count) {
            return false;
        }
        if c.time < 1 || c.time > 16383 {
            return false;
        }
        i = i + 1;
    }
    let mut i: usize = 0;
    while i < 8
        invariant
            i <= 8,
            forall|j: int| 0 <= j < i ==> #[trigger] p.mixer_config.gain_voices@[j] <= 100,
        decreases 8 - i,
    {
        if p.mixer_config.gain_voices[i] > 100 {
            return false;
        }
        i = i + 1;
    }
    if p.mixer_config.gain_main > 100 {
        return false;
    }
    let mut i: usize = 0;
    while i < 8
        invariant
            i <= 8,
            forall|j: int| 0 <= j < i ==> #[trigger] p.routering_config.voices_to_envelop@[j] < 8,
        decreases 8 - i,
    {
        if p.routering_config.voices_to_envelop[i] >= 8 {
            return false;
        }
        i = i + 1;
    }
    let mut i: usize = 0;
    while i < 4
        invariant
            i <= 4,
            forall|j: int, k: int|
                0 <= j < i && 0 <= k < 2 ==> #[trigger] p.routering_config.lfo_to_voice@[j].voices@[k]
                    == crate::synth::router::UNROUTED
                    || p.routering_config.lfo_to_voice@[j].voices@[k] < 8,
        decreases 4 - i,
    {
        let route = p.routering_config.lfo_to_voice[i];
        if !(route.voices[0] == crate::synth::router::UNROUTED || route.voices[0] < 8) {
            return false;
        }
        if !(route.voices[1] == crate::synth::router::UNROUTED || route.voices[1] < 8) {
            return false;
        }
        i = i + 1;
    }
    if p.routering_config.lfo_to_freq_amount
        > crate::synth::wavetable_oscillator::MAX_FREQ_MANIPULATION {
        return false;
    }
    if p.overdrive_config.threshold < 0 {
        return false;
    }
    true
}

} // verus!
