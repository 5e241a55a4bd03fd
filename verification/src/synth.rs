//! The wavetable synthesizer engine: the orchestrator owning eight
//! oscillator/envelope pairs, four low-frequency oscillators and the fixed
//! effect chain, exposing the note/patch/clock interface.

pub mod bitcrunch;
pub mod effects;
pub mod envelope;
pub mod filter;
pub mod frequencies;
pub mod math;
pub mod mixer;
pub mod overdrive;
pub mod patch;
pub mod router;
pub mod sampler;
pub mod wavetable_oscillator;
pub mod wavetables;

use vstd::prelude::*;

use crate::synth::bitcrunch::{spec_bitcrunch, Bitcrunch};
use crate::synth::effects::Effect;
use crate::synth::envelope::EnvelopeGenerator;
use crate::synth::filter::{
    spec_buf0_after, spec_buf1_after, spec_feedback, spec_filter_output, Filter, FilterConfig,
};
use crate::synth::frequencies::note_frequency;
use crate::synth::math::{percentage, scaled_pct};
use crate::synth::mixer::{mixer_config_valid, Mixer, MixerConfiguration};
use crate::synth::overdrive::{overdrive_config_valid, spec_overdrive, Overdrive};
use crate::synth::patch::{
    patch_valid, spec_voices_per_note, voice_config_valid, Patch, SynthMode, HIGHEST_NOTE,
    LOWEST_NOTE,
};
use crate::synth::router::{routing_config_valid, Router, RoutingConfiguration};
use crate::synth::wavetable_oscillator::WaveTableOscillator;
use crate::synth::wavetables::{BoxedWavetables, Wavetables};
use std::sync::Arc;

verus! {

/// Number of voices available in the synthesizer.
pub const AMOUNT_OF_VOICES: usize = 8;

/// Number of low-frequency oscillators.
pub const AMOUNT_OF_LFOS: usize = 4;

/// Number of output channels (stereo).
pub const AMOUNT_OF_OUTPUT_CHANNELS: usize = 2;

/// Slot index returned when no voice slot could be found.
pub const NO_SLOT: usize = 255;

/// Components that are clocked once per audio sample.
pub trait Clockable {
    /// Internal invariant the component maintains across clocks.
    spec fn inv(&self) -> bool;

    /// Process one clock tick, optionally around a sample. The default
    /// hands the sample through and emits silence otherwise.
    fn clock(&mut self, sample: Option<i16>) -> (r: i16)
        requires
            old(self).inv(),
        ensures
            final(self).inv(),
    {
        match sample {
            Some(s) => s,
            None => 0,
        }
    }
}

/// The first index holding `x`, if any.
pub open spec fn spec_position(s: Seq<u8>, x: u8) -> Option<int>
    decreases s.len(),
{
    if s.len() == 0 {
        None
    } else if s[0] == x {
        Some(0int)
    } else {
        match spec_position(s.skip(1), x) {
            Some(p) => Some(p + 1),
            None => None,
        }
    }
}

/// What the first index holding `x` means: the entry there is `x` and no
/// earlier entry is.
pub proof fn lemma_position_props(s: Seq<u8>, x: u8)
    ensures
        match spec_position(s, x) {
            Some(p) => 0 <= p < s.len() && s[p] == x && (forall|j: int| 0 <= j < p ==> s[j] != x),
            None => forall|j: int| 0 <= j < s.len() ==> s[j] != x,
        },
    decreases s.len(),
{
    if s.len() > 0 && s[0] != x {
        lemma_position_props(s.skip(1), x);
        match spec_position(s.skip(1), x) {
            Some(p) => {
                assert(s.skip(1)[p] == s[p + 1]);
                assert forall|j: int| 0 <= j < p + 1 implies s[j] != x by {
                    if j > 0 {
                        assert(s.skip(1)[j - 1] == s[j]);
                    }
                }
            },
            None => {
                assert forall|j: int| 0 <= j < s.len() implies s[j] != x by {
                    if j > 0 {
                        assert(s.skip(1)[j - 1] == s[j]);
                    }
                }
            },
        }
    }
}

/// The slot a note lands in and the active-note table afterwards: an
/// already-sounding note retriggers in place; otherwise the first free
/// slot is taken if it lies within the mode's polyphony; otherwise the
/// note is dropped.
pub open spec fn spec_add_note(active: Seq<u8>, note: u8, amount: int) -> (Option<int>, Seq<u8>) {
    match spec_position(active, note) {
        Some(p) => (Some(p), active),
        None => match spec_position(active, 0) {
            Some(p) => if p < amount {
                (Some(p), active.update(p, note))
            } else {
                (None, active)
            },
            None => (None, active),
        },
    }
}

/// Law (voice allocation, one note): in a state with no sounding notes a
/// note lands in slot 0 whatever the polyphony, so under `Mono` (where one
/// note consumes all eight pairs and the polyphony is one slot) a note-on
/// occupies every oscillator/envelope pair.
pub proof fn lemma_fresh_note_takes_slot_zero(active: Seq<u8>, note: u8, amount: int)
    requires
        active.len() == 8,
        forall|i: int| 0 <= i < 8 ==> active[i] == 0,
        note != 0,
        amount >= 1,
    ensures
        spec_add_note(active, note, amount).0 == Some(0int),
        spec_add_note(active, note, amount).1 == active.update(0, note),
{
    lemma_position_props(active, note);
    lemma_position_props(active, 0);
    assert(active[0] == 0);
}

/// Law (voice allocation, exhaustion): with every slot holding some other
/// note, a further distinct note finds no slot and is dropped — no voice
/// stealing.
pub proof fn lemma_full_table_drops_note(active: Seq<u8>, note: u8, amount: int)
    requires
        active.len() == 8,
        forall|i: int| 0 <= i < 8 ==> active[i] != 0 && active[i] != note,
    ensures
        spec_add_note(active, note, amount).0 is None,
        spec_add_note(active, note, amount).1 == active,
{
    lemma_position_props(active, note);
    lemma_position_props(active, 0);
}

/// Law (voice allocation, polyphony): under full polyphony (one voice per
/// note, eight slots), when the first `k - 1` slots are taken and slot
/// `k - 1` is free, a note not yet sounding lands exactly in slot `k - 1`
/// and the other slots keep their notes — so eight distinct notes
/// allocate one after the other.
pub proof fn lemma_free_slot_allocates(active: Seq<u8>, note: u8, k: int)
    requires
        active.len() == 8,
        1 <= k <= 8,
        forall|i: int| 0 <= i < k - 1 ==> active[i] != 0,
        active[k - 1] == 0,
        forall|i: int| 0 <= i < 8 ==> active[i] != note,
    ensures
        spec_add_note(active, note, 8).0 == Some(k - 1),
        spec_add_note(active, note, 8).1 == active.update(k - 1, note),
{
    lemma_position_props(active, note);
    lemma_position_props(active, 0);
    match spec_position(active, 0) {
        Some(p) => {
            assert(0 <= p < 8);
            assert(p == k - 1);
        },
        None => {
            assert(active[k - 1] != 0);
        },
    }
}

/// The slot a note is removed from and the active-note table afterwards.
pub open spec fn spec_remove_note(active: Seq<u8>, note: u8) -> (Option<int>, Seq<u8>) {
    match spec_position(active, note) {
        Some(p) => (Some(p), active.update(p, 0)),
        None => (None, active),
    }
}

/// A bipolar oscillator sample mapped to a percentage 0..=100.
pub open spec fn spec_lfo_pct(s: i16) -> int {
    crate::synth::math::tdiv((s + 32767) * 100, 65535)
}

/// One voice's sample after the first `k` of the eight LFO-route slots
/// (four routes with two target entries each) have been applied in order.
pub open spec fn spec_routed_voice(
    cfg: RoutingConfiguration,
    lfo_pcts: Seq<int>,
    v: int,
    i: int,
    k: int,
) -> int
    decreases k,
{
    if k <= 0 {
        v
    } else {
        let prev = spec_routed_voice(cfg, lfo_pcts, v, i, k - 1);
        let r = (k - 1) / 2;
        let j = (k - 1) % 2;
        if cfg.lfo_to_voice@[r].enable && cfg.lfo_to_voice@[r].voices@[j] == i {
            scaled_pct(prev, lfo_pcts[r])
        } else {
            prev
        }
    }
}

/// One routed voice sample scaled by its envelope level, the note
/// velocity (which may truncate) and its mixer gain.
pub open spec fn spec_scaled_voice(routed: int, env: int, vel: int, gain: int) -> int {
    let after_env = scaled_pct(routed, env);
    let after_vel = scaled_pct(after_env, vel) as i16;
    scaled_pct(after_vel as int, gain)
}

/// The sum of the first `k` values.
pub open spec fn spec_mix_sum(vals: Seq<int>, k: int) -> int
    decreases k,
{
    if k <= 0 {
        0
    } else {
        spec_mix_sum(vals, k - 1) + vals[k - 1]
    }
}

/// The mono mix: every voice routed, shaped and gained, then summed.
pub open spec fn spec_mixed_mono(
    cfg: RoutingConfiguration,
    mix: MixerConfiguration,
    velocity: u8,
    voice_outs: Seq<int>,
    lfo_pcts: Seq<int>,
    env_outs: Seq<int>,
) -> int {
    spec_mix_sum(
        Seq::new(
            8,
            |i: int|
                spec_scaled_voice(
                    spec_routed_voice(cfg, lfo_pcts, voice_outs[i], i, 8),
                    env_outs[cfg.voices_to_envelop@[i] as int],
                    velocity as int,
                    mix.gain_voices@[i] as int,
                ),
        ),
        8,
    )
}

/// The filter configuration one clock runs with: when LFO-to-filter
/// routing is enabled and the derived cutoff differs from the current one,
/// the filter is reloaded with the derived cutoff.
pub open spec fn spec_filter_cfg_after(
    cfg: RoutingConfiguration,
    fc: FilterConfig,
    lfo_pct0: int,
) -> FilterConfig {
    if cfg.lfo_to_filter && fc.cutoff_frequency != 1000 + scaled_pct(10000, lfo_pct0) {
        FilterConfig {
            cutoff_frequency: (1000 + scaled_pct(10000, lfo_pct0)) as u16,
            ..fc
        }
    } else {
        fc
    }
}

/// Main synthesizer: eight voices, eight envelopes, four LFOs, the fixed
/// effect chain and the modulation router.
pub struct Synth {
    /// Waveform oscillators generating the voices.
    pub voices: [WaveTableOscillator; AMOUNT_OF_VOICES],
    /// Envelope generators shaping the voices.
    pub envelops: [EnvelopeGenerator; AMOUNT_OF_VOICES],
    /// Low-frequency oscillators for modulation.
    pub lfo: [WaveTableOscillator; AMOUNT_OF_LFOS],
    /// Modulation routing.
    pub router: Router,
    /// Resonant filter stage.
    pub filter: Filter,
    /// Overdrive stage.
    pub overdrive: Overdrive,
    /// Bitcrunch stage.
    pub bitcrunch: Bitcrunch,
    /// Gain configuration.
    pub mixer: Mixer,
    /// Velocity of the most recent note, 0..=127.
    pub velocity: u8,
    /// Which note occupies each slot; 0 marks a free slot.
    pub active_note: [u8; AMOUNT_OF_VOICES],
    /// Current polyphony mode.
    pub mode: SynthMode,
}

impl Synth {
    /// The sample rate the synthesizer runs at.
    pub open spec fn rate(&self) -> u16 {
        self.voices@[0].sample_rate
    }

    /// How many wavetables the shared store holds.
    pub open spec fn store_size(&self) -> int {
        (*self.voices@[0].wavetables).table_count()
    }

    /// Internal invariant: every component is well formed, every voice
    /// configuration stays playable over the whole accepted note range,
    /// all components agree on the sample rate and store, and the mixer,
    /// router and overdrive configurations are valid.
    pub open spec fn wf(&self) -> bool {
        &&& forall|i: int| 0 <= i < 8 ==> (#[trigger] self.voices@[i]).wf()
        &&& forall|i: int| 0 <= i < 8 ==> (#[trigger] self.envelops@[i]).wf()
        &&& forall|i: int| 0 <= i < 4 ==> (#[trigger] self.lfo@[i]).wf()
        &&& forall|i: int|
            0 <= i < 8 ==> voice_config_valid(
                (#[trigger] self.voices@[i]).config,
                self.voices@[i].sample_rate,
                (*self.voices@[i].wavetables).table_count(),
            )
        &&& forall|i: int| 0 <= i < 8 ==> (#[trigger] self.voices@[i]).sample_rate == self.rate()
        &&& forall|i: int|
            0 <= i < 8 ==> (*(#[trigger] self.voices@[i]).wavetables).table_count()
                == self.store_size()
        &&& forall|i: int|
            0 <= i < 4 ==> (*(#[trigger] self.lfo@[i]).wavetables).table_count()
                == self.store_size()
        &&& self.filter.wf()
        &&& mixer_config_valid(self.mixer.config)
        &&& routing_config_valid(self.router.config)
        &&& overdrive_config_valid(self.overdrive.config)
        &&& self.velocity <= 127
    }

    /// Build a synthesizer from a sample rate, a patch and a shared
    /// wavetable store. The patch must have been validated against the
    /// sample rate and the store (see `patch_is_valid`); an invalid patch
    /// is a configuration error, never an audio-thread fault.
    pub fn new(sample_rate: u16, patch: &Patch, wavetables: Arc<BoxedWavetables>) -> (r: Self)
        requires
            (*wavetables).wf(),
            patch_valid(*patch, sample_rate, (*wavetables).table_count()),
        ensures
            r.wf(),
            r.rate() == sample_rate,
            r.store_size() == (*wavetables).table_count(),
            r.mode == patch.synth_config.mode,
            r.velocity == 0,
            forall|i: int| 0 <= i < 8 ==> r.active_note@[i] == 0,
            forall|i: int|
                0 <= i < 8 ==> (#[trigger] r.envelops@[i]).state is Idle && r.envelops@[i].gate
                    == false && r.envelops@[i].current_level == 0 && r.envelops@[i].configuration
                    == patch.envelops@[i] && r.envelops@[i].ticks_per_ms == sample_rate / 1000,
            forall|i: int| 0 <= i < 8 ==> (#[trigger] r.voices@[i]).config == patch.voices@[i],
            forall|i: int|
                0 <= i < 4 ==> (#[trigger] r.lfo@[i]).config.soundbank_index
                    == patch.lfos@[i].soundbank_index && r.lfo@[i].speed == 4
                    * patch.lfos@[i].time,
            r.mixer.config == patch.mixer_config,
            r.router.config == patch.routering_config,
            r.overdrive.config == patch.overdrive_config,
            r.bitcrunch.config == patch.bitcrunch_config,
            r.filter.config == patch.filter_config,
            r.filter.buf0 == 0 && r.filter.buf1 == 0,
    {
        Self {
            voices: Synth::init_voices(sample_rate, patch, Arc::clone(&wavetables)),
            envelops: Synth::init_envs(sample_rate, patch),
            lfo: Synth::init_lfos(sample_rate, patch, Arc::clone(&wavetables)),
            filter: Filter::new(patch.filter_config),
            mixer: Mixer::new(patch.mixer_config),
            overdrive: Overdrive::new(patch.overdrive_config),
            bitcrunch: Bitcrunch::new(patch.bitcrunch_config),
            router: Router::new(patch.routering_config),
            velocity: 0,
            active_note: [0; AMOUNT_OF_VOICES],
            mode: patch.synth_config.mode,
        }
    }

    /// Build the eight envelope generators from the patch.
    fn init_envs(sample_rate: u16, patch: &Patch) -> (r: [EnvelopeGenerator; AMOUNT_OF_VOICES])
        requires
            forall|i: int|
                0 <= i < 8 ==> crate::synth::envelope::env_config_valid(
                    #[trigger] patch.envelops@[i],
                ),
        ensures
            forall|i: int|
                0 <= i < 8 ==> (#[trigger] r@[i]).wf() && r@[i].state is Idle && r@[i].gate
                    == false && r@[i].current_level == 0 && r@[i].configuration
                    == patch.envelops@[i] && r@[i].ticks_per_ms == sample_rate / 1000,
    {
        let envelops: [EnvelopeGenerator; AMOUNT_OF_VOICES] = [
            EnvelopeGenerator::new(patch.envelops[0], sample_rate),
            EnvelopeGenerator::new(patch.envelops[1], sample_rate),
            EnvelopeGenerator::new(patch.envelops[2], sample_rate),
            EnvelopeGenerator::new(patch.envelops[3], sample_rate),
            EnvelopeGenerator::new(patch.envelops[4], sample_rate),
            EnvelopeGenerator::new(patch.envelops[5], sample_rate),
            EnvelopeGenerator::new(patch.envelops[6], sample_rate),
            EnvelopeGenerator::new(patch.envelops[7], sample_rate),
        ];
        envelops
    }

    /// Build the eight voice oscillators from the patch, sharing one store.
    fn init_voices(sample_rate: u16, patch: &Patch, wavetables: Arc<BoxedWavetables>) -> (r: [
        WaveTableOscillator; AMOUNT_OF_VOICES])
        requires
            (*wavetables).wf(),
            forall|i: int|
                0 <= i < 8 ==> voice_config_valid(
                    #[trigger] patch.voices@[i],
                    sample_rate,
                    (*wavetables).table_count(),
                ),
        ensures
            forall|i: int|
                0 <= i < 8 ==> (#[trigger] r@[i]).wf() && r@[i].config == patch.voices@[i]
                    && r@[i].sample_rate == sample_rate && r@[i].wavetables == wavetables
                    && r@[i].last_output == 0,
    {
        let voices: [WaveTableOscillator; AMOUNT_OF_VOICES] = [
            WaveTableOscillator::new(patch.voices[0], sample_rate, Arc::clone(&wavetables)),
            WaveTableOscillator::new(patch.voices[1], sample_rate, Arc::clone(&wavetables)),
            WaveTableOscillator::new(patch.voices[2], sample_rate, Arc::clone(&wavetables)),
            WaveTableOscillator::new(patch.voices[3], sample_rate, Arc::clone(&wavetables)),
            WaveTableOscillator::new(patch.voices[4], sample_rate, Arc::clone(&wavetables)),
            WaveTableOscillator::new(patch.voices[5], sample_rate, Arc::clone(&wavetables)),
            WaveTableOscillator::new(patch.voices[6], sample_rate, Arc::clone(&wavetables)),
            WaveTableOscillator::new(patch.voices[7], sample_rate, Arc::clone(&wavetables)),
        ];
        voices
    }

    /// Build the four low-frequency oscillators from the patch.
    fn init_lfos(sample_rate: u16, patch: &Patch, wavetables: Arc<BoxedWavetables>) -> (r: [
        WaveTableOscillator; AMOUNT_OF_LFOS])
        requires
            (*wavetables).wf(),
            forall|i: int|
                0 <= i < 4 ==> crate::synth::patch::lfo_config_valid(
                    #[trigger] patch.lfos@[i],
                    (*wavetables).table_count(),
                ),
        ensures
            forall|i: int| 0 <= i < 4 ==> (#[trigger] r@[i]).wf(),
            forall|i: int|
                0 <= i < 4 ==> (#[trigger] r@[i]).config.soundbank_index
                    == patch.lfos@[i].soundbank_index && r@[i].speed == 4 * patch.lfos@[i].time
                    && r@[i].wavetables == wavetables,
    {
        let lfos: [WaveTableOscillator; AMOUNT_OF_LFOS] = [
            WaveTableOscillator::new_lfo(patch.lfos[0], sample_rate, Arc::clone(&wavetables)),
            WaveTableOscillator::new_lfo(patch.lfos[1], sample_rate, Arc::clone(&wavetables)),
            WaveTableOscillator::new_lfo(patch.lfos[2], sample_rate, Arc::clone(&wavetables)),
            WaveTableOscillator::new_lfo(patch.lfos[3], sample_rate, Arc::clone(&wavetables)),
        ];
        lfos
    }

    /// Apply a whole patch in place without rebuilding any component, for
    /// glitch-reduced live switching: every sub-component — voices,
    /// envelopes, LFOs, filter, overdrive, bitcrunch, mixer, router and
    /// mode — takes its configuration from the patch, each applied whole.
    /// The patch must have been validated against this synthesizer's
    /// sample rate and store.
    pub fn load_patch(&mut self, patch: &Patch)
        requires
            old(self).wf(),
            patch_valid(*patch, old(self).rate(), old(self).store_size()),
        ensures
            final(self).wf(),
            final(self).mode == patch.synth_config.mode,
            forall|i: int| 0 <= i < 8 ==> (#[trigger] final(self).voices@[i]).config == patch.voices@[i],
            forall|i: int|
                0 <= i < 8 ==> (#[trigger] final(self).envelops@[i]).configuration
                    == patch.envelops@[i],
            forall|i: int|
                0 <= i < 4 ==> final(self).lfo@[i] == (WaveTableOscillator {
                    config: (crate::synth::wavetable_oscillator::WaveTableOscillatorConfig {
                        soundbank_index: patch.lfos@[i].soundbank_index,
                        glide: false,
                        glide_rate: 0,
                        detune: 0,
                        freq_detune: 0,
                    }),
                    speed: (4 * patch.lfos@[i].time) as u16,
                    speed_count: 0,
                    ..(#[trigger] old(self).lfo@[i])
                }),
            final(self).filter.config == patch.filter_config,
            final(self).filter.buf0 == old(self).filter.buf0,
            final(self).filter.buf1 == old(self).filter.buf1,
            final(self).overdrive.config == patch.overdrive_config,
            final(self).bitcrunch.config == patch.bitcrunch_config,
            final(self).mixer.config == patch.mixer_config,
            final(self).router.config == patch.routering_config,
            final(self).velocity == old(self).velocity,
            final(self).active_note == old(self).active_note,
    {
        self.mode = patch.synth_config.mode;
        let mut i: usize = 0;
        while i < AMOUNT_OF_VOICES
            invariant
                i <= 8,
                old(self).wf(),
                patch_valid(*patch, old(self).rate(), old(self).store_size()),
                forall|j: int|
                    0 <= j < i ==> (#[trigger] self.voices@[j]).wf() && self.voices@[j].config
                        == patch.voices@[j] && self.voices@[j].sample_rate == old(self).voices@[j].sample_rate && self.voices@[j].wavetables == old(self).voices@[j].wavetables,
                forall|j: int|
                    0 <= j < i ==> (#[trigger] self.envelops@[j]).wf() && self.envelops@[j].configuration
                        == patch.envelops@[j],
                forall|j: int| i <= j < 8 ==> self.voices@[j] == old(self).voices@[j],
                forall|j: int| i <= j < 8 ==> self.envelops@[j] == old(self).envelops@[j],
                self.lfo == old(self).lfo,
                self.router == old(self).router,
                self.filter == old(self).filter,
                self.overdrive == old(self).overdrive,
                self.bitcrunch == old(self).bitcrunch,
                self.mixer == old(self).mixer,
                self.velocity == old(self).velocity,
                self.active_note == old(self).active_note,
                self.mode == patch.synth_config.mode,
            decreases 8 - i,
        {
            proof {
                assert(voice_config_valid(
                    patch.voices@[i as int],
                    old(self).rate(),
                    old(self).store_size(),
                ));
            }
            self.voices[i].reload(patch.voices[i]);
            self.envelops[i].reload(patch.envelops[i]);
            i = i + 1;
        }
        // modulation oscillators
        let ghost reloaded = *self;
        let mut i: usize = 0;
        while i < AMOUNT_OF_LFOS
            invariant
                i <= 4,
                old(self).wf(),
                reloaded.wf(),
                patch_valid(*patch, old(self).rate(), old(self).store_size()),
                reloaded.rate() == old(self).rate(),
                reloaded.store_size() == old(self).store_size(),
                forall|j: int|
                    0 <= j < i ==> self.lfo@[j] == (WaveTableOscillator {
                        config: (crate::synth::wavetable_oscillator::WaveTableOscillatorConfig {
                            soundbank_index: patch.lfos@[j].soundbank_index,
                            glide: false,
                            glide_rate: 0,
                            detune: 0,
                            freq_detune: 0,
                        }),
                        speed: (4 * patch.lfos@[j].time) as u16,
                        speed_count: 0,
                        ..(#[trigger] reloaded.lfo@[j])
                    }),
                forall|j: int| 0 <= j < i ==> (#[trigger] self.lfo@[j]).wf(),
                forall|j: int| i <= j < 4 ==> self.lfo@[j] == reloaded.lfo@[j],
                *self == (Synth { lfo: self.lfo, ..reloaded }),
            decreases 4 - i,
        {
            proof {
                assert(crate::synth::patch::lfo_config_valid(
                    patch.lfos@[i as int],
                    old(self).store_size(),
                ));
                assert((*reloaded.lfo@[i as int].wavetables).table_count() == old(self).store_size());
            }
            self.lfo[i].reload_lfo(patch.lfos[i]);
            i = i + 1;
        }
        // effects
        self.filter.reload(patch.filter_config);
        self.overdrive.reload(patch.overdrive_config);
        self.bitcrunch.reload(patch.bitcrunch_config);
        // mix
        self.mixer.reload(patch.mixer_config);
        // modulation routing
        self.router.reload(patch.routering_config);
        proof {
            assert forall|q: int|
                0 <= q < 4 implies (*(#[trigger] self.lfo@[q]).wavetables).table_count()
                == self.store_size() by {
                assert(self.lfo@[q].wavetables == reloaded.lfo@[q].wavetables);
                assert((*reloaded.lfo@[q].wavetables).table_count() == reloaded.store_size());
            }
        }
    }

    /// Whether a note lies outside the accepted range (a safety clamp
    /// against index corruption).
    fn range_safeguard(&mut self, note: u8) -> (r: bool)
        ensures
            *final(self) == *old(self),
            r == !(LOWEST_NOTE <= note <= HIGHEST_NOTE),
    {
        if note < LOWEST_NOTE || note > HIGHEST_NOTE {
            return true;
        }
        false
    }

    /// Record a note in the active-note table. Returns the slot it landed
    /// in: an already-sounding note retriggers in place; otherwise the
    /// first free slot is taken if it lies within the mode's polyphony;
    /// otherwise `NO_SLOT` (voice exhaustion — no stealing).
    fn add_note(&mut self, note: u8) -> (id: usize)
        requires
            old(self).wf(),
        ensures
            final(self).wf(),
            *final(self) == (Synth { active_note: final(self).active_note, ..*old(self) }),
            ({
                let (slot, newact) = spec_add_note(
                    old(self).active_note@,
                    note,
                    8int / spec_voices_per_note(old(self).mode),
                );
                &&& final(self).active_note@ == newact
                &&& (slot is Some ==> id == slot.unwrap() && id < 8)
                &&& (slot is None ==> id == NO_SLOT)
            }),
            id == NO_SLOT || id < 8,
    {
        proof {
            lemma_position_props(self.active_note@, note);
            lemma_position_props(self.active_note@, 0);
        }
        let amount_of_notes: usize = 8 / self.mode.voices_per_note();
        let mut i: usize = 0;
        while i < AMOUNT_OF_VOICES
            invariant
                i <= 8,
                old(self).wf(),
                *self == *old(self),
                forall|j: int| 0 <= j < i ==> self.active_note@[j] != note,
            decreases 8 - i,
        {
            proof {
                lemma_position_props(self.active_note@, note);
                lemma_position_props(self.active_note@, 0);
            }
            if self.active_note[i] == note {
                return i;
            }
            i = i + 1;
        }
        let mut i: usize = 0;
        while i < AMOUNT_OF_VOICES
            invariant
                i <= 8,
                old(self).wf(),
                *self == *old(self),
                amount_of_notes == 8int / spec_voices_per_note(old(self).mode),
                forall|j: int| 0 <= j < 8 ==> self.active_note@[j] != note,
                forall|j: int| 0 <= j < i ==> self.active_note@[j] != 0,
            decreases 8 - i,
        {
            proof {
                lemma_position_props(self.active_note@, note);
                lemma_position_props(self.active_note@, 0);
            }
            if self.active_note[i] == 0 {
                if i < amount_of_notes {
                    self.active_note[i] = note;
                    return i;
                } else {
                    return NO_SLOT;
                }
            }
            i = i + 1;
        }
        NO_SLOT
    }

    /// Remove a note from the active-note table. Returns the slot it was
    /// removed from, or `NO_SLOT` if it was not sounding.
    fn remove_note(&mut self, note: u8) -> (id: usize)
        requires
            old(self).wf(),
        ensures
            final(self).wf(),
            *final(self) == (Synth { active_note: final(self).active_note, ..*old(self) }),
            ({
                let (slot, newact) = spec_remove_note(old(self).active_note@, note);
                &&& final(self).active_note@ == newact
                &&& (slot is Some ==> id == slot.unwrap() && id < 8)
                &&& (slot is None ==> id == NO_SLOT)
            }),
            id == NO_SLOT || id < 8,
    {
        proof {
            lemma_position_props(self.active_note@, note);
        }
        let mut i: usize = 0;
        while i < AMOUNT_OF_VOICES
            invariant
                i <= 8,
                old(self).wf(),
                *self == *old(self),
                forall|j: int| 0 <= j < i ==> self.active_note@[j] != note,
            decreases 8 - i,
        {
            proof {
                lemma_position_props(self.active_note@, note);
            }
            if self.active_note[i] == note {
                self.active_note[i] = 0;
                return i;
            }
            i = i + 1;
        }
        NO_SLOT
    }

    /// Play a note. Notes outside the accepted range are silently dropped,
    /// as is a note that finds no free slot within the mode's polyphony.
    /// An allocated note points each of its oscillator/envelope pairs at
    /// the note's frequency (offset by the oscillator's detunes) and starts
    /// the paired envelopes.
    ///
    /// Law (voice allocation): under `Mono` one accepted note-on occupies
    /// all eight oscillator/envelope pairs — every envelope is held
    /// afterwards.
    pub fn note_on(&mut self, note: u8, velocity: u8)
        requires
            old(self).wf(),
            velocity <= 127,
        ensures
            final(self).wf(),
            !(LOWEST_NOTE <= note <= HIGHEST_NOTE) ==> *final(self) == *old(self),
            LOWEST_NOTE <= note <= HIGHEST_NOTE ==> ({
                let div = spec_voices_per_note(old(self).mode);
                let (slot, newact) = spec_add_note(old(self).active_note@, note, 8int / div);
                &&& final(self).velocity == velocity
                &&& final(self).active_note@ == newact
                &&& final(self).mode == old(self).mode
                &&& final(self).router == old(self).router
                &&& final(self).mixer == old(self).mixer
                &&& final(self).filter == old(self).filter
                &&& final(self).overdrive == old(self).overdrive
                &&& final(self).bitcrunch == old(self).bitcrunch
                &&& final(self).lfo == old(self).lfo
                &&& (slot is None ==> final(self).envelops == old(self).envelops && final(self).voices == old(self).voices)
                &&& (slot is Some && slot.unwrap() * div + div <= 8 ==> ({
                    let id = slot.unwrap();
                    &&& forall|k: int|
                        id * div <= k < id * div + div ==> final(self).envelops@[k] == (
                        #[trigger] old(self).envelops@[k]).spec_open_gate()
                    &&& forall|k: int|
                        id * div <= k < id * div + div ==> (#[trigger] final(self).envelops@[k]).gate == true
                    &&& forall|k: int|
                        0 <= k < 8 && !(id * div <= k < id * div + div) ==> final(self).envelops@[k] == old(self).envelops@[k]
                    &&& forall|k: int|
                        0 <= k < 8 && !(id * div <= k < id * div + div) ==> final(self).voices@[k] == old(self).voices@[k]
                    &&& forall|k: int|
                        id * div <= k < id * div + div ==> ({
                            let fq = crate::synth::frequencies::spec_note_frequency(
                                note + old(self).voices@[k].config.detune,
                            ) + old(self).voices@[k].config.freq_detune;
                            (#[trigger] final(self).voices@[k]).original_freq == fq || (final(self).voices@[k] == old(self).voices@[k] && old(self).voices@[k].current_freq == fq)
                        })
                }))
                &&& (slot is Some && slot.unwrap() * div + div > 8 ==> final(self).envelops
                    == old(self).envelops && final(self).voices == old(self).voices)
                &&& (slot is Some && slot.unwrap() == 0 && old(self).mode is Mono ==> forall|
                    k: int|
                    0 <= k < 8 ==> (#[trigger] final(self).envelops@[k]).gate == true)
            }),
    {
        // Cap the note range between C0 and C8
        if self.range_safeguard(note) {
            return ;
        }
        // Update the velocity for this note
        self.velocity = velocity;
        let divider: usize = self.mode.voices_per_note();
        let id: usize = self.add_note(note);
        if id != NO_SLOT {
            proof {
                assert(id < 8);
                assert(divider <= 8);
                assert(id * divider + divider <= 72) by (nonlinear_arith)
                    requires
                        id < 8 && divider <= 8,
                ;
            }
            if id * divider + divider <= 8 {
            let ghost mid = *self;
            let mut i: usize = 0;
            while i < divider
                invariant
                    i <= divider,
                    id * divider + divider <= 8,
                    self.wf(),
                    mid.wf(),
                    old(self).wf(),
                    LOWEST_NOTE <= note <= HIGHEST_NOTE,
                    divider >= 1,
                    forall|k: int|
                        id * divider <= k < id * divider + i ==> self.envelops@[k] == (
                        #[trigger] mid.envelops@[k]).spec_open_gate(),
                    forall|k: int|
                        0 <= k < 8 && !(id * divider <= k < id * divider + i) ==> self.envelops@[k]
                            == mid.envelops@[k],
                    forall|k: int|
                        id * divider <= k < id * divider + i ==> (#[trigger] self.voices@[k]).config
                            == mid.voices@[k].config && self.voices@[k].sample_rate
                            == mid.voices@[k].sample_rate && self.voices@[k].wavetables
                            == mid.voices@[k].wavetables,
                    forall|k: int|
                        id * divider <= k < id * divider + i ==> ({
                            let fq = crate::synth::frequencies::spec_note_frequency(
                                note + mid.voices@[k].config.detune,
                            ) + mid.voices@[k].config.freq_detune;
                            (#[trigger] self.voices@[k]).original_freq == fq || (self.voices@[k]
                                == mid.voices@[k] && mid.voices@[k].current_freq == fq)
                        }),
                    forall|k: int|
                        0 <= k < 8 && !(id * divider <= k < id * divider + i) ==> self.voices@[k]
                            == mid.voices@[k],
                    self.router == mid.router,
                    self.filter == mid.filter,
                    self.overdrive == mid.overdrive,
                    self.bitcrunch == mid.bitcrunch,
                    self.mixer == mid.mixer,
                    self.velocity == mid.velocity,
                    self.active_note == mid.active_note,
                    self.mode == mid.mode,
                    self.lfo == mid.lfo,
                decreases divider - i,
            {
                let osc_index: usize = id * divider + i;
                let detune: i8 = self.voices[osc_index].config.detune;
                let idx: i16 = note as i16 + detune as i16;
                proof {
                    assert(voice_config_valid(
                        self.voices@[osc_index as int].config,
                        self.voices@[osc_index as int].sample_rate,
                        (*self.voices@[osc_index as int].wavetables).table_count(),
                    ));
                    assert(1 <= crate::synth::frequencies::spec_note_frequency(
                        note + self.voices@[osc_index as int].config.detune,
                    ) + self.voices@[osc_index as int].config.freq_detune <= 12000);
                }
                let freq: u16 = note_frequency(idx as usize);
                // offset the table frequency by the fine detune
                let f: u16 = (freq as i16 + self.voices[osc_index].config.freq_detune as i16) as u16;
                self.voices[osc_index].change_freq(f);
                // start the paired envelope's attack
                self.envelops[osc_index].open_gate();
                i = i + 1;
            }
            proof {
                let div = spec_voices_per_note(old(self).mode);
                assert(div == divider);
                assert(mid.envelops =~= old(self).envelops);
                assert(mid.voices =~= old(self).voices);
                assert forall|k: int|
                    id * div <= k < id * div + div implies self.envelops@[k] == (
                #[trigger] old(self).envelops@[k]).spec_open_gate() && self.envelops@[k].gate
                    == true by {
                    assert(self.envelops@[k] == mid.envelops@[k].spec_open_gate());
                    assert(mid.envelops@[k] == old(self).envelops@[k]);
                    let e = mid.envelops@[k];
                    if e.current_level > 0 && e.current_level >= 100 {
                        assert(e.spec_open_gate().gate == true);
                    } else {
                        assert(e.spec_open_gate().gate == true);
                    }
                }
                assert forall|k: int|
                    id * div <= k < id * div + div implies (#[trigger] self.envelops@[k]).gate
                    == true by {
                    assert(self.envelops@[k] == old(self).envelops@[k].spec_open_gate());
                    assert(old(self).envelops@[k].spec_open_gate().gate == true);
                }
                assert forall|k: int|
                    0 <= k < 8 && !(id * div <= k < id * div + div) implies #[trigger] self.envelops@[k]
                    == old(self).envelops@[k] by {
                    assert(self.envelops@[k] == mid.envelops@[k]);
                }
                assert forall|k: int|
                    0 <= k < 8 && !(id * div <= k < id * div + div) implies #[trigger] self.voices@[k]
                    == old(self).voices@[k] by {
                    assert(self.voices@[k] == mid.voices@[k]);
                }
            }
            }
        }
    }

    /// Release a note. A note that is not sounding is a no-op; otherwise
    /// the slot's envelopes move toward their release phase.
    pub fn note_off(&mut self, note: u8)
        requires
            old(self).wf(),
        ensures
            final(self).wf(),
            ({
                let div = spec_voices_per_note(old(self).mode);
                let (slot, newact) = spec_remove_note(old(self).active_note@, note);
                &&& final(self).active_note@ == newact
                &&& final(self).velocity == old(self).velocity
                &&& final(self).mode == old(self).mode
                &&& final(self).voices == old(self).voices
                &&& final(self).router == old(self).router
                &&& final(self).mixer == old(self).mixer
                &&& final(self).filter == old(self).filter
                &&& final(self).overdrive == old(self).overdrive
                &&& final(self).bitcrunch == old(self).bitcrunch
                &&& final(self).lfo == old(self).lfo
                &&& (slot is None ==> final(self).envelops == old(self).envelops)
                &&& (slot is Some && slot.unwrap() * div + div <= 8 ==> ({
                    let id = slot.unwrap();
                    &&& forall|k: int|
                        id * div <= k < id * div + div ==> final(self).envelops@[k] == (
                        #[trigger] old(self).envelops@[k]).spec_close_gate()
                    &&& forall|k: int|
                        0 <= k < 8 && !(id * div <= k < id * div + div) ==> final(self).envelops@[k] == old(self).envelops@[k]
                }))
                &&& (slot is Some && slot.unwrap() * div + div > 8 ==> final(self).envelops
                    == old(self).envelops)
            }),
    {
        let divider: usize = self.mode.voices_per_note();
        let id: usize = self.remove_note(note);
        if id != NO_SLOT {
            proof {
                assert(id < 8);
                assert(divider <= 8);
                assert(id * divider + divider <= 72) by (nonlinear_arith)
                    requires
                        id < 8 && divider <= 8,
                ;
            }
            if id * divider + divider <= 8 {
            let ghost mid = *self;
            let mut i: usize = 0;
            while i < divider
                invariant
                    i <= divider,
                    id * divider + divider <= 8,
                    self.wf(),
                    mid.wf(),
                    old(self).wf(),
                    forall|k: int|
                        id * divider <= k < id * divider + i ==> self.envelops@[k] == (
                        #[trigger] mid.envelops@[k]).spec_close_gate(),
                    forall|k: int|
                        0 <= k < 8 && !(id * divider <= k < id * divider + i) ==> self.envelops@[k]
                            == mid.envelops@[k],
                    *self == (Synth { envelops: self.envelops, ..mid }),
                decreases divider - i,
            {
                self.envelops[id * divider + i].close_gate();
                i = i + 1;
            }
            }
        }
    }

    /// Generate one stereo sample: clock all voices, envelopes and LFOs
    /// once, apply the LFO routes, shape each voice by its envelope, the
    /// velocity and its gain, sum to mono, then run the fixed effect chain
    /// (filter, main gain, overdrive, bitcrunch) and duplicate to both
    /// channels.
    fn clock(&mut self) -> (r: [i16; 2])
        requires
            old(self).wf(),
        ensures
            final(self).wf(),
            final(self).velocity == old(self).velocity,
            final(self).mode == old(self).mode,
            final(self).active_note == old(self).active_note,
            final(self).router == old(self).router,
            final(self).mixer == old(self).mixer,
            final(self).overdrive == old(self).overdrive,
            final(self).bitcrunch == old(self).bitcrunch,
            forall|i: int|
                0 <= i < 8 ==> final(self).envelops@[i] == (
                #[trigger] old(self).envelops@[i]).spec_clock(),
            r@.len() == 2,
            r@[0] == r@[1],
            ({
                let lfop = Seq::new(4, |k: int| spec_lfo_pct(final(self).lfo@[k].last_output));
                let vouts = Seq::new(8, |k: int| final(self).voices@[k].last_output as int);
                let envo = Seq::new(8, |k: int| (old(self).envelops@[k]).spec_output());
                let mono = spec_mixed_mono(
                    old(self).router.config,
                    old(self).mixer.config,
                    old(self).velocity,
                    vouts,
                    lfop,
                    envo,
                ) as i16;
                let fcfg = spec_filter_cfg_after(
                    old(self).router.config,
                    old(self).filter.config,
                    lfop[0],
                );
                let fpre = (Filter {
                    config: fcfg,
                    buf0: old(self).filter.buf0,
                    buf1: old(self).filter.buf1,
                    feedback: spec_feedback(fcfg) as u32,
                });
                let filtered = if fcfg.enabled {
                    spec_filter_output(fpre, mono) as int
                } else {
                    mono as int
                };
                let gained = scaled_pct(filtered, old(self).mixer.config.gain_main as int);
                let driven = spec_overdrive(old(self).overdrive.config, gained as i16);
                let crunched = spec_bitcrunch(old(self).bitcrunch.config, driven as i16);
                &&& final(self).filter.config == fcfg
                &&& final(self).filter.feedback == spec_feedback(fcfg)
                &&& (fcfg.enabled ==> final(self).filter.buf0 == spec_buf0_after(fpre, mono)
                    && final(self).filter.buf1 == spec_buf1_after(fpre, mono))
                &&& (!fcfg.enabled ==> final(self).filter.buf0 == old(self).filter.buf0 && final(self).filter.buf1 == old(self).filter.buf1)
                &&& r@[0] == crunched as i16
            }),
    {
        let mut generate_voices: [i16; AMOUNT_OF_VOICES] = [0; AMOUNT_OF_VOICES];
        let mut generate_lfos: [i16; AMOUNT_OF_LFOS] = [0; AMOUNT_OF_LFOS];
        let mut generate_env: [i16; AMOUNT_OF_VOICES] = [0; AMOUNT_OF_VOICES];

        // Clock voices and envelopes once
        let mut i: usize = 0;
        while i < AMOUNT_OF_VOICES
            invariant
                i <= 8,
                old(self).wf(),
                forall|j: int|
                    0 <= j < i ==> (#[trigger] self.voices@[j]).wf() && self.voices@[j].config
                        == old(self).voices@[j].config && self.voices@[j].sample_rate == old(self).voices@[j].sample_rate && self.voices@[j].wavetables == old(self).voices@[j].wavetables,
                forall|j: int|
                    0 <= j < i ==> generate_voices@[j] == (#[trigger] self.voices@[j]).last_output,
                forall|j: int| 0 <= j < i ==> (#[trigger] self.envelops@[j]).wf(),
                forall|j: int|
                    0 <= j < i ==> self.envelops@[j] == (
                    #[trigger] old(self).envelops@[j]).spec_clock(),
                forall|j: int|
                    0 <= j < i ==> generate_env@[j] == (#[trigger] old(self).envelops@[j]).spec_output() && 0 <= generate_env@[j] <= 100,
                forall|j: int| i <= j < 8 ==> self.voices@[j] == old(self).voices@[j],
                forall|j: int| i <= j < 8 ==> self.envelops@[j] == old(self).envelops@[j],
                self.lfo == old(self).lfo,
                self.router == old(self).router,
                self.filter == old(self).filter,
                self.overdrive == old(self).overdrive,
                self.bitcrunch == old(self).bitcrunch,
                self.mixer == old(self).mixer,
                self.velocity == old(self).velocity,
                self.active_note == old(self).active_note,
                self.mode == old(self).mode,
            decreases 8 - i,
        {
            generate_voices[i] = self.voices[i].clock(None);
            generate_env[i] = self.envelops[i].clock(None);
            proof {
                crate::synth::envelope::lemma_clock_preserves_wf(old(self).envelops@[i as int]);
            }
            i = i + 1;
        }
        let ghost clocked = *self;

        // Process LFOs: map each bipolar sample to a percentage
        let mut i: usize = 0;
        while i < AMOUNT_OF_LFOS
            invariant
                i <= 4,
                old(self).wf(),
                forall|j: int| 0 <= j < i ==> (#[trigger] self.lfo@[j]).wf(),
                forall|j: int|
                    0 <= j < i ==> (#[trigger] self.lfo@[j]).wavetables == old(self).lfo@[j].wavetables,
                forall|j: int| 0 <= j < i ==> 0 <= #[trigger] generate_lfos@[j] <= 100,
                forall|j: int|
                    0 <= j < i ==> #[trigger] generate_lfos@[j] == spec_lfo_pct(
                        self.lfo@[j].last_output,
                    ),
                forall|j: int| i <= j < 4 ==> self.lfo@[j] == old(self).lfo@[j],
                *self == (Synth { lfo: self.lfo, ..clocked }),
            decreases 4 - i,
        {
            let raw: i16 = self.lfo[i].clock(None);
            let lfo_wide: i64 = raw as i64;
            let lfo_percentage: i64 = ((lfo_wide + 32767) * 100) / 65535;
            proof {
                assert(-(100int * 65535) <= (raw + 32767) * 100 <= 100 * 65535)
                    by (nonlinear_arith)
                    requires
                        -32768 <= raw <= 32767,
                ;
                crate::synth::math::lemma_tdiv_bound((raw + 32767) * 100, 65535, 100);
                if (raw + 32767) * 100 < 0 {
                    assert((-((raw + 32767) * 100)) / 65535 == 0) by (nonlinear_arith)
                        requires
                            0 < -((raw + 32767) * 100) <= 100,
                    ;
                } else {
                    assert(((raw + 32767) * 100) / 65535 >= 0) by (nonlinear_arith)
                        requires
                            (raw + 32767) * 100 >= 0,
                    ;
                }
            }
            generate_lfos[i] = lfo_percentage as i16;
            i = i + 1;
        }
        let ghost lfod = *self;
        let ghost lfop = Seq::new(4, |k: int| generate_lfos@[k] as int);
        let ghost voices0 = Seq::new(8, |k: int| generate_voices@[k] as int);

        // Route LFO modulation to voices: four routes, two targets each
        let mut route_slot: usize = 0;
        while route_slot < 8
            invariant
                route_slot <= 8,
                old(self).wf(),
                *self == lfod,
                routing_config_valid(self.router.config),
                lfop == Seq::new(4, |k: int| generate_lfos@[k] as int),
                forall|k: int| 0 <= k < 4 ==> 0 <= #[trigger] generate_lfos@[k] <= 100,
                forall|v: int|
                    0 <= v < 8 ==> #[trigger] generate_voices@[v] == spec_routed_voice(
                        self.router.config,
                        lfop,
                        voices0[v],
                        v,
                        route_slot as int,
                    ),
            decreases 8 - route_slot,
        {
            let route_index: usize = route_slot / 2;
            let target_slot: usize = route_slot % 2;
            if self.router.config.lfo_to_voice[route_index].enable {
                let target: u8 = self.router.config.lfo_to_voice[route_index].voices[target_slot];
                if target != crate::synth::router::UNROUTED {
                    let tv: usize = target as usize;
                    generate_voices[tv] = percentage(
                        generate_voices[tv],
                        generate_lfos[route_index],
                    );
                }
            }
            route_slot = route_slot + 1;
        }
        let ghost routed = Seq::new(8, |k: int| generate_voices@[k] as int);
        let ghost envo = Seq::new(8, |k: int| old(self).envelops@[k].spec_output());

        // Shape each voice by its routed envelope, the velocity and its
        // gain, and accumulate the mono mix
        proof {
            assert forall|k: int| 0 <= k < 8 implies 0 <= #[trigger] generate_env@[k] <= 100
                && generate_env@[k] == envo[k] by {
                assert(generate_env@[k] == old(self).envelops@[k].spec_output());
            }
        }
        let mut mix: i32 = 0;
        let ghost vals = Seq::new(
            8,
            |k: int|
                spec_scaled_voice(
                    routed[k],
                    envo[self.router.config.voices_to_envelop@[k] as int],
                    self.velocity as int,
                    self.mixer.config.gain_voices@[k] as int,
                ),
        );
        let mut i: usize = 0;
        while i < AMOUNT_OF_VOICES
            invariant
                i <= 8,
                old(self).wf(),
                *self == lfod,
                routing_config_valid(self.router.config),
                mixer_config_valid(self.mixer.config),
                self.velocity <= 127,
                vals == Seq::new(
                    8,
                    |k: int|
                        spec_scaled_voice(
                            routed[k],
                            envo[self.router.config.voices_to_envelop@[k] as int],
                            self.velocity as int,
                            self.mixer.config.gain_voices@[k] as int,
                        ),
                ),
                forall|k: int| 0 <= k < 8 ==> -32768 <= #[trigger] routed[k] <= 32767,
                forall|k: int| i <= k < 8 ==> #[trigger] generate_voices@[k] == routed[k],
                forall|k: int|
                    0 <= k < 8 ==> 0 <= #[trigger] generate_env@[k] <= 100 && generate_env@[k]
                        == envo[k],
                forall|k: int| 0 <= k < i ==> #[trigger] generate_voices@[k] == vals[k],
                mix == spec_mix_sum(vals, i as int),
                -32768 * i <= mix <= 32767 * i,
            decreases 8 - i,
        {
            let env_index: usize = self.router.config.voices_to_envelop[i] as usize;
            let after_env: i16 = percentage(generate_voices[i], generate_env[env_index]);
            let after_vel: i16 = percentage(after_env, self.velocity as i16);
            let after_gain: i16 = percentage(
                after_vel,
                self.mixer.config.gain_voices[i] as i16,
            );
            generate_voices[i] = after_gain;
            mix = mix + after_gain as i32;
            i = i + 1;
        }

        // Push the LFO-driven pitch offset into voice 0
        if self.router.config.lfo_to_freq {
            let depth: u16 = self.router.config.lfo_to_freq_amount;
            self.voices[0].manipulate_freq(generate_lfos[0] as u8, depth);
        }
        // Drive the filter cutoff from the first LFO, reloading only when
        // the derived cutoff actually changed
        if self.router.config.lfo_to_filter {
            let lfo_filter: i16 = 1000 + percentage(10000, generate_lfos[0]);
            if self.filter.config.cutoff_frequency != lfo_filter as u16 {
                let mut config = self.filter.config;
                config.cutoff_frequency = lfo_filter as u16;
                self.filter.reload(config);
            }
        }

        // Mono sum, then the fixed effect chain
        proof {
            assert(self.filter.config == spec_filter_cfg_after(
                old(self).router.config,
                old(self).filter.config,
                lfop[0],
            ));
            assert(self.filter.feedback == spec_feedback(self.filter.config));
            assert(self.filter.buf0 == old(self).filter.buf0);
            assert(self.filter.buf1 == old(self).filter.buf1);
        }
        #[verifier::truncate]
        let mono: i16 = (mix as i16);
        let after_filter: i16 = self.filter.clock(mono);
        let after_gain: i16 = percentage(after_filter, self.mixer.config.gain_main as i16);
        let after_overdrive: i16 = self.overdrive.clock(after_gain);
        let after_crunch: i16 = self.bitcrunch.clock(after_overdrive);
        proof {
            let lfop2 = Seq::new(4, |q: int| spec_lfo_pct(self.lfo@[q].last_output));
            assert(lfop =~= lfop2);
            let vouts = Seq::new(8, |q: int| self.voices@[q].last_output as int);
            assert forall|q: int| 0 <= q < 8 implies voices0[q] == vouts[q] by {
                assert(self.voices@[q].last_output == lfod.voices@[q].last_output);
            }
            assert(voices0 =~= vouts);
            let envo2 = Seq::new(8, |q: int| old(self).envelops@[q].spec_output());
            assert(envo =~= envo2);
            let target = Seq::new(
                8,
                |k: int|
                    spec_scaled_voice(
                        spec_routed_voice(old(self).router.config, lfop2, vouts[k], k, 8),
                        envo2[old(self).router.config.voices_to_envelop@[k] as int],
                        old(self).velocity as int,
                        old(self).mixer.config.gain_voices@[k] as int,
                    ),
            );
            assert forall|k: int| 0 <= k < 8 implies vals[k] == target[k] by {
                assert(routed[k] == spec_routed_voice(
                    lfod.router.config,
                    lfop,
                    voices0[k],
                    k,
                    8,
                ));
            }
            assert(vals =~= target);
            assert(spec_mix_sum(vals, 8) == spec_mix_sum(target, 8));
            assert forall|q: int|
                0 <= q < 8 implies self.envelops@[q] == (
            #[trigger] old(self).envelops@[q]).spec_clock() by {
                assert(self.envelops@[q] == clocked.envelops@[q]);
            }
            assert forall|q: int| 0 <= q < 8 implies (#[trigger] self.envelops@[q]).wf() by {
                assert(self.envelops@[q] == clocked.envelops@[q]);
                assert(clocked.envelops@[q].wf());
            }
            assert forall|q: int|
                0 <= q < 4 implies (*(#[trigger] self.lfo@[q]).wavetables).table_count()
                == self.store_size() by {
                assert(self.lfo@[q].wavetables == old(self).lfo@[q].wavetables);
                assert((*old(self).lfo@[q].wavetables).table_count() == old(self).store_size());
            }
        }
        [after_crunch, after_crunch]
    }

    /// Feed the output of the synthesizer chain for one sample and advance
    /// every component by one clock tick. Call this once per sample from
    /// the audio callback.
    pub fn clock_and_output(&mut self) -> (r: [i16; 2])
        requires
            old(self).wf(),
        ensures
            final(self).wf(),
            final(self).velocity == old(self).velocity,
            final(self).mode == old(self).mode,
            final(self).active_note == old(self).active_note,
            final(self).router == old(self).router,
            final(self).mixer == old(self).mixer,
            final(self).overdrive == old(self).overdrive,
            final(self).bitcrunch == old(self).bitcrunch,
            forall|i: int|
                0 <= i < 8 ==> final(self).envelops@[i] == (
                #[trigger] old(self).envelops@[i]).spec_clock(),
            r@.len() == 2,
            r@[0] == r@[1],
            ({
                let lfop = Seq::new(4, |k: int| spec_lfo_pct(final(self).lfo@[k].last_output));
                let vouts = Seq::new(8, |k: int| final(self).voices@[k].last_output as int);
                let envo = Seq::new(8, |k: int| (old(self).envelops@[k]).spec_output());
                let mono = spec_mixed_mono(
                    old(self).router.config,
                    old(self).mixer.config,
                    old(self).velocity,
                    vouts,
                    lfop,
                    envo,
                ) as i16;
                let fcfg = spec_filter_cfg_after(
                    old(self).router.config,
                    old(self).filter.config,
                    lfop[0],
                );
                let fpre = (Filter {
                    config: fcfg,
                    buf0: old(self).filter.buf0,
                    buf1: old(self).filter.buf1,
                    feedback: spec_feedback(fcfg) as u32,
                });
                let filtered = if fcfg.enabled {
                    spec_filter_output(fpre, mono) as int
                } else {
                    mono as int
                };
                let gained = scaled_pct(filtered, old(self).mixer.config.gain_main as int);
                let driven = spec_overdrive(old(self).overdrive.config, gained as i16);
                let crunched = spec_bitcrunch(old(self).bitcrunch.config, driven as i16);
                r@[0] == crunched as i16
            }),
    {
        self.clock()
    }

    /// Change the main volume directly, bypassing a full patch reload.
    pub fn change_main_volume(&mut self, velocity: u8)
        requires
            old(self).wf(),
            velocity <= 100,
        ensures
            final(self).wf(),
            final(self).mixer.config.gain_main == velocity,
            *final(self) == (Synth { mixer: final(self).mixer, ..*old(self) }),
            final(self).mixer.config.gain_voices == old(self).mixer.config.gain_voices,
    {
        let mut config = self.mixer.config;
        config.gain_main = velocity;
        self.mixer.reload(config);
    }

    /// Change the filter cutoff directly, bypassing a full patch reload.
    pub fn change_cutoff(&mut self, velocity: u8)
        requires
            old(self).wf(),
        ensures
            final(self).wf(),
            final(self).filter.config == (crate::synth::filter::FilterConfig {
                cutoff_frequency: (velocity * 255) as u16,
                ..old(self).filter.config
            }),
            final(self).filter.buf0 == old(self).filter.buf0,
            final(self).filter.buf1 == old(self).filter.buf1,
            *final(self) == (Synth { filter: final(self).filter, ..*old(self) }),
    {
        let mut config = self.filter.config;
        config.cutoff_frequency = velocity as u16 * 255;
        self.filter.reload(config);
    }

    /// Change the filter resonance directly, bypassing a full patch reload.
    pub fn change_resonance(&mut self, velocity: u8)
        requires
            old(self).wf(),
        ensures
            final(self).wf(),
            final(self).filter.config == (crate::synth::filter::FilterConfig {
                resonance: (velocity * 255) as u16,
                ..old(self).filter.config
            }),
            final(self).filter.buf0 == old(self).filter.buf0,
            final(self).filter.buf1 == old(self).filter.buf1,
            *final(self) == (Synth { filter: final(self).filter, ..*old(self) }),
    {
        let mut config = self.filter.config;
        config.resonance = velocity as u16 * 255;
        self.filter.reload(config);
    }
}

} // verus!
