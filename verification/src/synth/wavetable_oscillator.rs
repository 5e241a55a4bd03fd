//! Wavetable oscillator: a phase accumulator with glide and wavetable
//! lookup. A low-frequency oscillator is the same type with a large update
//! divider, so it free-runs internally but emits once every `speed` samples.

use vstd::prelude::*;

use crate::synth::math::{percentage, scaled_pct};
use crate::synth::Clockable;
use crate::synth::wavetables::{BoxedWavetables, Wavetables, WAVETABLE_LEN};
use std::sync::Arc;

verus! {

/// Number of entries in the phase-to-table-index lookup table.
pub const LOOKUP_TABLE_LEN: usize = 3000;

/// Table index that selects the seeded pseudo-random noise source instead
/// of a wavetable.
pub const NOISE_SOUNDBANK_INDEX: u8 = 255;

/// Highest frequency a caller may ask of the oscillator.
pub const MAX_OSC_FREQ: u16 = 12000;

/// Highest transient pitch offset `manipulate_freq` may add.
pub const MAX_FREQ_MANIPULATION: u16 = 20000;

/// Ceiling the glide clamp keeps the running frequency under; the highest
/// requested frequency plus the largest transient offset.
pub const MAX_RUNNING_FREQ: u16 = 32000;

/// rand's small pseudo-random generator, held per oscillator to produce
/// the noise waveform.
#[verifier::external_type_specification]
#[verifier::external_body]
pub struct ExSmallRng(rand::rngs::SmallRng);

/// Relies on rand's `SmallRng::seed_from_u64` to build a small-state
/// pseudo-random generator from a seed.
#[verifier::external_body]
fn rng_from_seed(seed: u64) -> rand::rngs::SmallRng {
    <rand::rngs::SmallRng as rand::SeedableRng>::seed_from_u64(seed)
}

/// Relies on rand's `Rng::random_range`: the sample lies within the given
/// half-open range; the call panics only on an empty range, which the
/// precondition rules out.
#[verifier::external_body]
fn rng_sample_range(rng: &mut rand::rngs::SmallRng, lo: i16, hi: i16) -> (r: i16)
    requires
        lo < hi,
    ensures
        lo <= r < hi,
{
    rand::Rng::random_range(rng, lo..hi)
}

/// Static configuration of one audio-rate oscillator.
#[derive(Clone, Copy, Debug)]
pub struct WaveTableOscillatorConfig {
    pub soundbank_index: u8,
    pub glide: bool,
    pub glide_rate: u8,
    pub detune: i8,
    pub freq_detune: i8,
}

/// Static configuration of one low-frequency oscillator.
#[derive(Clone, Copy, Debug)]
pub struct WaveTableLoFreqOscillatorConfig {
    pub soundbank_index: u8,
    /// Period control; the oscillator emits once every `4 * time` samples.
    pub time: u16,
}

/// An oscillator configuration is valid for a store when its table index
/// either selects the noise source or an existing table.
pub open spec fn osc_config_ok(c: WaveTableOscillatorConfig, wt: BoxedWavetables) -> bool {
    c.soundbank_index == NOISE_SOUNDBANK_INDEX || (c.soundbank_index as int) < wt.table_count()
}

/// How many lookup entries one cycle of `freq` uses at `sr` samples/s.
pub open spec fn spec_lookup_steps(sr: int, freq: int) -> int {
    sr / freq
}

/// The table index stored at lookup position `i`, computed with a
/// 10,000-fold fixed-point intermediate to avoid rounding bias.
pub open spec fn spec_lookup_entry(sr: int, freq: int, i: int) -> int {
    (i * 10000) / ((sr * 10000 / freq) / 600)
}

/// The glide step for a remaining distance and a glide rate: the distance
/// divided by the rate, falling back to half the distance and then to the
/// distance itself, so the step is never zero while distance remains.
pub open spec fn spec_glide_step(diff: int, rate: int) -> int {
    let stepped = crate::synth::math::tdiv(diff, rate);
    if stepped != 0 {
        stepped
    } else {
        let halved = crate::synth::math::tdiv(diff, 2);
        if halved != 0 {
            halved
        } else {
            diff
        }
    }
}

/// A frequency clamped into the range the oscillator can safely run at:
/// high enough that one cycle fits the lookup table, and below the running
/// ceiling.
pub open spec fn spec_clamp_freq(v: int, sr: int) -> int {
    let lo = sr / 3000 + 1;
    if v < lo {
        lo
    } else if v > MAX_RUNNING_FREQ as int {
        MAX_RUNNING_FREQ as int
    } else {
        v
    }
}

/// Per-voice/per-LFO phase accumulator with glide and wavetable lookup.
pub struct WaveTableOscillator {
    /// Static configuration, swappable at run time.
    pub config: WaveTableOscillatorConfig,
    /// Position within the current cycle.
    pub phase: u16,
    /// Length of the current cycle in samples.
    pub loop_end: u16,
    /// Whether a frequency change is still being applied.
    pub freq_changed: bool,
    /// Noise source for the reserved table index.
    pub random: rand::rngs::SmallRng,
    /// Sample rate the oscillator runs at.
    pub sample_rate: u16,
    /// Phase-to-table-index lookup, recomputed on frequency changes.
    pub lookup_table: [u16; LOOKUP_TABLE_LEN],
    /// Frequency a glide is heading toward.
    pub target_freq: u16,
    /// Last explicitly requested frequency; base for transient offsets.
    pub original_freq: u16,
    /// Frequency change applied per cycle while gliding.
    pub freq_step: i16,
    /// Frequency of the cycle being generated.
    pub current_freq: u16,
    /// Update divider: the oscillator emits once every `speed` samples.
    pub speed: u16,
    /// Most recently emitted sample, held between updates.
    pub last_output: i16,
    /// Samples counted toward the next update.
    pub speed_count: u16,
    /// Shared store the wavetable is read from.
    pub wavetables: Arc<BoxedWavetables>,
}

impl WaveTableOscillator {
    /// Internal invariant: the frequencies stay in the range where one
    /// cycle fits the lookup table, the phase stays inside the table, every
    /// stored index points inside a wavetable, and the table index selects
    /// noise or an existing table.
    pub open spec fn wf(&self) -> bool {
        &&& osc_config_ok(self.config, *self.wavetables)
        &&& (*self.wavetables).wf()
        &&& 1 <= self.current_freq <= MAX_RUNNING_FREQ
        &&& self.sample_rate as int / self.current_freq as int <= 2999
        &&& 1 <= self.target_freq <= MAX_OSC_FREQ
        &&& self.sample_rate as int / self.target_freq as int <= 2999
        &&& 1 <= self.original_freq <= MAX_OSC_FREQ
        &&& self.sample_rate as int / self.original_freq as int <= 2999
        &&& (self.phase <= self.loop_end || self.phase == 1)
        &&& self.loop_end <= 2999
        &&& (forall|i: int|
            0 <= i < LOOKUP_TABLE_LEN ==> #[trigger] self.lookup_table@[i] < WAVETABLE_LEN)
        &&& self.speed >= 1
        &&& self.speed_count < self.speed
        &&& -31999 <= self.freq_step <= 31999
    }

    /// The running frequency after one wrap of the phase while a frequency
    /// change is pending: glide one step toward the target, snapping once
    /// the remaining distance is smaller than the step.
    pub open spec fn spec_after_wrap_freq(self) -> int {
        if !self.freq_changed {
            self.current_freq as int
        } else if self.current_freq == self.target_freq {
            self.current_freq as int
        } else {
            let diff = self.target_freq - self.current_freq;
            let dist = if diff >= 0 {
                diff
            } else {
                -diff
            };
            let step = if self.freq_step >= 0 {
                self.freq_step as int
            } else {
                -(self.freq_step as int)
            };
            if dist < step {
                self.target_freq as int
            } else {
                spec_clamp_freq(
                    self.current_freq + self.freq_step,
                    self.sample_rate as int,
                )
            }
        }
    }

    /// Whether a frequency change is still pending after one wrap of the
    /// phase.
    pub open spec fn spec_after_wrap_changed(self) -> bool {
        if !self.freq_changed {
            false
        } else if self.current_freq == self.target_freq {
            false
        } else {
            let diff = self.target_freq - self.current_freq;
            let dist = if diff >= 0 {
                diff
            } else {
                -diff
            };
            let step = if self.freq_step >= 0 {
                self.freq_step as int
            } else {
                -(self.freq_step as int)
            };
            !(dist < step)
        }
    }

    pub fn new_lfo(
        config: WaveTableLoFreqOscillatorConfig,
        sample_rate: u16,
        wavetables: Arc<BoxedWavetables>,
    ) -> (r: Self)
        requires
            (*wavetables).wf(),
            config.soundbank_index == NOISE_SOUNDBANK_INDEX || (config.soundbank_index as int)
                < (*wavetables).table_count(),
            1 <= config.time <= 16383,
        ensures
            r.wf(),
            r.config == (WaveTableOscillatorConfig {
                soundbank_index: config.soundbank_index,
                glide: false,
                glide_rate: 0,
                detune: 0,
                freq_detune: 0,
            }),
            r.speed == 4 * config.time,
            r.speed_count == 0,
            r.phase == 0,
            r.last_output == 0,
            r.current_freq == 440,
            r.target_freq == 440,
            r.original_freq == 440,
            r.freq_changed == false,
            r.sample_rate == sample_rate,
            r.loop_end == sample_rate / 440 + 1,
            forall|i: int|
                0 <= i < spec_lookup_steps(sample_rate as int, 440) ==> #[trigger] r.lookup_table@[i]
                    == spec_lookup_entry(sample_rate as int, 440, i),
            forall|i: int|
                spec_lookup_steps(sample_rate as int, 440) <= i < LOOKUP_TABLE_LEN
                    ==> #[trigger] r.lookup_table@[i] == 0,
            r.wavetables == wavetables,
    {
        let new_config = WaveTableOscillatorConfig {
            soundbank_index: config.soundbank_index,
            glide: false,
            glide_rate: 0,
            detune: 0,
            freq_detune: 0,
        };
        let mut osc = Self::new(new_config, sample_rate, wavetables);
        osc.speed = 4 * config.time;
        osc
    }

    pub fn new(
        config: WaveTableOscillatorConfig,
        sample_rate: u16,
        wavetables: Arc<BoxedWavetables>,
    ) -> (r: Self)
        requires
            (*wavetables).wf(),
            config.soundbank_index == NOISE_SOUNDBANK_INDEX || (config.soundbank_index as int)
                < (*wavetables).table_count(),
        ensures
            r.wf(),
            r.config == config,
            r.sample_rate == sample_rate,
            r.speed == 1,
            r.speed_count == 0,
            r.phase == 0,
            r.last_output == 0,
            r.current_freq == 440,
            r.target_freq == 440,
            r.original_freq == 440,
            r.freq_changed == false,
            r.wavetables == wavetables,
            r.loop_end == sample_rate / 440 + 1,
            forall|i: int|
                0 <= i < spec_lookup_steps(sample_rate as int, 440) ==> #[trigger] r.lookup_table@[i]
                    == spec_lookup_entry(sample_rate as int, 440, i),
            forall|i: int|
                spec_lookup_steps(sample_rate as int, 440) <= i < LOOKUP_TABLE_LEN
                    ==> #[trigger] r.lookup_table@[i] == 0,
    {
        let mut osc = Self {
            config,
            phase: 0,
            loop_end: sample_rate / 440 + 1,
            freq_changed: false,
            random: rng_from_seed(23702372039u64),
            sample_rate,
            lookup_table: [0u16; LOOKUP_TABLE_LEN],
            target_freq: 440,
            original_freq: 440,
            current_freq: 440,
            freq_step: 0,
            last_output: 0,
            speed_count: 0,
            speed: 1,
            wavetables,
        };
        osc.calculate_lookup_table();
        osc
    }

    /// Rebuild the phase-to-table-index lookup for the current frequency.
    /// Only the entries one cycle uses are rewritten; later entries keep
    /// their previous (still in-range) values.
    fn calculate_lookup_table(&mut self)
        requires
            1 <= old(self).current_freq,
            old(self).sample_rate as int / old(self).current_freq as int <= 2999,
            forall|i: int|
                0 <= i < LOOKUP_TABLE_LEN ==> #[trigger] old(self).lookup_table@[i]
                    < WAVETABLE_LEN,
        ensures
            *final(self) == (WaveTableOscillator {
                lookup_table: final(self).lookup_table,
                ..*old(self)
            }),
            forall|i: int|
                0 <= i < LOOKUP_TABLE_LEN ==> #[trigger] final(self).lookup_table@[i]
                    < WAVETABLE_LEN,
            forall|i: int|
                0 <= i < spec_lookup_steps(
                    old(self).sample_rate as int,
                    old(self).current_freq as int,
                ) ==> #[trigger] final(self).lookup_table@[i] == spec_lookup_entry(
                    old(self).sample_rate as int,
                    old(self).current_freq as int,
                    i,
                ),
            forall|i: int|
                spec_lookup_steps(old(self).sample_rate as int, old(self).current_freq as int)
                    <= i < LOOKUP_TABLE_LEN ==> #[trigger] final(self).lookup_table@[i]
                    == old(self).lookup_table@[i],
    {
        let sr: u32 = self.sample_rate as u32;
        let freq: u32 = self.current_freq as u32;
        let sample_rate_expanded: u32 = sr * 10_000;
        let one_loop: u32 = sample_rate_expanded / freq;
        let one_step_loop: u32 = one_loop / 600;
        let mut increase: u32 = 0;
        let steps: u16 = self.sample_rate / self.current_freq;
        proof {
            assert(steps <= 2999);
            if steps >= 1 {
                assert(self.current_freq <= self.sample_rate) by (nonlinear_arith)
                    requires
                        self.sample_rate as int / self.current_freq as int >= 1,
                        self.current_freq >= 1,
                ;
                assert(one_loop >= 10000) by (nonlinear_arith)
                    requires
                        one_loop == sr as int * 10000 / freq as int,
                        1 <= freq <= sr,
                        sr <= 65535,
                ;
                assert(one_step_loop >= 16);
            }
        }
        let mut i: u16 = 0;
        while i < steps
            invariant
                steps <= 2999,
                steps >= 1 ==> one_step_loop >= 16,
                i <= steps,
                increase == i as int * 10000,
                sr == self.sample_rate,
                freq == self.current_freq,
                one_loop == sr as int * 10000 / freq as int,
                one_step_loop == one_loop as int / 600,
                1 <= freq,
                freq <= sr || steps == 0,
                steps == sr as int / freq as int,
                forall|j: int|
                    0 <= j < LOOKUP_TABLE_LEN ==> #[trigger] self.lookup_table@[j]
                        < WAVETABLE_LEN,
                forall|j: int|
                    0 <= j < i ==> #[trigger] self.lookup_table@[j] == spec_lookup_entry(
                        sr as int,
                        freq as int,
                        j,
                    ),
                forall|j: int|
                    i <= j < LOOKUP_TABLE_LEN ==> #[trigger] self.lookup_table@[j] == old(self).lookup_table@[j],
                *self == (WaveTableOscillator {
                    lookup_table: self.lookup_table,
                    ..*old(self)
                }),
            decreases steps - i,
        {
            proof {
                // one cycle's worth of entries always lands inside the table
                assert(steps as int * 10000 <= one_loop) by (nonlinear_arith)
                    requires
                        steps == sr as int / freq as int,
                        one_loop == sr as int * 10000 / freq as int,
                        1 <= freq,
                        sr >= 0,
                ;
                assert(increase < 600 * one_step_loop) by (nonlinear_arith)
                    requires
                        increase == i as int * 10000,
                        i < steps,
                        steps as int * 10000 <= one_loop,
                        one_step_loop == one_loop as int / 600,
                        one_loop >= 0,
                ;
                assert(increase as int / one_step_loop as int <= 599) by (nonlinear_arith)
                    requires
                        increase < 600 * one_step_loop,
                        one_step_loop >= 1,
                        increase >= 0,
                ;
            }
            let entry: u16 = (increase / one_step_loop) as u16;
            self.lookup_table[i as usize] = entry;
            increase = increase + 10_000;
            i = i + 1;
        }
    }

    /// Swap the static configuration without resetting the phase, for
    /// glitch-free patch hot-swaps.
    pub fn reload(&mut self, config: WaveTableOscillatorConfig)
        requires
            old(self).wf(),
            config.soundbank_index == NOISE_SOUNDBANK_INDEX || (config.soundbank_index as int)
                < (*old(self).wavetables).table_count(),
        ensures
            final(self).wf(),
            *final(self) == (WaveTableOscillator { config, ..*old(self) }),
    {
        self.config = config;
    }

    /// Swap the low-frequency configuration without resetting the phase:
    /// the table index and the update divider change, the running
    /// frequency state stays.
    pub fn reload_lfo(&mut self, config: WaveTableLoFreqOscillatorConfig)
        requires
            old(self).wf(),
            config.soundbank_index == NOISE_SOUNDBANK_INDEX || (config.soundbank_index as int)
                < (*old(self).wavetables).table_count(),
            1 <= config.time <= 16383,
        ensures
            final(self).wf(),
            *final(self) == (WaveTableOscillator {
                config: (WaveTableOscillatorConfig {
                    soundbank_index: config.soundbank_index,
                    glide: false,
                    glide_rate: 0,
                    detune: 0,
                    freq_detune: 0,
                }),
                speed: (4 * config.time) as u16,
                speed_count: 0,
                ..*old(self)
            }),
    {
        self.config = WaveTableOscillatorConfig {
            soundbank_index: config.soundbank_index,
            glide: false,
            glide_rate: 0,
            detune: 0,
            freq_detune: 0,
        };
        self.speed = 4 * config.time;
        self.speed_count = 0;
    }

    /// Apply a transient pitch offset relative to the last explicitly
    /// requested frequency; recomputed per call, non-accumulating.
    pub fn manipulate_freq(&mut self, perc: u8, amount: u16)
        requires
            old(self).wf(),
            perc <= 100,
            amount <= MAX_FREQ_MANIPULATION,
        ensures
            final(self).wf(),
            final(self).current_freq == old(self).original_freq + scaled_pct(
                amount as int,
                perc as int,
            ),
            final(self).freq_changed == true,
            *final(self) == (WaveTableOscillator {
                current_freq: final(self).current_freq,
                freq_changed: true,
                ..*old(self)
            }),
    {
        let offset: i16 = percentage(amount as i16, perc as i16);
        self.current_freq = self.original_freq + offset as u16;
        self.freq_changed = true;
        proof {
            assert(self.sample_rate as int / self.current_freq as int <= self.sample_rate as int
                / self.original_freq as int) by (nonlinear_arith)
                requires
                    self.current_freq >= self.original_freq >= 1,
                    self.sample_rate >= 0,
            ;
        }
    }

    /// Point the oscillator at a new frequency. With glide disabled (or a
    /// zero glide rate, which is treated as disabled) the change is
    /// immediate; otherwise the frequency walks toward the target in steps
    /// of the remaining distance divided by the glide rate, kept nonzero so
    /// the glide terminates.
    pub fn change_freq(&mut self, frequency: u16)
        requires
            old(self).wf(),
            1 <= frequency <= MAX_OSC_FREQ,
            old(self).sample_rate as int / frequency as int <= 2999,
        ensures
            final(self).wf(),
            old(self).current_freq == frequency ==> *final(self) == *old(self),
            old(self).current_freq != frequency ==> {
                &&& final(self).target_freq == frequency
                &&& final(self).original_freq == frequency
                &&& final(self).freq_changed == true
                &&& (old(self).config.glide && old(self).config.glide_rate > 0 ==> {
                    &&& final(self).current_freq == old(self).current_freq
                    &&& final(self).freq_step == spec_glide_step(
                        frequency - old(self).current_freq,
                        old(self).config.glide_rate as int,
                    )
                    &&& final(self).freq_step != 0
                })
                &&& (!(old(self).config.glide && old(self).config.glide_rate > 0)
                    ==> final(self).current_freq == frequency && final(self).freq_step == old(self).freq_step)
                &&& final(self).phase == old(self).phase
                &&& final(self).loop_end == old(self).loop_end
                &&& final(self).lookup_table == old(self).lookup_table
                &&& final(self).config == old(self).config
                &&& final(self).speed == old(self).speed
                &&& final(self).speed_count == old(self).speed_count
                &&& final(self).last_output == old(self).last_output
                &&& final(self).sample_rate == old(self).sample_rate
                &&& final(self).wavetables == old(self).wavetables
                &&& final(self).random == old(self).random
            },
    {
        if self.current_freq != frequency {
            self.target_freq = frequency;
            if self.config.glide && self.config.glide_rate > 0 {
                let diff: i16 = frequency as i16 - self.current_freq as i16;
                self.freq_step = diff / self.config.glide_rate as i16;
                // keep the step nonzero so the glide terminates in finite
                // steps: half the remaining distance, or the distance
                // itself when even that truncates to zero
                if self.freq_step == 0 {
                    self.freq_step = diff / 2;
                }
                if self.freq_step == 0 {
                    self.freq_step = diff;
                }
            } else {
                self.current_freq = frequency;
            }
            self.original_freq = frequency;
            self.freq_changed = true;
        }
    }

}

impl Clockable for WaveTableOscillator {
    open spec fn inv(&self) -> bool {
        self.wf()
    }

    /// Advance the oscillator by one sample. Once every `speed` samples it
    /// emits a fresh sample: the phase advances (wrapping at the end of the
    /// cycle), a pending frequency change glides one step further on wrap,
    /// and the output is read from the wavetable — or drawn from the noise
    /// source when the reserved table index is configured.
    fn clock(&mut self, _sample: Option<i16>) -> (r: i16)
        ensures
            r == final(self).last_output,
            final(self).config == old(self).config,
            final(self).sample_rate == old(self).sample_rate,
            final(self).speed == old(self).speed,
            final(self).freq_step == old(self).freq_step,
            final(self).target_freq == old(self).target_freq,
            final(self).original_freq == old(self).original_freq,
            final(self).wavetables == old(self).wavetables,
            old(self).speed_count + 1 != old(self).speed ==> {
                &&& final(self).speed_count == old(self).speed_count + 1
                &&& final(self).phase == old(self).phase
                &&& final(self).current_freq == old(self).current_freq
                &&& final(self).freq_changed == old(self).freq_changed
                &&& final(self).loop_end == old(self).loop_end
                &&& final(self).lookup_table == old(self).lookup_table
                &&& final(self).last_output == old(self).last_output
            },
            old(self).speed_count + 1 == old(self).speed ==> {
                &&& final(self).speed_count == 0
                &&& final(self).phase == (if old(self).phase >= old(self).loop_end {
                    1u16
                } else {
                    (old(self).phase + 1) as u16
                })
                &&& (old(self).phase >= old(self).loop_end ==> {
                    &&& final(self).current_freq == old(self).spec_after_wrap_freq()
                    &&& final(self).freq_changed == old(self).spec_after_wrap_changed()
                    &&& (old(self).freq_changed ==> {
                        &&& final(self).loop_end == old(self).sample_rate as int / final(self).current_freq as int
                        &&& forall|i: int|
                            0 <= i < spec_lookup_steps(
                                old(self).sample_rate as int,
                                final(self).current_freq as int,
                            ) ==> #[trigger] final(self).lookup_table@[i] == spec_lookup_entry(
                                old(self).sample_rate as int,
                                final(self).current_freq as int,
                                i,
                            )
                        &&& forall|i: int|
                            spec_lookup_steps(
                                old(self).sample_rate as int,
                                final(self).current_freq as int,
                            ) <= i < LOOKUP_TABLE_LEN ==> #[trigger] final(self).lookup_table@[i]
                                == old(self).lookup_table@[i]
                    })
                    &&& (!old(self).freq_changed ==> final(self).loop_end == old(self).loop_end
                        && final(self).lookup_table == old(self).lookup_table)
                })
                &&& (old(self).phase < old(self).loop_end ==> {
                    &&& final(self).current_freq == old(self).current_freq
                    &&& final(self).freq_changed == old(self).freq_changed
                    &&& final(self).loop_end == old(self).loop_end
                    &&& final(self).lookup_table == old(self).lookup_table
                })
                &&& (old(self).config.soundbank_index != NOISE_SOUNDBANK_INDEX
                    ==> final(self).last_output == (*old(self).wavetables).table_at(
                    old(self).config.soundbank_index as int,
                )[final(self).lookup_table@[(if old(self).phase >= old(self).loop_end {
                    0int
                } else {
                    old(self).phase as int
                })] as int])
                &&& (old(self).config.soundbank_index == NOISE_SOUNDBANK_INDEX
                    ==> -31768 <= final(self).last_output <= 31766)
            },
    {
        self.speed_count = self.speed_count + 1;
        if self.speed == self.speed_count {
            self.speed_count = 0;
            // Reset the phase at the end of the cycle
            if self.phase >= self.loop_end {
                self.phase = 0;
                // Apply a pending frequency change one glide step at a time
                if self.freq_changed {
                    if self.current_freq != self.target_freq {
                        let diff: i16 = self.target_freq as i16 - self.current_freq as i16;
                        let step_size: i16 = self.freq_step;
                        let diff_mag: i16 = if diff >= 0 {
                            diff
                        } else {
                            -diff
                        };
                        let step_mag: i16 = if step_size >= 0 {
                            step_size
                        } else {
                            -step_size
                        };
                        if diff_mag < step_mag {
                            self.current_freq = self.target_freq;
                            self.freq_changed = false;
                        } else {
                            // clamp the glide into the range one cycle of
                            // which fits the lookup table
                            let lo: u16 = self.sample_rate / 3000 + 1;
                            let cand: i32 = self.current_freq as i32 + step_size as i32;
                            let next: u16 = if cand < lo as i32 {
                                lo
                            } else if cand > MAX_RUNNING_FREQ as i32 {
                                MAX_RUNNING_FREQ
                            } else {
                                cand as u16
                            };
                            proof {
                                assert(self.sample_rate as int / (self.sample_rate as int / 3000
                                    + 1) <= 2999) by (nonlinear_arith)
                                    requires
                                        0 <= self.sample_rate <= 65535,
                                ;
                                assert(next >= lo ==> self.sample_rate as int / next as int
                                    <= self.sample_rate as int / lo as int) by (nonlinear_arith)
                                    requires
                                        next >= 1 && lo >= 1
                                            && self.sample_rate >= 0,
                                ;
                            }
                            self.current_freq = next;
                        }
                    } else {
                        self.freq_changed = false;
                    }
                    self.loop_end = self.sample_rate / self.current_freq;
                    self.calculate_lookup_table();
                }
            }
            // Generate output
            let output: i16 = if self.config.soundbank_index == NOISE_SOUNDBANK_INDEX {
                // seeded pseudo-random noise
                rng_sample_range(&mut self.random, i16::MIN + 1000, i16::MAX - 1000)
            } else {
                // wavetable lookup
                let index: usize = self.lookup_table[self.phase as usize] as usize;
                let table: &[i16] = self.wavetables.get_wavetable_reference(
                    self.config.soundbank_index,
                );
                table[index]
            };
            self.phase = self.phase + 1;
            self.last_output = output;
        }
        self.last_output
    }
}

} // verus!
