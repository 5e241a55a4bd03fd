//! Envelope generator: a per-voice percentage-level state machine that
//! shapes each note through attack, decay, sustain and release phases.

use vstd::prelude::*;

use crate::synth::math;
use crate::synth::math::{percentage, scaled_pct};
use crate::synth::Clockable;

verus! {

/// The phase an envelope generator is currently in.
#[derive(Clone, Copy, PartialEq, Eq, Structural, Debug)]
pub enum EnvelopeState {
    Idle,
    Attack,
    Decay,
    Sustain,
    Release,
}

/// Millisecond-scale durations of the attack, decay and release phases and
/// the sustain level in percent.
#[derive(Clone, Copy, Debug)]
pub struct EnvelopConfiguration {
    pub attack_time: i16,
    pub decay_time: i16,
    pub release_time: i16,
    pub sustain_level: i16,
}

/// A configuration is valid when every duration is nonnegative and the
/// sustain level is a percentage.
pub open spec fn env_config_valid(c: EnvelopConfiguration) -> bool {
    &&& 0 <= c.attack_time
    &&& 0 <= c.decay_time
    &&& 0 <= c.release_time
    &&& 0 <= c.sustain_level <= 100
}

/// Percentage-level envelope generator, clocked once per audio sample.
pub struct EnvelopeGenerator {
    /// Static configuration, swappable at run time.
    pub configuration: EnvelopConfiguration,
    /// Whether a note is currently holding the envelope.
    pub gate: bool,
    /// Current phase of the state machine.
    pub state: EnvelopeState,
    /// Ticks spent in the current phase so far.
    pub tick: u32,
    /// Sample ticks that make up one millisecond.
    pub ticks_per_ms: u16,
    /// Ticks needed for the level to move by one percentage point.
    pub ticks_per_percent: u32,
    /// Level emitted by the most recent clock, 0..=100.
    pub current_level: i16,
    /// Level held at release time; start of the release slope.
    pub release_level: i16,
    /// Total tick budget of the current phase.
    pub phase_ticks: u32,
    /// Level the current attack started from (legato retrigger).
    pub retrigger_level: i16,
    /// How many overlapping holds are active; release waits for all of them.
    pub gate_open_counter: u8,
}

impl EnvelopeGenerator {
    /// Internal invariant: all levels are percentages, the tick counter
    /// never runs more than one past its phase budget, budgets fit the
    /// duration arithmetic, and a decay budget is consistent with its
    /// per-percent step.
    pub open spec fn wf(&self) -> bool {
        &&& env_config_valid(self.configuration)
        &&& 0 <= self.current_level <= 100
        &&& 0 <= self.release_level <= 100
        &&& 0 <= self.retrigger_level <= 100
        &&& self.tick <= self.phase_ticks + 1
        &&& self.phase_ticks <= 32767 * 65535
        &&& (self.state is Decay ==> self.phase_ticks <= 100 * self.ticks_per_percent + 99)
    }

    /// The state as it stands after entering the decay phase.
    pub open spec fn spec_decay(self) -> EnvelopeGenerator {
        EnvelopeGenerator {
            state: EnvelopeState::Decay,
            tick: 0,
            ticks_per_percent: (self.configuration.decay_time * self.ticks_per_ms / 100) as u32,
            phase_ticks: (self.configuration.decay_time * self.ticks_per_ms) as u32,
            ..self
        }
    }

    /// The state as it stands after `close_gate`: overlapping holds only
    /// count down; when the last one ends, the release phase starts from
    /// the level the envelope had at that moment (or straight to idle when
    /// no release time is configured).
    pub open spec fn spec_close_gate(self) -> EnvelopeGenerator {
        if !self.gate {
            self
        } else {
            let counter = if self.gate_open_counter > 0 {
                (self.gate_open_counter - 1) as u8
            } else {
                self.gate_open_counter
            };
            if counter != 0 {
                EnvelopeGenerator { gate_open_counter: counter, ..self }
            } else if self.configuration.release_time > 0 {
                EnvelopeGenerator {
                    gate_open_counter: counter,
                    tick: 0,
                    gate: false,
                    state: EnvelopeState::Release,
                    release_level: if self.release_level != self.configuration.sustain_level {
                        self.current_level
                    } else {
                        self.configuration.sustain_level
                    },
                    ticks_per_percent: (self.configuration.release_time * self.ticks_per_ms
                        / 100) as u32,
                    phase_ticks: (self.configuration.release_time * self.ticks_per_ms) as u32,
                    ..self
                }
            } else {
                EnvelopeGenerator {
                    gate_open_counter: counter,
                    tick: 0,
                    gate: false,
                    state: EnvelopeState::Idle,
                    ..self
                }
            }
        }
    }

    /// The state as it stands after `open_gate`: a fresh attack from level
    /// zero uses the configured attack time; a retrigger from a level in
    /// between scales the attack time by the remaining distance to 100%
    /// and starts the slope from the current level; a retrigger at full
    /// level skips straight to decay.
    pub open spec fn spec_open_gate(self) -> EnvelopeGenerator {
        let opened = EnvelopeGenerator {
            gate: true,
            tick: 0,
            gate_open_counter: if self.gate_open_counter < 255 {
                (self.gate_open_counter + 1) as u8
            } else {
                self.gate_open_counter
            },
            state: EnvelopeState::Attack,
            retrigger_level: 0,
            ..self
        };
        if self.current_level > 0 {
            if self.current_level < 100 {
                let remaining = 100 - self.current_level;
                let adjusted = scaled_pct(self.configuration.attack_time as int, remaining as int);
                EnvelopeGenerator {
                    retrigger_level: self.current_level,
                    ticks_per_percent: (adjusted * self.ticks_per_ms / (remaining as int)) as u32,
                    phase_ticks: (adjusted * self.ticks_per_ms) as u32,
                    ..opened
                }
            } else {
                opened.spec_decay()
            }
        } else {
            EnvelopeGenerator {
                ticks_per_percent: (self.configuration.attack_time * self.ticks_per_ms
                    / 100) as u32,
                phase_ticks: (self.configuration.attack_time * self.ticks_per_ms) as u32,
                ..opened
            }
        }
    }

    /// The level one clock emits, before it is stored, as a function of the
    /// state the clock started from.
    pub open spec fn spec_output(self) -> int {
        if !self.gate && self.state is Idle {
            0
        } else {
            match self.state {
                EnvelopeState::Attack => {
                    if self.tick > self.phase_ticks {
                        100
                    } else if self.ticks_per_percent > 0 {
                        let raw = self.retrigger_level + self.tick / self.ticks_per_percent;
                        if raw > 100 {
                            100int
                        } else {
                            raw
                        }
                    } else {
                        self.current_level as int
                    }
                },
                EnvelopeState::Decay => {
                    if self.tick > self.phase_ticks {
                        self.configuration.sustain_level as int
                    } else if self.ticks_per_percent > 0 {
                        let pct = scaled_pct(
                            100 - self.configuration.sustain_level,
                            self.tick as int / self.ticks_per_percent as int,
                        );
                        if 100 - pct < self.configuration.sustain_level {
                            self.configuration.sustain_level as int
                        } else {
                            100 - pct
                        }
                    } else {
                        self.current_level as int
                    }
                },
                EnvelopeState::Sustain => self.configuration.sustain_level as int,
                EnvelopeState::Release => {
                    if self.tick > self.phase_ticks {
                        0
                    } else if self.ticks_per_percent == 0 {
                        0
                    } else if (self.tick as int / self.ticks_per_percent as int) < 101 {
                        scaled_pct(
                            self.release_level as int,
                            100 - self.tick as int / self.ticks_per_percent as int,
                        )
                    } else {
                        0
                    }
                },
                EnvelopeState::Idle => 0,
            }
        }
    }

    /// The state as it stands after one clock: phase transitions happen
    /// when the tick counter passes the phase budget, the tick counter
    /// advances (held at most one past the budget), and the emitted level
    /// is stored.
    pub open spec fn spec_clock(self) -> EnvelopeGenerator {
        let stepped = if !self.gate && self.state is Idle {
            self
        } else {
            let transitioned = match self.state {
                EnvelopeState::Attack => {
                    if self.tick > self.phase_ticks {
                        self.spec_decay()
                    } else {
                        self
                    }
                },
                EnvelopeState::Decay => {
                    if self.tick > self.phase_ticks {
                        EnvelopeGenerator { state: EnvelopeState::Sustain, tick: 0, ..self }
                    } else {
                        self
                    }
                },
                EnvelopeState::Release => {
                    if self.tick > self.phase_ticks {
                        EnvelopeGenerator {
                            state: EnvelopeState::Idle,
                            tick: 0,
                            phase_ticks: 0,
                            ..self
                        }
                    } else {
                        self
                    }
                },
                _ => self,
            };
            let advanced = if transitioned.tick <= transitioned.phase_ticks {
                EnvelopeGenerator { tick: (transitioned.tick + 1) as u32, ..transitioned }
            } else {
                transitioned
            };
            EnvelopeGenerator { current_level: self.spec_output() as i16, ..advanced }
        };
        stepped
    }

    pub fn new(envelop: EnvelopConfiguration, sample_rate: u16) -> (r: Self)
        requires
            env_config_valid(envelop),
        ensures
            r.wf(),
            r.configuration == envelop,
            r.gate == false,
            r.state is Idle,
            r.current_level == 0,
            r.gate_open_counter == 0,
            r.ticks_per_ms == sample_rate / 1000,
            r.tick == 0,
            r.phase_ticks == 0,
    {
        Self {
            configuration: envelop,
            gate: false,
            state: EnvelopeState::Idle,
            tick: 0,
            ticks_per_ms: sample_rate / 1000,
            ticks_per_percent: 0,
            current_level: 0,
            release_level: 0,
            phase_ticks: 0,
            retrigger_level: 0,
            gate_open_counter: 0,
        }
    }

    /// Swap the static configuration in place; the running phase keeps its
    /// current budgets until the next transition.
    pub fn reload(&mut self, envelop: EnvelopConfiguration)
        requires
            old(self).wf(),
            env_config_valid(envelop),
        ensures
            final(self).wf(),
            *final(self) == (EnvelopeGenerator { configuration: envelop, ..*old(self) }),
    {
        self.configuration = envelop;
    }

    /// Enter the decay phase: the per-percent step and the budget both
    /// derive from the configured decay time.
    fn decay(&mut self)
        requires
            old(self).wf(),
        ensures
            final(self).wf(),
            *final(self) == old(self).spec_decay(),
    {
        self.state = EnvelopeState::Decay;
        self.tick = 0;
        proof {
            assert(0 <= self.configuration.decay_time * self.ticks_per_ms <= 32767 * 65535)
                by (nonlinear_arith)
                requires
                    0 <= self.configuration.decay_time <= 32767 && 0 <= self.ticks_per_ms <= 65535,
            ;
        }
        let budget: u32 = self.configuration.decay_time as u32 * self.ticks_per_ms as u32;
        self.ticks_per_percent = budget / 100;
        self.phase_ticks = budget;
    }

    /// End one hold of the envelope; it releases only when every
    /// overlapping hold has ended.
    pub fn close_gate(&mut self)
        requires
            old(self).wf(),
        ensures
            final(self).wf(),
            *final(self) == old(self).spec_close_gate(),
    {
        if !self.gate {
            return ;
        }
        if self.gate_open_counter > 0 {
            self.gate_open_counter = self.gate_open_counter - 1;
        }
        if self.gate_open_counter == 0 {
            self.tick = 0;
            self.gate = false;
            if self.configuration.release_time > 0 {
                self.state = EnvelopeState::Release;
                self.release_level = if self.release_level != self.configuration.sustain_level {
                    self.current_level
                } else {
                    self.configuration.sustain_level
                };
                proof {
                    assert(0 <= self.configuration.release_time * self.ticks_per_ms <= 32767
                        * 65535) by (nonlinear_arith)
                        requires
                            0 <= self.configuration.release_time <= 32767 && 0 <= self.ticks_per_ms
                                <= 65535,
                    ;
                }
                let budget: u32 = self.configuration.release_time as u32
                    * self.ticks_per_ms as u32;
                self.ticks_per_percent = budget / 100;
                self.phase_ticks = budget;
            } else {
                self.state = EnvelopeState::Idle;
            }
        }
    }

    /// Hold the envelope and start an attack. A retrigger while the level
    /// is still above zero starts the slope from the current level and
    /// scales the attack time down by the remaining distance to 100%, so
    /// the remaining rise takes proportionally less time.
    pub fn open_gate(&mut self)
        requires
            old(self).wf(),
        ensures
            final(self).wf(),
            *final(self) == old(self).spec_open_gate(),
            final(self).gate == true,
    {
        self.gate = true;
        self.tick = 0;
        if self.gate_open_counter < 255 {
            self.gate_open_counter = self.gate_open_counter + 1;
        }
        self.state = EnvelopeState::Attack;
        let mut adjusted_attack_time: i16 = self.configuration.attack_time;
        self.retrigger_level = 0;
        if self.current_level > 0 {
            // remaining distance of the slope up to 100%
            let percentage_remaining: i16 = 100 - self.current_level;
            if percentage_remaining > 0 {
                self.retrigger_level = self.current_level;
                adjusted_attack_time = percentage(
                    self.configuration.attack_time,
                    percentage_remaining,
                );
                proof {
                    assert(0 <= adjusted_attack_time * self.ticks_per_ms <= 32767 * 65535)
                        by (nonlinear_arith)
                        requires
                            0 <= adjusted_attack_time <= 32767 && 0 <= self.ticks_per_ms <= 65535,
                    ;
                }
                let budget: u32 = adjusted_attack_time as u32 * self.ticks_per_ms as u32;
                self.ticks_per_percent = budget / (percentage_remaining as u32);
                self.phase_ticks = budget;
            } else {
                self.decay();
            }
        } else {
            proof {
                assert(0 <= adjusted_attack_time * self.ticks_per_ms <= 32767 * 65535)
                    by (nonlinear_arith)
                    requires
                        0 <= adjusted_attack_time <= 32767 && 0 <= self.ticks_per_ms <= 65535,
                ;
            }
            let budget: u32 = adjusted_attack_time as u32 * self.ticks_per_ms as u32;
            self.ticks_per_percent = budget / 100;
            self.phase_ticks = budget;
        }
    }

}

impl Clockable for EnvelopeGenerator {
    open spec fn inv(&self) -> bool {
        self.wf()
    }

    /// Advance the envelope by one sample tick and emit the current level.
    fn clock(&mut self, _sample: Option<i16>) -> (r: i16)
        ensures
            *final(self) == old(self).spec_clock(),
            r == old(self).spec_output(),
            0 <= r <= 100,
    {
        if !self.gate && self.state == EnvelopeState::Idle {
            return 0;
        }
        let mut output: i16 = 0;
        match self.state {
            EnvelopeState::Attack => {
                if self.tick > self.phase_ticks {
                    output = 100;
                    self.decay();
                } else if self.ticks_per_percent > 0 {
                    let progress: u32 = self.tick / self.ticks_per_percent;
                    let raw: u32 = self.retrigger_level as u32 + progress;
                    output = if raw > 100 {
                        100
                    } else {
                        raw as i16
                    };
                } else {
                    output = self.current_level;
                }
            },
            EnvelopeState::Decay => {
                if self.tick > self.phase_ticks {
                    output = self.configuration.sustain_level;
                    self.state = EnvelopeState::Sustain;
                    self.tick = 0;
                } else if self.ticks_per_percent > 0 {
                    let progress: u32 = self.tick / self.ticks_per_percent;
                    proof {
                        assert(self.tick as int / self.ticks_per_percent as int <= 199)
                            by (nonlinear_arith)
                            requires
                                self.ticks_per_percent >= 1,
                                self.tick <= 100 * self.ticks_per_percent + 99,
                        ;
                    }
                    proof {
                        math::lemma_scaled_pct_unfold(
                            100 - self.configuration.sustain_level as int,
                            self.tick as int / self.ticks_per_percent as int,
                        );
                        assert(0 <= (100 - self.configuration.sustain_level as int) * 10 * (
                        self.tick as int / self.ticks_per_percent as int) <= 199 * 1000)
                            by (nonlinear_arith)
                            requires
                                0 <= 100 - self.configuration.sustain_level as int <= 100,
                                0 <= self.tick as int / self.ticks_per_percent as int <= 199,
                        ;
                        math::lemma_tdiv_bound(
                            (100 - self.configuration.sustain_level as int) * 10 * (
                            self.tick as int / self.ticks_per_percent as int),
                            1000,
                            199,
                        );
                    }
                    let pct: i16 = percentage(
                        100 - self.configuration.sustain_level,
                        progress as i16,
                    );
                    // the interpolation from 100 down clamps at the
                    // sustain level; rounding never dips below it
                    let decayed: i16 = 100 - pct;
                    output = if decayed < self.configuration.sustain_level {
                        self.configuration.sustain_level
                    } else {
                        decayed
                    };
                } else {
                    output = self.current_level;
                }
            },
            EnvelopeState::Sustain => {
                output = self.configuration.sustain_level;
            },
            EnvelopeState::Release => {
                if self.tick > self.phase_ticks {
                    output = 0;
                    self.state = EnvelopeState::Idle;
                    self.tick = 0;
                    self.phase_ticks = 0;
                } else if self.ticks_per_percent == 0 {
                    output = 0;
                } else {
                    let progress: u32 = self.tick / self.ticks_per_percent;
                    if progress < 101 {
                        output = percentage(self.release_level, (100 - progress as i16) as i16);
                    } else {
                        output = 0;
                    }
                }
            },
            EnvelopeState::Idle => {},
        }
        if self.tick <= self.phase_ticks {
            self.tick = self.tick + 1;
        }
        self.current_level = output;
        output
    }
}

/// The envelope state after `n` consecutive clocks.
pub open spec fn spec_clock_n(e: EnvelopeGenerator, n: nat) -> EnvelopeGenerator
    decreases n,
{
    if n == 0 {
        e
    } else {
        spec_clock_n(e, (n - 1) as nat).spec_clock()
    }
}

/// One clock keeps the envelope well formed and emits a percentage.
pub proof fn lemma_clock_preserves_wf(e: EnvelopeGenerator)
    requires
        e.wf(),
    ensures
        0 <= e.spec_output() <= 100,
        e.spec_clock().wf(),
{
    if e.gate || !(e.state is Idle) {
        match e.state {
            EnvelopeState::Attack => {
                if e.tick > e.phase_ticks {
                    assert(0 <= e.configuration.decay_time * e.ticks_per_ms <= 32767 * 65535)
                        by (nonlinear_arith)
                        requires
                            0 <= e.configuration.decay_time <= 32767 && 0 <= e.ticks_per_ms
                                <= 65535,
                    ;
                } else if e.ticks_per_percent > 0 {
                    vstd::arithmetic::div_mod::lemma_fundamental_div_mod(
                        e.tick as int,
                        e.ticks_per_percent as int,
                    );
                    assert(e.tick as int / e.ticks_per_percent as int >= 0) by (nonlinear_arith)
                        requires
                            e.tick >= 0 && e.ticks_per_percent >= 1,
                    ;
                }
            },
            EnvelopeState::Decay => {
                if e.tick <= e.phase_ticks && e.ticks_per_percent > 0 {
                    let q = e.tick as int / e.ticks_per_percent as int;
                    vstd::arithmetic::div_mod::lemma_fundamental_div_mod(
                        e.tick as int,
                        e.ticks_per_percent as int,
                    );
                    assert(q >= 0) by (nonlinear_arith)
                        requires
                            q == e.tick as int / e.ticks_per_percent as int,
                            e.tick >= 0 && e.ticks_per_percent >= 1,
                    ;
                    assert(q <= 199) by (nonlinear_arith)
                        requires
                            e.ticks_per_percent >= 1,
                            q >= 0,
                            e.ticks_per_percent * q <= e.tick,
                            e.tick <= 100 * e.ticks_per_percent + 99,
                    ;
                    math::lemma_scaled_pct_unfold(100 - e.configuration.sustain_level as int, q);
                    assert(0 <= (100 - e.configuration.sustain_level as int) * 10 * q <= 199
                        * 1000) by (nonlinear_arith)
                        requires
                            0 <= 100 - e.configuration.sustain_level as int <= 100,
                            0 <= q <= 199,
                    ;
                    math::lemma_tdiv_bound(
                        (100 - e.configuration.sustain_level as int) * 10 * q,
                        1000,
                        199,
                    );
                }
            },
            EnvelopeState::Release => {
                if e.tick <= e.phase_ticks && e.ticks_per_percent > 0 {
                    let q = e.tick as int / e.ticks_per_percent as int;
                    assert(q >= 0) by (nonlinear_arith)
                        requires
                            q == e.tick as int / e.ticks_per_percent as int,
                            e.tick >= 0 && e.ticks_per_percent >= 1,
                    ;
                    if q < 101 {
                        math::lemma_scaled_pct_in_range(e.release_level as int, 100 - q);
                    }
                }
            },
            _ => {},
        }
    }
}

/// While the attack budget lasts, each clock leaves the envelope in the
/// attack phase with the tick counter equal to the number of clocks taken,
/// and the level climbs one percentage point every `ticks_per_percent`
/// ticks.
pub proof fn lemma_attack_progress(e: EnvelopeGenerator, k: nat)
    requires
        e.wf(),
        e.state is Attack,
        e.tick == 0,
        e.retrigger_level == 0,
        e.ticks_per_percent >= 1,
        k <= e.phase_ticks,
    ensures
        spec_clock_n(e, k).wf(),
        spec_clock_n(e, k).state is Attack,
        spec_clock_n(e, k).tick == k,
        spec_clock_n(e, k).phase_ticks == e.phase_ticks,
        spec_clock_n(e, k).ticks_per_percent == e.ticks_per_percent,
        spec_clock_n(e, k).retrigger_level == 0,
        spec_clock_n(e, k).configuration == e.configuration,
        k > 0 ==> spec_clock_n(e, k).current_level == (if (k - 1) as int
            / e.ticks_per_percent as int > 100 {
            100int
        } else {
            (k - 1) as int / e.ticks_per_percent as int
        }),
    decreases k,
{
    if k > 0 {
        lemma_attack_progress(e, (k - 1) as nat);
        let s = spec_clock_n(e, (k - 1) as nat);
        lemma_clock_preserves_wf(s);
        assert((k - 1) as int / e.ticks_per_percent as int >= 0);
        assert(spec_clock_n(e, k) == s.spec_clock());
    }
}

/// Law: an attack started from silence reaches full level when its tick
/// budget elapses — after `phase_ticks` clocks the level is within one
/// rounding step of 100, and one clock later it is exactly 100.
pub proof fn lemma_attack_reaches_full(e: EnvelopeGenerator)
    requires
        e.wf(),
        e.state is Attack,
        e.tick == 0,
        e.retrigger_level == 0,
        e.ticks_per_percent == e.phase_ticks / 100,
        e.phase_ticks >= 100,
    ensures
        99 <= spec_clock_n(e, e.phase_ticks as nat).current_level <= 100,
        spec_clock_n(e, (e.phase_ticks + 1) as nat).current_level == 100,
        spec_clock_n(e, (e.phase_ticks + 1) as nat).state is Attack,
    decreases 0nat,
{
    let n = e.phase_ticks;
    let d = e.ticks_per_percent as int;
    assert(d >= 1);
    assert(100 * d <= n) by (nonlinear_arith)
        requires
            d == n as int / 100 && n >= 100,
    ;
    lemma_attack_progress(e, n as nat);
    let s = spec_clock_n(e, n as nat);
    assert((n - 1) as int / d >= 99) by (nonlinear_arith)
        requires
            d >= 1 && n as int >= 100 * d && n >= 100,
    ;
    assert((n - 1) as int / d >= 99);
    lemma_clock_preserves_wf(s);
    assert(n as int / d >= 100) by (nonlinear_arith)
        requires
            d >= 1 && n as int >= 100 * d,
    ;
    assert(spec_clock_n(e, (n + 1) as nat) == s.spec_clock());
    assert(s.spec_output() == 100);
}

/// While the decay budget lasts, each clock stays in the decay phase and
/// advances the tick counter.
pub proof fn lemma_decay_progress(e: EnvelopeGenerator, k: nat)
    requires
        e.wf(),
        e.state is Decay,
        e.tick + k <= e.phase_ticks + 1,
    ensures
        spec_clock_n(e, k).wf(),
        spec_clock_n(e, k).state is Decay,
        spec_clock_n(e, k).tick == e.tick + k,
        spec_clock_n(e, k).phase_ticks == e.phase_ticks,
        spec_clock_n(e, k).configuration == e.configuration,
        spec_clock_n(e, k).gate == e.gate,
    decreases k,
{
    if k > 0 {
        lemma_decay_progress(e, (k - 1) as nat);
        let s = spec_clock_n(e, (k - 1) as nat);
        lemma_clock_preserves_wf(s);
        assert(spec_clock_n(e, k) == s.spec_clock());
    }
}

/// Law: once in the decay phase, clocking past the decay budget settles
/// the envelope in sustain at exactly the configured sustain level.
pub proof fn lemma_decay_reaches_sustain(e: EnvelopeGenerator)
    requires
        e.wf(),
        e.state is Decay,
    ensures
        ({
            let k = (e.phase_ticks + 2 - e.tick) as nat;
            &&& spec_clock_n(e, k).state is Sustain
            &&& spec_clock_n(e, k).current_level == e.configuration.sustain_level
        }),
{
    let j = (e.phase_ticks + 1 - e.tick) as nat;
    lemma_decay_progress(e, j);
    let s = spec_clock_n(e, j);
    lemma_clock_preserves_wf(s);
    assert(s.tick > s.phase_ticks);
    assert(spec_clock_n(e, (j + 1) as nat) == s.spec_clock());
    assert(s.spec_output() == e.configuration.sustain_level);
}

/// Law: starting the envelope from silence and then clocking exactly the
/// attack-tick budget brings the level within one rounding step of 100,
/// and one further clock pins it at exactly 100.
pub proof fn lemma_open_then_attack_budget_reaches_full(e: EnvelopeGenerator)
    requires
        e.wf(),
        e.current_level == 0,
        e.configuration.attack_time * e.ticks_per_ms >= 100,
    ensures
        ({
            let o = e.spec_open_gate();
            &&& 99 <= spec_clock_n(o, o.phase_ticks as nat).current_level <= 100
            &&& spec_clock_n(o, (o.phase_ticks + 1) as nat).current_level == 100
        }),
{
    let o = e.spec_open_gate();
    assert(0 <= e.configuration.attack_time * e.ticks_per_ms <= 32767 * 65535)
        by (nonlinear_arith)
        requires
            0 <= e.configuration.attack_time <= 32767 && 0 <= e.ticks_per_ms <= 65535,
    ;
    assert(o.phase_ticks == e.configuration.attack_time * e.ticks_per_ms);
    assert(o.ticks_per_percent == o.phase_ticks / 100);
    assert(o.wf());
    lemma_attack_reaches_full(o);
}

/// Law: a retrigger mid-attack with the level strictly between 0 and 100
/// starts the new attack from the current level and gives it a strictly
/// shorter tick budget, scaled by the remaining distance to 100%.
pub proof fn lemma_retrigger_shortens_attack(e: EnvelopeGenerator)
    requires
        e.wf(),
        0 < e.current_level < 100,
        e.configuration.attack_time >= 1,
        e.ticks_per_ms >= 1,
    ensures
        e.spec_open_gate().state is Attack,
        e.spec_open_gate().retrigger_level == e.current_level,
        e.spec_open_gate().phase_ticks == scaled_pct(
            e.configuration.attack_time as int,
            100 - e.current_level,
        ) * e.ticks_per_ms,
        e.spec_open_gate().phase_ticks < e.configuration.attack_time * e.ticks_per_ms,
{
    let a = e.configuration.attack_time as int;
    let p = 100 - e.current_level as int;
    let v = scaled_pct(a, p);
    math::lemma_scaled_pct_unfold(a, p);
    assert(0 <= a * 10 * p <= (a - 1) * 1000 + 990) by (nonlinear_arith)
        requires
            1 <= a && 1 <= p <= 99,
    ;
    assert(a * 10 * p / 1000 <= a - 1) by (nonlinear_arith)
        requires
            0 <= a * 10 * p <= (a - 1) * 1000 + 990 && a >= 1,
    ;
    assert(v <= a - 1);
    math::lemma_scaled_pct_in_range(a, p);
    assert(v * e.ticks_per_ms < a * e.ticks_per_ms) by (nonlinear_arith)
        requires
            0 <= v <= a - 1 && e.ticks_per_ms >= 1,
    ;
    assert(0 <= v * e.ticks_per_ms <= 32767 * 65535) by (nonlinear_arith)
        requires
            0 <= v <= 32767 && 0 <= e.ticks_per_ms <= 65535,
    ;
}

} // verus!
