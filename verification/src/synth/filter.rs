//! Resonant two-pole state-variable filter (Chamberlin topology) on Q16
//! fixed point — integer-only on purpose, so the pipeline runs without a
//! floating-point unit.

use vstd::prelude::*;

use crate::synth::effects::Effect;
use crate::synth::math::{fx_mul, ucfx_mul};

verus! {

/// Bound the filter keeps its accumulators within; resonant settings can
/// make the recurrence diverge, so each update is clamped here to keep the
/// fixed-point state in range.
pub const FILTER_BUF_LIMIT: i64 = 536870912;

/// Types of filter responses available.
#[derive(Clone, Copy, Debug)]
pub enum KindOfFilter {
    /// Low-pass response.
    Low,
    /// High-pass response.
    High,
    /// Band-pass response.
    Band,
    /// Notch response.
    Notch,
}

/// Cutoff, resonance, response kind and enable flag of the filter.
#[derive(Clone, Copy, Debug)]
pub struct FilterConfig {
    /// Cutoff control, 0..=65535 fixed point.
    pub cutoff_frequency: u16,
    /// Resonance amount, 0..=65535 fixed point.
    pub resonance: u16,
    /// Which response the filter emits.
    pub kind_of_filter: KindOfFilter,
    /// Whether the filter is active.
    pub enabled: bool,
}

/// The feedback coefficient derived from a configuration:
/// `resonance + resonance * (65535 - cutoff) / 65536`.
pub open spec fn spec_feedback(c: FilterConfig) -> int {
    c.resonance + c.resonance as int * (65535 - c.cutoff_frequency) / 65536
}

/// An accumulator update clamped into the range the filter state stays in.
pub open spec fn spec_clamp_buf(v: int) -> int {
    if v < -FILTER_BUF_LIMIT {
        -FILTER_BUF_LIMIT as int
    } else if v > FILTER_BUF_LIMIT {
        FILTER_BUF_LIMIT as int
    } else {
        v
    }
}

/// The first accumulator after one enabled clock.
pub open spec fn spec_buf0_after(f: Filter, s: i16) -> int {
    let highpass = s - f.buf0;
    let bandpass = f.buf0 - f.buf1;
    let feedback_on_bandpass = f.feedback * bandpass / 65536;
    spec_clamp_buf(
        f.buf0 + (highpass + feedback_on_bandpass) * f.config.cutoff_frequency / 65536,
    )
}

/// The second accumulator after one enabled clock.
pub open spec fn spec_buf1_after(f: Filter, s: i16) -> int {
    let bandpass = f.buf0 - f.buf1;
    spec_clamp_buf(f.buf1 + bandpass * f.config.cutoff_frequency / 65536)
}

/// The sample an enabled clock emits, truncated to 16 bits: the response
/// selected by the configured kind.
pub open spec fn spec_filter_output(f: Filter, s: i16) -> i16 {
    let highpass = s - f.buf0;
    let bandpass = f.buf0 - f.buf1;
    match f.config.kind_of_filter {
        KindOfFilter::Low => spec_buf1_after(f, s) as i16,
        KindOfFilter::High => highpass as i16,
        KindOfFilter::Band => bandpass as i16,
        KindOfFilter::Notch => (s - spec_buf0_after(f, s) + spec_buf1_after(f, s)) as i16,
    }
}

/// Two-pole resonant filter with Q16 fixed-point state.
pub struct Filter {
    pub config: FilterConfig,
    /// First accumulator of the state-variable topology.
    pub buf0: i64,
    /// Second accumulator; the low-pass output.
    pub buf1: i64,
    /// Feedback coefficient derived from resonance and cutoff.
    pub feedback: u32,
}

impl Filter {
    /// Internal invariant: the accumulators stay within the clamp bound
    /// and the feedback coefficient matches the configuration.
    pub open spec fn wf(&self) -> bool {
        &&& -FILTER_BUF_LIMIT <= self.buf0 <= FILTER_BUF_LIMIT
        &&& -FILTER_BUF_LIMIT <= self.buf1 <= FILTER_BUF_LIMIT
        &&& self.feedback == spec_feedback(self.config)
        &&& self.feedback <= 131070
    }

    pub fn new(config: FilterConfig) -> (r: Self)
        ensures
            r.wf(),
            r.config == config,
            r.buf0 == 0,
            r.buf1 == 0,
    {
        let mut filter = Self { config, buf0: 0, buf1: 0, feedback: 0 };
        filter.prepare_filter();
        filter
    }

    /// Swap the configuration and recompute the feedback coefficient; the
    /// accumulators keep running for a glitch-free change.
    pub fn reload(&mut self, config: FilterConfig)
        requires
            old(self).wf(),
        ensures
            final(self).wf(),
            final(self).config == config,
            final(self).buf0 == old(self).buf0,
            final(self).buf1 == old(self).buf1,
            final(self).feedback == spec_feedback(config),
    {
        self.config = config;
        self.prepare_filter();
    }

    /// Derive the feedback coefficient from resonance and cutoff.
    fn prepare_filter(&mut self)
        ensures
            *final(self) == (Filter {
                feedback: final(self).feedback,
                ..*old(self)
            }),
            final(self).feedback == spec_feedback(old(self).config),
            final(self).feedback <= 131070,
    {
        self.feedback = self.config.resonance as u32 + ucfx_mul(
            self.config.resonance,
            65535u16 - self.config.cutoff_frequency,
        );
    }

    /// Run one sample through the state-variable recurrence.
    fn filter(&mut self, sample: i16) -> (r: i16)
        requires
            old(self).wf(),
        ensures
            final(self).wf(),
            final(self).config == old(self).config,
            final(self).feedback == old(self).feedback,
            final(self).buf0 == spec_buf0_after(*old(self), sample),
            final(self).buf1 == spec_buf1_after(*old(self), sample),
            r == spec_filter_output(*old(self), sample),
    {
        let sample_i64: i64 = sample as i64;
        // difference from the first accumulator
        let highpass: i64 = sample_i64 - self.buf0;
        // difference between the accumulators
        let bandpass: i64 = self.buf0 - self.buf1;
        proof {
            assert(-140737488355328int <= self.feedback as int * bandpass as int
                <= 140737488355328int) by (nonlinear_arith)
                requires
                    0 <= self.feedback <= 131070,
                    -1073741824 <= bandpass <= 1073741824,
            ;
        }
        // feedback applied to the band-pass signal
        let feedback_on_bandpass: i64 = fx_mul(self.feedback as i64, bandpass as i32);
        proof {
            vstd::arithmetic::div_mod::lemma_div_is_ordered(
                self.feedback as int * bandpass as int,
                140737488355328int,
                65536,
            );
            vstd::arithmetic::div_mod::lemma_div_is_ordered(
                -140737488355328int,
                self.feedback as int * bandpass as int,
                65536,
            );
            assert(-2147483648int <= feedback_on_bandpass <= 2147483648int);
        }
        let cutoff: i32 = self.config.cutoff_frequency as i32;
        proof {
            assert(-i64::MAX <= (highpass + feedback_on_bandpass) * cutoff <= i64::MAX)
                by (nonlinear_arith)
                requires
                    -2684420095int <= highpass + feedback_on_bandpass <= 2684420095int,
                    0 <= cutoff <= 65535,
            ;
            assert(-i64::MAX <= bandpass as int * cutoff <= i64::MAX) by (nonlinear_arith)
                requires
                    -1073741824 <= bandpass <= 1073741824,
                    0 <= cutoff <= 65535,
            ;
        }
        let delta0: i64 = fx_mul(highpass + feedback_on_bandpass, cutoff);
        proof {
            assert(-(2684420095int * 65536) <= (highpass + feedback_on_bandpass) * cutoff
                <= 2684420095int * 65536) by (nonlinear_arith)
                requires
                    -2684420095int <= highpass + feedback_on_bandpass <= 2684420095int,
                    0 <= cutoff <= 65535,
            ;
            vstd::arithmetic::div_mod::lemma_div_multiples_vanish(2684420095int, 65536);
            vstd::arithmetic::div_mod::lemma_div_multiples_vanish(-2684420095int, 65536);
            assert(65536 * 2684420095int == 2684420095int * 65536);
            assert(65536 * -2684420095int == -2684420095int * 65536);
            vstd::arithmetic::div_mod::lemma_div_is_ordered(
                (highpass + feedback_on_bandpass) * cutoff as int,
                2684420095int * 65536,
                65536,
            );
            vstd::arithmetic::div_mod::lemma_div_is_ordered(
                -2684420095int * 65536,
                (highpass + feedback_on_bandpass) * cutoff as int,
                65536,
            );
        }
        self.buf0 = clamp_buf(self.buf0 + delta0);
        let delta1: i64 = fx_mul(bandpass, cutoff);
        proof {
            assert(-(1073741824int * 65536) <= bandpass * cutoff <= 1073741824int * 65536)
                by (nonlinear_arith)
                requires
                    -1073741824 <= bandpass <= 1073741824,
                    0 <= cutoff <= 65535,
            ;
            vstd::arithmetic::div_mod::lemma_div_multiples_vanish(1073741824int, 65536);
            vstd::arithmetic::div_mod::lemma_div_multiples_vanish(-1073741824int, 65536);
            assert(65536 * 1073741824int == 1073741824int * 65536);
            assert(65536 * -1073741824int == -1073741824int * 65536);
            vstd::arithmetic::div_mod::lemma_div_is_ordered(
                bandpass as int * cutoff as int,
                1073741824int * 65536,
                65536,
            );
            vstd::arithmetic::div_mod::lemma_div_is_ordered(
                -1073741824int * 65536,
                bandpass as int * cutoff as int,
                65536,
            );
        }
        self.buf1 = clamp_buf(self.buf1 + delta1);
        let out: i16 = match self.config.kind_of_filter {
            KindOfFilter::Low => {
                #[verifier::truncate]
                (self.buf1 as i16)
            },
            KindOfFilter::High => {
                #[verifier::truncate]
                (highpass as i16)
            },
            KindOfFilter::Band => {
                #[verifier::truncate]
                (bandpass as i16)
            },
            KindOfFilter::Notch => {
                #[verifier::truncate]
                ((sample_i64 - self.buf0 + self.buf1) as i16)
            },
        };
        out
    }
}

/// Clamp an accumulator value into the range the filter state stays in.
fn clamp_buf(v: i64) -> (r: i64)
    ensures
        r == spec_clamp_buf(v as int),
{
    if v < -FILTER_BUF_LIMIT {
        -FILTER_BUF_LIMIT
    } else if v > FILTER_BUF_LIMIT {
        FILTER_BUF_LIMIT
    } else {
        v
    }
}

impl Effect for Filter {
    open spec fn inv(&self) -> bool {
        self.wf()
    }

    /// Law (filter passthrough): with the filter disabled, the sample
    /// passes through unchanged and the state does not move.
    fn clock(&mut self, sample: i16) -> (r: i16)
        ensures
            !old(self).config.enabled ==> r == sample && *final(self) == *old(self),
            old(self).config.enabled ==> {
                &&& final(self).config == old(self).config
                &&& final(self).feedback == old(self).feedback
                &&& final(self).buf0 == spec_buf0_after(*old(self), sample)
                &&& final(self).buf1 == spec_buf1_after(*old(self), sample)
                &&& r == spec_filter_output(*old(self), sample)
            },
    {
        if self.config.enabled {
            self.filter(sample)
        } else {
            sample
        }
    }
}

} // verus!
