//! Overdrive: a stateless, symmetric waveshaper. Below the threshold the
//! signal passes unchanged; beyond it the excess slope is clipped or
//! divided down, depending on the configured kind.

use vstd::prelude::*;

use crate::synth::effects::Effect;
use crate::synth::math::tdiv;

verus! {

/// How hard the shaper bends the signal beyond the threshold.
#[derive(Clone, Copy, Debug)]
pub enum KindOfOverdrive {
    /// Clip to the threshold.
    Hard,
    /// Halve the excess slope.
    Soft,
    /// Divide the excess slope by eight.
    Softer,
}

/// Threshold, kind and enable flag of the overdrive stage.
#[derive(Clone, Copy, Debug)]
pub struct OverdriveConfiguration {
    pub threshold: i16,
    pub kind: KindOfOverdrive,
    pub enabled: bool,
}

/// A configuration is valid when the threshold is nonnegative; the shaper
/// is symmetric around zero.
pub open spec fn overdrive_config_valid(c: OverdriveConfiguration) -> bool {
    c.threshold >= 0
}

/// What the overdrive stage returns for one sample.
pub open spec fn spec_overdrive(c: OverdriveConfiguration, s: i16) -> int {
    if !c.enabled {
        s as int
    } else {
        match c.kind {
            KindOfOverdrive::Hard => {
                if s > c.threshold || s < -(c.threshold as int) {
                    if s > 0 {
                        c.threshold as int
                    } else {
                        -(c.threshold as int)
                    }
                } else {
                    s as int
                }
            },
            KindOfOverdrive::Soft => {
                if s > c.threshold || s < -(c.threshold as int) {
                    if s > 0 {
                        tdiv(s - c.threshold, 2) + c.threshold
                    } else {
                        tdiv(s + c.threshold, 2) - c.threshold
                    }
                } else {
                    s as int
                }
            },
            KindOfOverdrive::Softer => {
                if s > c.threshold || s < -(c.threshold as int) {
                    if s > 0 {
                        tdiv(s - c.threshold, 8) + c.threshold
                    } else {
                        tdiv(s + c.threshold, 8) - c.threshold
                    }
                } else {
                    s as int
                }
            },
        }
    }
}

/// The stateless overdrive stage.
pub struct Overdrive {
    pub config: OverdriveConfiguration,
}

impl Overdrive {
    pub fn new(config: OverdriveConfiguration) -> (r: Self)
        ensures
            r.config == config,
    {
        Self { config }
    }

    pub fn reload(&mut self, config: OverdriveConfiguration)
        ensures
            *final(self) == (Overdrive { config }),
    {
        self.config = config;
    }
}

impl Effect for Overdrive {
    open spec fn inv(&self) -> bool {
        overdrive_config_valid(self.config)
    }

    fn clock(&mut self, sample: i16) -> (r: i16)
        ensures
            *final(self) == *old(self),
            r == spec_overdrive(old(self).config, sample),
    {
        if !self.config.enabled {
            return sample;
        }
        let t: i16 = self.config.threshold;
        match self.config.kind {
            KindOfOverdrive::Hard => {
                if sample > t || sample < -t {
                    if sample > 0 {
                        return t;
                    }
                    return -t;
                }
            },
            KindOfOverdrive::Soft => {
                if sample > t || sample < -t {
                    if sample > 0 {
                        return (sample - t) / 2 + t;
                    }
                    let bent: i32 = (sample as i32 + t as i32) / 2 - t as i32;
                    return bent as i16;
                }
            },
            KindOfOverdrive::Softer => {
                if sample > t || sample < -t {
                    if sample > 0 {
                        return (sample - t) / 8 + t;
                    }
                    let bent: i32 = (sample as i32 + t as i32) / 8 - t as i32;
                    return bent as i16;
                }
            },
        }
        sample
    }
}

/// Law: a sample whose magnitude does not exceed the threshold passes
/// through the enabled shaper unchanged, whatever the kind.
pub proof fn lemma_overdrive_passthrough(c: OverdriveConfiguration, s: i16)
    requires
        overdrive_config_valid(c),
        -(c.threshold as int) <= s <= c.threshold,
    ensures
        spec_overdrive(c, s) == s,
{
}

/// Law: a disabled overdrive behaves exactly like an enabled hard clip at
/// the largest positive threshold, for every sample above the most
/// negative one (whose magnitude alone exceeds that threshold).
pub proof fn lemma_overdrive_disabled_is_hard_max(
    c: OverdriveConfiguration,
    h: OverdriveConfiguration,
    s: i16,
)
    requires
        !c.enabled,
        h.enabled,
        h.kind is Hard,
        h.threshold == i16::MAX,
        s > i16::MIN,
    ensures
        spec_overdrive(c, s) == spec_overdrive(h, s),
{
}

} // verus!
