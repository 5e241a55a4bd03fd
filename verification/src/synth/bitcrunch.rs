//! Bitcrunch: a stateless quantizer that reduces each sample to simulated
//! 8-bit steps.

use vstd::prelude::*;

use crate::synth::effects::Effect;
use crate::synth::math::tdiv;

verus! {

/// Enable flag of the bitcrunch stage.
#[derive(Clone, Copy, Debug)]
pub struct BitcrunchConfiguration {
    pub enabled: bool,
}

/// What the bitcrunch stage returns for one sample: the sample rounded
/// toward zero to a multiple of 256 when enabled, else the sample itself.
pub open spec fn spec_bitcrunch(c: BitcrunchConfiguration, s: i16) -> int {
    if c.enabled {
        tdiv(s as int, 256) * 256
    } else {
        s as int
    }
}

/// The stateless bitcrunch stage.
pub struct Bitcrunch {
    pub config: BitcrunchConfiguration,
}

impl Bitcrunch {
    pub fn new(config: BitcrunchConfiguration) -> (r: Self)
        ensures
            r.config == config,
    {
        Bitcrunch { config }
    }

    pub fn reload(&mut self, config: BitcrunchConfiguration)
        ensures
            *final(self) == (Bitcrunch { config }),
    {
        self.config = config;
    }
}

impl Effect for Bitcrunch {
    open spec fn inv(&self) -> bool {
        true
    }

    fn clock(&mut self, sample: i16) -> (r: i16)
        ensures
            *final(self) == *old(self),
            r == spec_bitcrunch(old(self).config, sample),
            -32768 <= r <= 32767,
    {
        // 8-bit style: divide down to 8-bit steps, then scale back up
        if self.config.enabled {
            proof {
                crate::synth::math::lemma_tdiv_bound(sample as int, 256, 128);
            }
            return (sample / 256) * 256;
        }
        sample
    }
}

} // verus!
