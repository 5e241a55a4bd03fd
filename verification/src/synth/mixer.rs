//! Mixer: pure gain configuration, applied per voice before summation and
//! once after the effect chain.

use vstd::prelude::*;

verus! {

/// Per-voice gains applied before summation and one main gain applied
/// after the effect chain, all in percent.
#[derive(Clone, Copy, Debug)]
pub struct MixerConfiguration {
    pub gain_voices: [u8; 8],
    pub gain_main: u8,
}

/// A configuration is valid when every gain is a percentage.
pub open spec fn mixer_config_valid(c: MixerConfiguration) -> bool {
    &&& forall|i: int| 0 <= i < 8 ==> #[trigger] c.gain_voices@[i] <= 100
    &&& c.gain_main <= 100
}

/// Gain-configuration holder.
pub struct Mixer {
    pub config: MixerConfiguration,
}

impl Mixer {
    pub fn new(config: MixerConfiguration) -> (r: Self)
        ensures
            r.config == config,
    {
        Self { config }
    }

    pub fn reload(&mut self, config: MixerConfiguration)
        ensures
            *final(self) == (Mixer { config }),
    {
        self.config = config;
    }
}

} // verus!
