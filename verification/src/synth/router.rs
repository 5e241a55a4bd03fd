//! Router: pure modulation-matrix configuration — which envelope shapes
//! which voice, and where the low-frequency oscillators are routed.

use vstd::prelude::*;

use crate::synth::wavetable_oscillator::MAX_FREQ_MANIPULATION;

verus! {

/// Index a route entry carries when it is unused.
pub const UNROUTED: u8 = 255;

/// One LFO-to-voice amplitude route: an enable flag and up to two target
/// voices (255 marks an unused slot).
#[derive(Clone, Copy, Debug)]
pub struct VoiceToLFORoute {
    pub voices: [u8; 2],
    pub enable: bool,
}

/// The whole modulation matrix: voice-to-envelope assignment, four
/// LFO-to-voice amplitude routes, an LFO-to-filter-cutoff enable, and an
/// LFO-to-oscillator-frequency enable with its depth.
#[derive(Clone, Copy, Debug)]
pub struct RoutingConfiguration {
    pub voices_to_envelop: [u8; 8],
    pub lfo_to_voice: [VoiceToLFORoute; 4],
    pub lfo_to_filter: bool,
    pub lfo_to_freq: bool,
    pub lfo_to_freq_amount: u16,
}

/// A configuration is valid when every envelope assignment and every
/// routed voice index is in range, and the frequency-modulation depth
/// stays within what an oscillator accepts.
pub open spec fn routing_config_valid(c: RoutingConfiguration) -> bool {
    &&& forall|i: int| 0 <= i < 8 ==> #[trigger] c.voices_to_envelop@[i] < 8
    &&& forall|i: int, j: int|
        0 <= i < 4 && 0 <= j < 2 ==> #[trigger] c.lfo_to_voice@[i].voices@[j] == UNROUTED
            || c.lfo_to_voice@[i].voices@[j] < 8
    &&& c.lfo_to_freq_amount <= MAX_FREQ_MANIPULATION
}

/// Modulation-matrix holder.
pub struct Router {
    pub config: RoutingConfiguration,
}

impl Router {
    pub fn new(config: RoutingConfiguration) -> (r: Self)
        ensures
            r.config == config,
    {
        Self { config }
    }

    pub fn reload(&mut self, config: RoutingConfiguration)
        ensures
            *final(self) == (Router { config }),
    {
        self.config = config;
    }
}

} // verus!
