//! Sampler: plays a stored audio sample back at a configurable speed.
//! A work-in-progress side channel of the engine; not wired into the
//! synthesizer's mixing path yet.

use vstd::prelude::*;

use crate::synth::wavetables::decoded_sample;
use crate::synth::Clockable;
use std::rc::Rc;

verus! {

/// A boxed sample: audio data decoded from 16-bit little-endian PCM bytes.
#[derive(Clone)]
pub struct BoxedSample {
    /// The decoded sample data.
    pub data: Vec<i16>,
}

impl BoxedSample {
    /// Decode a sample buffer: every byte pair becomes one 16-bit sample,
    /// low byte first.
    pub fn new(data: Vec<u8>) -> (r: Self)
        ensures
            r.data@.len() == data@.len() as int / 2,
            forall|i: int|
                0 <= i < r.data@.len() ==> r.data@[i] == decoded_sample(data@, i),
    {
        let total: usize = data.len() / 2;
        let mut samples: Vec<i16> = Vec::new();
        let mut sample_index: usize = 0;
        while sample_index < total
            invariant
                total == data@.len() as int / 2,
                data@.len() <= usize::MAX,
                sample_index <= total,
                samples@.len() == sample_index,
                forall|i: int|
                    0 <= i < sample_index ==> samples@[i] == decoded_sample(data@, i),
            decreases total - sample_index,
        {
            proof {
                vstd::arithmetic::div_mod::lemma_fundamental_div_mod(data@.len() as int, 2);
                assert(2 * (total as int) <= data@.len());
                assert(sample_index * 2 + 1 < data@.len()) by (nonlinear_arith)
                    requires
                        sample_index < total,
                        2 * (total as int) <= data@.len(),
                ;
            }
            let b1: i16 = (data[sample_index * 2 + 1] as i16) << 8u32;
            let b2: i16 = data[sample_index * 2] as i16;
            let sample: i16 = b1 | b2;
            samples.push(sample);
            sample_index = sample_index + 1;
        }
        Self { data: samples }
    }
}

/// Plays a shared audio sample back, advancing by `speed` positions once
/// every `increment + 1` clocks.
pub struct Sampler {
    /// Shared audio data being played.
    pub sampler: Rc<BoxedSample>,
    /// Current position in the sample data.
    pub counter: u32,
    /// Clocks to wait between position advances.
    pub increment: u16,
    /// Positions to advance by.
    pub speed: u16,
    /// Clocks counted toward the next advance.
    pub delay: u16,
    /// Most recently played sample.
    pub last_sample: i16,
}

impl Sampler {
    /// Internal invariant: the playback position stays inside the sample
    /// data and the counters stay in ranges that cannot wrap.
    pub open spec fn wf(&self) -> bool {
        &&& (*self.sampler).data@.len() > 0
        &&& (*self.sampler).data@.len() < 0x8000_0000
        &&& (self.counter as int) < (*self.sampler).data@.len()
        &&& self.increment <= 2
        &&& self.speed <= 2
        &&& self.delay <= 2
    }

    /// Create a sampler over shared audio data.
    pub fn new(_sample_rate: u16, sampler: Rc<BoxedSample>) -> (r: Self)
        requires
            (*sampler).data@.len() > 0,
            (*sampler).data@.len() < 0x8000_0000,
        ensures
            r.wf(),
            r.sampler == sampler,
            r.counter == 0,
            r.increment == 0,
            r.speed == 1,
            r.delay == 0,
            r.last_sample == 0,
    {
        Sampler { sampler, counter: 0, increment: 0, speed: 1, delay: 0, last_sample: 0 }
    }

    /// Map a frequency to playback speed and advance timing; frequencies
    /// outside the supported set leave the timing unchanged. The playback
    /// position restarts either way.
    pub fn change_freq(&mut self, freq: u16)
        requires
            old(self).wf(),
        ensures
            final(self).wf(),
            final(self).counter == 0,
            final(self).sampler == old(self).sampler,
            final(self).last_sample == old(self).last_sample,
            final(self).delay == old(self).delay,
            freq == 415 ==> final(self).speed == 2 && final(self).increment == 0,
            freq == 440 ==> final(self).speed == 2 && final(self).increment == 2,
            freq == 466 ==> final(self).speed == 1 && final(self).increment == 0,
            freq == 493 ==> final(self).speed == 1 && final(self).increment == 2,
            !(freq == 415 || freq == 440 || freq == 466 || freq == 493) ==> final(self).speed
                == old(self).speed && final(self).increment == old(self).increment,
    {
        match freq {
            415 => {
                self.speed = 2;
                self.increment = 0;
            },
            440 => {
                self.speed = 2;
                self.increment = 2;
            },
            466 => {
                self.speed = 1;
                self.increment = 0;
            },
            493 => {
                self.speed = 1;
                self.increment = 2;
            },
            _ => {},
        }
        self.counter = 0;
    }
}

impl Clockable for Sampler {
    open spec fn inv(&self) -> bool {
        self.wf()
    }

    /// Advance the playback position when its delay has elapsed, wrapping
    /// at the end of the data, and emit the sample at the position.
    fn clock(&mut self, _sample: Option<i16>) -> (r: i16)
        ensures
            final(self).sampler == old(self).sampler,
            final(self).increment == old(self).increment,
            final(self).speed == old(self).speed,
            old(self).delay + 1 > old(self).increment ==> final(self).delay == 0 && final(self).counter == (if old(self).counter + old(self).speed >= (*old(self).sampler).data@.len() {
                0int
            } else {
                old(self).counter + old(self).speed
            }),
            old(self).delay + 1 <= old(self).increment ==> final(self).delay == old(self).delay
                + 1 && final(self).counter == old(self).counter,
            r == final(self).last_sample,
            final(self).last_sample == (*old(self).sampler).data@[final(self).counter as int],
    {
        self.delay = self.delay + 1;
        if self.delay > self.increment {
            self.delay = 0;
            let advanced: u32 = self.counter + self.speed as u32;
            self.counter = advanced;
            if self.counter as usize >= self.sampler.data.len() {
                self.counter = 0;
            }
        }
        proof {
            assert((self.counter as int) < (*self.sampler).data@.len());
        }
        self.last_sample = self.sampler.data[self.counter as usize];
        self.last_sample
    }
}

} // verus!
