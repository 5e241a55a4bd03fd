//! Wavetable store: an immutable, shared collection of fixed-size sample
//! tables, decoded once from 16-bit little-endian PCM bytes and then only
//! ever read by index.

use vstd::prelude::*;

verus! {

/// Number of samples in one stored oscillation cycle.
pub const WAVETABLE_LEN: usize = 600;

/// One 16-bit sample decoded from a little-endian byte pair.
pub open spec fn decoded_sample(bytes: Seq<u8>, i: int) -> i16 {
    ((bytes[2 * i + 1] as i16) << 8) | (bytes[2 * i] as i16)
}

/// Interface for reading wavetables by index.
pub trait Wavetables {
    /// How many tables the store holds.
    spec fn table_count(&self) -> int;

    /// The samples of the table at `index`.
    spec fn table_at(&self, index: int) -> Seq<i16>;

    /// Borrow the sample slice of the table at `index`.
    fn get_wavetable_reference(&self, index: u8) -> (r: &[i16])
        requires
            0 <= index < self.table_count(),
            self.table_at(index as int).len() == WAVETABLE_LEN,
        ensures
            r@ == self.table_at(index as int),
    ;
}

/// A single wavetable holding one decoded oscillation cycle.
#[derive(Clone)]
pub struct BoxedWavetable {
    /// The decoded samples; always exactly one cycle long.
    pub data: Vec<i16>,
}

impl BoxedWavetable {
    /// Decode one wavetable from raw bytes: each sample is two bytes,
    /// low byte first.
    pub fn new(data: &[u8]) -> (r: Self)
        requires
            data@.len() >= 2 * WAVETABLE_LEN,
        ensures
            r.data@.len() == WAVETABLE_LEN,
            forall|i: int|
                0 <= i < WAVETABLE_LEN ==> r.data@[i] == decoded_sample(data@, i),
    {
        let mut samples: Vec<i16> = Vec::new();
        let mut sample_index: usize = 0;
        while sample_index < WAVETABLE_LEN
            invariant
                data@.len() >= 2 * WAVETABLE_LEN,
                sample_index <= WAVETABLE_LEN,
                samples@.len() == sample_index,
                forall|i: int|
                    0 <= i < sample_index ==> samples@[i] == decoded_sample(data@, i),
            decreases WAVETABLE_LEN - sample_index,
        {
            // combine the high byte, shifted left by 8 bits, with the low byte
            let b1: i16 = (data[sample_index * 2 + 1] as i16) << 8u32;
            let b2: i16 = data[sample_index * 2] as i16;
            let sample: i16 = b1 | b2;
            samples.push(sample);
            sample_index = sample_index + 1;
        }
        Self { data: samples }
    }
}

/// A growable collection of wavetables, frozen once handed to a synth.
#[derive(Clone)]
pub struct BoxedWavetables {
    /// The stored tables.
    pub data: Vec<BoxedWavetable>,
}

impl BoxedWavetables {
    /// Every stored table holds exactly one full cycle.
    pub open spec fn wf(&self) -> bool {
        forall|i: int|
            0 <= i < self.data@.len() ==> #[trigger] self.data@[i].data@.len() == WAVETABLE_LEN
    }

    /// Create an empty store.
    pub fn new() -> (r: Self)
        ensures
            r.wf(),
            r.data@.len() == 0,
    {
        Self { data: Vec::new() }
    }

    /// Append one wavetable to the store.
    pub fn add(&mut self, wt: BoxedWavetable)
        requires
            old(self).wf(),
            wt.data@.len() == WAVETABLE_LEN,
        ensures
            final(self).wf(),
            final(self).data@ == old(self).data@.push(wt),
    {
        self.data.push(wt);
    }
}

impl Wavetables for BoxedWavetables {
    open spec fn table_count(&self) -> int {
        self.data@.len() as int
    }

    open spec fn table_at(&self, index: int) -> Seq<i16> {
        self.data@[index].data@
    }

    fn get_wavetable_reference(&self, index: u8) -> (r: &[i16]) {
        self.data[index as usize].data.as_slice()
    }
}

} // verus!
