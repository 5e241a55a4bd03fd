use little_weirdo::synth::sampler::{BoxedSample, Sampler};
use little_weirdo::synth::Clockable;
use std::rc::Rc;

fn ramp_sample() -> Rc<BoxedSample> {
    // samples 0, 1, 2, ..., 99 as little-endian byte pairs
    let mut bytes: Vec<u8> = Vec::new();
    for i in 0..100i16 {
        let le = i.to_le_bytes();
        bytes.push(le[0]);
        bytes.push(le[1]);
    }
    Rc::new(BoxedSample::new(bytes))
}

#[test]
fn boxed_sample_decodes_pairs() {
    let sample = ramp_sample();
    assert_eq!(sample.data.len(), 100);
    assert_eq!(sample.data[0], 0);
    assert_eq!(sample.data[42], 42);
    assert_eq!(sample.data[99], 99);
}

#[test]
fn sampler_steps_through_the_data() {
    let mut sampler = Sampler::new(44100, ramp_sample());
    // default speed 1, increment 0: advances every clock
    assert_eq!(sampler.clock(None), 1);
    assert_eq!(sampler.clock(None), 2);
    assert_eq!(sampler.clock(None), 3);
}

#[test]
fn sampler_wraps_at_the_end() {
    let mut sampler = Sampler::new(44100, ramp_sample());
    let mut last: i16 = 0;
    for _ in 0..100 {
        last = sampler.clock(None);
    }
    // position 100 wraps back to the start
    assert_eq!(last, 0);
}

#[test]
fn change_freq_sets_speed_and_restarts() {
    let mut sampler = Sampler::new(44100, ramp_sample());
    sampler.clock(None);
    sampler.clock(None);
    sampler.change_freq(415);
    assert_eq!(sampler.speed, 2);
    assert_eq!(sampler.increment, 0);
    assert_eq!(sampler.counter, 0);
    // speed 2 skips every other sample
    assert_eq!(sampler.clock(None), 2);
    assert_eq!(sampler.clock(None), 4);
    // an unsupported frequency keeps the timing
    sampler.change_freq(500);
    assert_eq!(sampler.speed, 2);
    assert_eq!(sampler.increment, 0);
}

#[test]
fn increment_delays_the_advance() {
    let mut sampler = Sampler::new(44100, ramp_sample());
    sampler.change_freq(440);
    assert_eq!(sampler.speed, 2);
    assert_eq!(sampler.increment, 2);
    // the position only advances once the delay budget has elapsed
    assert_eq!(sampler.clock(None), 0);
    assert_eq!(sampler.clock(None), 0);
    assert_eq!(sampler.clock(None), 2);
}
