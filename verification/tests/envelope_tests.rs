use little_weirdo::synth::envelope::{EnvelopConfiguration, EnvelopeGenerator, EnvelopeState};
use little_weirdo::synth::Clockable;

fn config() -> EnvelopConfiguration {
    EnvelopConfiguration { attack_time: 100, decay_time: 10, release_time: 100, sustain_level: 80 }
}

#[test]
fn attack_budget_reaches_full_level() {
    // 44100 samples/s -> 44 ticks per ms; attack budget = 100 ms * 44 = 4400
    let mut env = EnvelopeGenerator::new(config(), 44100);
    env.open_gate();
    assert_eq!(env.phase_ticks, 4400);
    assert_eq!(env.ticks_per_percent, 44);
    let mut last: i16 = 0;
    for _ in 0..4400 {
        last = env.clock(None);
    }
    // within one rounding step of 100 after exactly the budget
    assert!(last >= 99 && last <= 100);
    last = env.clock(None);
    assert_eq!(last, 100);
}

#[test]
fn decay_settles_at_sustain_level() {
    let mut env = EnvelopeGenerator::new(config(), 44100);
    env.open_gate();
    let mut last: i16 = 0;
    for _ in 0..6000 {
        last = env.clock(None);
    }
    assert_eq!(env.state, EnvelopeState::Sustain);
    assert_eq!(last, 80);
}

#[test]
fn retrigger_shortens_attack_proportionally() {
    let mut env = EnvelopeGenerator::new(config(), 44100);
    env.open_gate();
    for _ in 0..2200 {
        env.clock(None);
    }
    // mid-attack the level is just under half way up
    assert_eq!(env.current_level, 49);
    env.open_gate();
    // the new budget is scaled by the remaining 51% of the slope
    assert_eq!(env.retrigger_level, 49);
    assert_eq!(env.phase_ticks, 51 * 44);
    assert!(env.phase_ticks < 4400);
}

#[test]
fn decay_never_rises_back_above_its_start() {
    // a 4 ms decay at 44100 has a one-tick-per-percent step; rounding past
    // the end clamps at the sustain level instead of jumping back up
    let cfg = EnvelopConfiguration {
        attack_time: 1,
        decay_time: 4,
        release_time: 100,
        sustain_level: 0,
    };
    let mut env = EnvelopeGenerator::new(cfg, 44100);
    env.open_gate();
    let mut last: i16 = 0;
    while last < 100 {
        last = env.clock(None);
    }
    let mut prev: i16 = 100;
    for _ in 0..300 {
        let level = env.clock(None);
        assert!(level <= prev);
        prev = level;
    }
    assert_eq!(prev, 0);
}

#[test]
fn release_fades_to_idle() {
    let mut env = EnvelopeGenerator::new(config(), 44100);
    env.open_gate();
    for _ in 0..6000 {
        env.clock(None);
    }
    env.close_gate();
    assert_eq!(env.state, EnvelopeState::Release);
    let mut last: i16 = 100;
    // release budget = 100 ms * 44 = 4400 ticks
    for _ in 0..4500 {
        last = env.clock(None);
    }
    assert_eq!(env.state, EnvelopeState::Idle);
    assert_eq!(last, 0);
}

#[test]
fn overlapping_opens_release_once() {
    let mut env = EnvelopeGenerator::new(config(), 44100);
    env.open_gate();
    env.open_gate();
    for _ in 0..6000 {
        env.clock(None);
    }
    env.close_gate();
    // one of two overlapping opens closed: still holding
    assert!(env.gate);
    assert_eq!(env.state, EnvelopeState::Sustain);
    env.close_gate();
    assert!(!env.gate);
    assert_eq!(env.state, EnvelopeState::Release);
}

#[test]
fn idle_with_closed_gate_is_silent() {
    let mut env = EnvelopeGenerator::new(config(), 44100);
    for _ in 0..100 {
        assert_eq!(env.clock(None), 0);
    }
    assert_eq!(env.state, EnvelopeState::Idle);
}
