use little_weirdo::synth::bitcrunch::{Bitcrunch, BitcrunchConfiguration};
use little_weirdo::synth::effects::Effect;
use little_weirdo::synth::filter::{Filter, FilterConfig, KindOfFilter};
use little_weirdo::synth::overdrive::{KindOfOverdrive, Overdrive, OverdriveConfiguration};

#[test]
fn disabled_filter_passes_samples_through() {
    let cfg = FilterConfig {
        cutoff_frequency: 0,
        resonance: 0,
        kind_of_filter: KindOfFilter::Low,
        enabled: false,
    };
    let mut filter = Filter::new(cfg);
    for x in [-32768i16, -1234, 0, 1, 9999, 32767] {
        assert_eq!(filter.clock(x), x);
    }
}

#[test]
fn lowpass_filter_tracks_input() {
    let cfg = FilterConfig {
        cutoff_frequency: 65535,
        resonance: 0,
        kind_of_filter: KindOfFilter::Low,
        enabled: true,
    };
    let mut filter = Filter::new(cfg);
    // first sample charges the first accumulator only
    assert_eq!(filter.clock(1000), 0);
    // second sample flows into the low-pass accumulator
    assert_eq!(filter.clock(1000), 998);
}

#[test]
fn overdrive_below_threshold_is_identity() {
    for kind in [KindOfOverdrive::Hard, KindOfOverdrive::Soft, KindOfOverdrive::Softer] {
        let cfg = OverdriveConfiguration { threshold: 1000, kind, enabled: true };
        let mut od = Overdrive::new(cfg);
        for x in [-1000i16, -37, 0, 999, 1000] {
            assert_eq!(od.clock(x), x);
        }
    }
}

#[test]
fn overdrive_hard_clips_to_threshold() {
    let cfg =
        OverdriveConfiguration { threshold: 1000, kind: KindOfOverdrive::Hard, enabled: true };
    let mut od = Overdrive::new(cfg);
    assert_eq!(od.clock(2000), 1000);
    assert_eq!(od.clock(-2000), -1000);
    assert_eq!(od.clock(i16::MIN), -1000);
}

#[test]
fn overdrive_soft_halves_the_excess() {
    let cfg =
        OverdriveConfiguration { threshold: 1000, kind: KindOfOverdrive::Soft, enabled: true };
    let mut od = Overdrive::new(cfg);
    assert_eq!(od.clock(2000), 1500);
    assert_eq!(od.clock(-2000), -1500);
}

#[test]
fn overdrive_softer_divides_the_excess_by_eight() {
    let cfg =
        OverdriveConfiguration { threshold: 1000, kind: KindOfOverdrive::Softer, enabled: true };
    let mut od = Overdrive::new(cfg);
    assert_eq!(od.clock(2000), 1125);
    assert_eq!(od.clock(-2000), -1125);
}

#[test]
fn overdrive_disabled_matches_hard_at_max_threshold() {
    let off = OverdriveConfiguration {
        threshold: 0,
        kind: KindOfOverdrive::Hard,
        enabled: false,
    };
    let hard_max = OverdriveConfiguration {
        threshold: i16::MAX,
        kind: KindOfOverdrive::Hard,
        enabled: true,
    };
    let mut od_off = Overdrive::new(off);
    let mut od_max = Overdrive::new(hard_max);
    for x in [-32767i16, -12345, -1, 0, 1, 12345, 32767] {
        assert_eq!(od_off.clock(x), od_max.clock(x));
    }
}

#[test]
fn bitcrunch_quantizes_to_256_steps() {
    let mut bc = Bitcrunch::new(BitcrunchConfiguration { enabled: true });
    assert_eq!(bc.clock(1000), 768);
    assert_eq!(bc.clock(-1000), -768);
    assert_eq!(bc.clock(255), 0);
    assert_eq!(bc.clock(256), 256);
    assert_eq!(bc.clock(0), 0);
    let mut off = Bitcrunch::new(BitcrunchConfiguration { enabled: false });
    assert_eq!(off.clock(1000), 1000);
}
