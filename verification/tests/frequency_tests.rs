use little_weirdo::synth::frequencies::note_frequency;
use little_weirdo::synth::wavetables::{BoxedWavetable, BoxedWavetables, Wavetables};

#[test]
fn known_note_frequencies() {
    // concert-pitch A and its neighbours
    assert_eq!(note_frequency(69), 440);
    assert_eq!(note_frequency(68), 415);
    assert_eq!(note_frequency(70), 466);
    assert_eq!(note_frequency(71), 493);
    // middle C, the lowest and highest accepted notes, the table edges
    assert_eq!(note_frequency(60), 261);
    assert_eq!(note_frequency(24), 32);
    assert_eq!(note_frequency(108), 4186);
    assert_eq!(note_frequency(0), 8);
    assert_eq!(note_frequency(126), 11839);
}

#[test]
fn octaves_roughly_double() {
    for note in 24..=96 {
        let low = note_frequency(note) as u32;
        let high = note_frequency(note + 12) as u32;
        assert!(high == 2 * low || high == 2 * low + 1 || high + 1 == 2 * low);
    }
}

#[test]
fn store_hands_out_the_right_table() {
    let mut bytes_a: Vec<u8> = Vec::new();
    let mut bytes_b: Vec<u8> = Vec::new();
    for _ in 0..600 {
        bytes_a.push(0x10);
        bytes_a.push(0x00);
        bytes_b.push(0x20);
        bytes_b.push(0x00);
    }
    let mut wt = BoxedWavetables::new();
    wt.add(BoxedWavetable::new(&bytes_a));
    wt.add(BoxedWavetable::new(&bytes_b));
    let a = wt.get_wavetable_reference(0);
    assert_eq!(a.len(), 600);
    assert_eq!(a[0], 0x10);
    let b = wt.get_wavetable_reference(1);
    assert_eq!(b[599], 0x20);
}
