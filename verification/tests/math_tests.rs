use little_weirdo::synth::math::{fx_mul, ifx_mul, percentage, ucfx_mul};

#[test]
fn percentage_exact_values() {
    assert_eq!(percentage(1000, 50), 500);
    assert_eq!(percentage(-1000, 50), -500);
    assert_eq!(percentage(12345, 100), 12345);
    assert_eq!(percentage(12345, 0), 0);
    assert_eq!(percentage(-32768, 100), -32768);
    assert_eq!(percentage(33, 33), 10);
    assert_eq!(percentage(-33, 33), -10);
}

#[test]
fn percentage_velocity_range_truncates() {
    // 32767 * 10 * 127 / 1000 = 41614, which wraps around in 16 bits
    let wide: i32 = 32767 * 10 * 127 / 1000;
    assert_eq!(percentage(32767, 127), wide as i16);
    assert_eq!(percentage(32767, 127), -23922);
}

#[test]
fn fixed_point_multiplies() {
    assert_eq!(ucfx_mul(65535, 65535), 65534);
    assert_eq!(ucfx_mul(0, 12345), 0);
    assert_eq!(ucfx_mul(32768, 2), 1);
    assert_eq!(ifx_mul(65536, 3), 3);
    assert_eq!(ifx_mul(-65536, 3), -3);
    // the arithmetic shift floors toward negative infinity
    assert_eq!(ifx_mul(-1, 3), -1);
    assert_eq!(fx_mul(1 << 32, 4), 1 << 18);
    assert_eq!(fx_mul(-(1 << 32), 4), -(1 << 18));
    assert_eq!(fx_mul(-3, 1), -1);
}
