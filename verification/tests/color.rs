use raytrace::color::Color;
use raytrace::scalar::Scalar;

#[test]
fn new_keeps_the_channels() {
    let c = Color::new(0xFF, 0x99, 0x33);
    assert_eq!((c.r, c.g, c.b), (255, 153, 51));
}

#[test]
fn black_is_black() {
    assert_eq!(Color::black(), Color::new(0, 0, 0));
    assert!(Color::black().is_black());
}

#[test]
fn a_single_channel_makes_a_colour_not_black() {
    assert!(!Color::new(1, 0, 0).is_black());
    assert!(!Color::new(0, 1, 0).is_black());
    assert!(!Color::new(0, 0, 1).is_black());
}

#[test]
fn scaling_drops_the_fraction() {
    let half = Scalar::from_micros(500_000);
    assert_eq!(Color::new(200, 101, 7) * half, Color::new(100, 50, 3));
    assert_eq!(Color::new(255, 0, 0x33) * Scalar::from_micros(700_000), Color::new(178, 0, 35));
    assert_eq!(Color::new(255, 255, 255) * Scalar::from_micros(999_999), Color::new(254, 254, 254));
}

#[test]
fn scaling_by_one_changes_nothing() {
    let c = Color::new(255, 153, 51);
    assert_eq!(c * Scalar::one(), c);
}

#[test]
fn scaling_by_zero_or_less_gives_black() {
    let c = Color::new(255, 153, 51);
    assert_eq!(c * Scalar::zero(), Color::black());
    assert_eq!(c * Scalar::from_int(-2), Color::black());
    assert_eq!(c * Scalar::from_micros(i64::MIN), Color::black());
}

#[test]
fn scaling_beyond_the_range_clamps() {
    let c = Color::new(200, 100, 1);
    assert_eq!(c * Scalar::from_int(2), Color::new(255, 200, 2));
    assert_eq!(c * Scalar::max_value(), Color::new(255, 255, 255));
}

#[test]
fn adding_clamps_each_channel() {
    assert_eq!(Color::new(200, 100, 0) + Color::new(100, 100, 0), Color::new(255, 200, 0));
    assert_eq!(Color::new(255, 255, 255) + Color::new(255, 255, 255), Color::new(255, 255, 255));
    assert_eq!(Color::new(1, 2, 3) + Color::black(), Color::new(1, 2, 3));
}
