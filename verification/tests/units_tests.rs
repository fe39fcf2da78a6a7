use turtle_graphics::angle::{cos_mdeg, sin_mdeg, Degree, Distance, Radiant};
use turtle_graphics::geom::{Bounds, Position};
use turtle_graphics::num::{mul_div_trunc, sat_add, sat_neg, sat_sub};

#[test]
fn sine_exact_at_quarter_turns() {
    assert_eq!(sin_mdeg(0), 0);
    assert_eq!(sin_mdeg(90_000), 1000);
    assert_eq!(sin_mdeg(180_000), 0);
    assert_eq!(sin_mdeg(270_000), -1000);
    assert_eq!(sin_mdeg(360_000), 0);
    assert_eq!(sin_mdeg(-90_000), -1000);
    assert_eq!(sin_mdeg(450_000), 1000);
}

#[test]
fn cosine_exact_at_quarter_turns() {
    assert_eq!(cos_mdeg(0), 1000);
    assert_eq!(cos_mdeg(90_000), 0);
    assert_eq!(cos_mdeg(180_000), -1000);
    assert_eq!(cos_mdeg(270_000), 0);
    assert_eq!(cos_mdeg(-180_000), -1000);
}

#[test]
fn sine_of_thirty_degrees_is_exactly_half() {
    // Bhaskara's approximation happens to be exact at 30 and 150 degrees.
    assert_eq!(sin_mdeg(30_000), 500);
    assert_eq!(sin_mdeg(150_000), 500);
    assert_eq!(sin_mdeg(-30_000), -500);
}

#[test]
fn sine_stays_in_range() {
    let mut a: i64 = -720_000;
    while a <= 720_000 {
        let s = sin_mdeg(a);
        assert!((-1000..=1000).contains(&s));
        a += 7_919;
    }
}

#[test]
fn degree_radiant_round_trip_is_close() {
    let r = Radiant::from(Degree(90_000));
    assert_eq!(r.0, 1570);
    let d = Degree::from(Radiant(1571));
    assert_eq!(d.0, 90_011);
    let d0 = Degree::from(Radiant::from(Degree(45_000)));
    assert!((d0.0 - 45_000).abs() <= 60);
}

#[test]
fn unit_conversions_from_raw_values() {
    assert_eq!(Degree::from(1234).0, 1234);
    assert_eq!(Distance::from(-55).0, -55);
}

#[test]
fn negation_clamps_at_the_range_edge() {
    assert_eq!(Degree(5).neg(), Degree(-5));
    assert_eq!(Distance(-7).neg(), Distance(7));
    assert_eq!(Distance(i64::MIN).neg(), Distance(i64::MAX));
}

#[test]
fn saturating_scalar_arithmetic() {
    assert_eq!(sat_add(1, 2), 3);
    assert_eq!(sat_add(i64::MAX, 1), i64::MAX);
    assert_eq!(sat_sub(i64::MIN, 1), i64::MIN);
    assert_eq!(sat_neg(i64::MIN), i64::MAX);
    assert_eq!(mul_div_trunc(1000, 7, 1000), 7);
    assert_eq!(mul_div_trunc(-500, 3, 1000), -1);
    assert_eq!(mul_div_trunc(i64::MAX, 2, 1), i64::MAX);
}

#[test]
fn position_componentwise_operations() {
    let a = Position(1, 5);
    let b = Position(3, -2);
    assert_eq!(a.min(&b), Position(1, -2));
    assert_eq!(a.max(&b), Position(3, 5));
    let (lo, hi) = b.min_max(&(a, a));
    assert_eq!(lo, Position(1, -2));
    assert_eq!(hi, Position(3, 5));
    assert_eq!(a.add(b), Position(4, 3));
    assert_eq!(Position(i64::MAX, 0).add(Position(1, 1)), Position(i64::MAX, 1));
    assert_eq!(Position::origin(), Position(0, 0));
}

#[test]
fn bounds_track_running_extremes() {
    let mut b = Bounds::new();
    assert!(!b.is_bounded());
    b.add_position(Position(0, 0));
    assert!(b.is_bounded());
    assert_eq!(b.width(), 0);
    assert_eq!(b.height(), 0);
    b.add_position(Position(5_000, 2_000));
    b.add_position(Position(-1_000, 1_000));
    assert_eq!(b.min_x(), -1_000);
    assert_eq!(b.min_y(), 0);
    assert_eq!(b.max_x(), 5_000);
    assert_eq!(b.max_y(), 2_000);
    assert_eq!(b.width(), 6_000);
    assert_eq!(b.height(), 2_000);
}
