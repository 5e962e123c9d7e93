use animated_gizmos::fixed::{Fixed, SCALE};
use animated_gizmos::geometry::{Point2, Point3};

fn fx(raw: i64) -> Fixed {
    Fixed { raw }
}

#[test]
fn zero_and_one() {
    assert_eq!(Fixed::zero(), fx(0));
    assert_eq!(Fixed::one(), fx(1_000_000));
    assert_eq!(SCALE, 1_000_000);
}

#[test]
fn add_and_sub_are_exact_within_the_range() {
    assert_eq!(fx(1_500_000).saturating_add(fx(-2_250_000)), fx(-750_000));
    assert_eq!(fx(1_500_000).saturating_sub(fx(-2_250_000)), fx(3_750_000));
    assert_eq!(fx(0).saturating_sub(fx(i64::MAX)), fx(-i64::MAX));
}

#[test]
fn add_and_sub_saturate() {
    assert_eq!(fx(i64::MAX).saturating_add(fx(1)), fx(i64::MAX));
    assert_eq!(fx(i64::MIN).saturating_add(fx(-1)), fx(i64::MIN));
    assert_eq!(fx(i64::MIN).saturating_sub(fx(1)), fx(i64::MIN));
    assert_eq!(fx(i64::MAX).saturating_sub(fx(i64::MIN)), fx(i64::MAX));
    assert_eq!(fx(0).saturating_sub(fx(i64::MIN)), fx(i64::MAX));
}

#[test]
fn mul_rounds_down() {
    assert_eq!(fx(1_500_000).saturating_mul(fx(2_000_000)), fx(3_000_000));
    assert_eq!(fx(500_000).saturating_mul(fx(1_570_796)), fx(785_398));
    assert_eq!(fx(1).saturating_mul(fx(500_000)), fx(0));
    assert_eq!(fx(-1).saturating_mul(fx(500_000)), fx(-1));
    assert_eq!(fx(1_500_000).saturating_mul(fx(-2_500_001)), fx(-3_750_002));
    assert_eq!(fx(-3).saturating_mul(fx(-333_333)), fx(0));
    assert_eq!(fx(0).saturating_mul(fx(i64::MIN)), fx(0));
    assert_eq!(fx(i64::MAX).saturating_mul(fx(0)), fx(0));
}

#[test]
fn mul_saturates() {
    assert_eq!(fx(i64::MAX).saturating_mul(fx(2_000_000)), fx(i64::MAX));
    assert_eq!(fx(i64::MAX).saturating_mul(fx(-2_000_000)), fx(i64::MIN));
    assert_eq!(fx(i64::MIN).saturating_mul(fx(i64::MIN)), fx(i64::MAX));
    assert_eq!(fx(i64::MIN).saturating_mul(fx(i64::MAX)), fx(i64::MIN));
    assert_eq!(fx(i64::MAX).saturating_mul(fx(1_000_000)), fx(i64::MAX));
    assert_eq!(fx(i64::MIN).saturating_mul(fx(1_000_000)), fx(i64::MIN));
}

#[test]
fn abs_saturates_at_the_least_number() {
    assert_eq!(fx(-5).saturating_abs(), fx(5));
    assert_eq!(fx(5).saturating_abs(), fx(5));
    assert_eq!(fx(0).saturating_abs(), fx(0));
    assert_eq!(fx(i64::MIN).saturating_abs(), fx(i64::MAX));
}

#[test]
fn lerp_follows_the_line() {
    assert_eq!(fx(0).lerp(fx(10_000_000), fx(500_000)), fx(5_000_000));
    assert_eq!(fx(0).lerp(fx(10_000_000), fx(0)), fx(0));
    assert_eq!(fx(0).lerp(fx(10_000_000), fx(1_000_000)), fx(10_000_000));
    assert_eq!(fx(2_000_000).lerp(fx(-2_000_000), fx(250_000)), fx(1_000_000));
    assert_eq!(fx(3).lerp(fx(10), fx(500_000)), fx(6));
    assert_eq!(fx(10).lerp(fx(3), fx(500_000)), fx(6));
    assert_eq!(fx(-7).lerp(fx(-7), fx(333_333)), fx(-7));
}

#[test]
fn lerp_stays_between_its_ends() {
    let ends = [(0, 1), (-5, 17), (1_000_000, -3_000_000), (i64::MIN / 2, i64::MAX / 2)];
    for (a, b) in ends {
        for w in [0, 1, 250_000, 333_333, 999_999, 1_000_000] {
            let r = fx(a).lerp(fx(b), fx(w)).raw;
            assert!(a.min(b) <= r && r <= a.max(b), "a={a} b={b} w={w} r={r}");
        }
    }
}

#[test]
fn lerp_saturates_where_the_ends_are_too_far_apart() {
    // the difference of the ends is cut off at the greatest number
    assert_eq!(fx(i64::MIN).lerp(fx(i64::MAX), fx(1_000_000)), fx(-1));
}

#[test]
fn points_are_interpolated_by_coordinate() {
    let a = Point3 { x: fx(0), y: fx(1_000_000), z: fx(-4_000_000) };
    let b = Point3 { x: fx(10_000_000), y: fx(1_000_000), z: fx(4_000_000) };
    assert_eq!(
        a.lerp(b, fx(250_000)),
        Point3 { x: fx(2_500_000), y: fx(1_000_000), z: fx(-2_000_000) }
    );
    let c = Point2 { x: fx(-100_000_000), y: fx(50_000_000) };
    let d = Point2 { x: fx(100_000_000), y: fx(-50_000_000) };
    assert_eq!(c.lerp(d, fx(900_000)), Point2 { x: fx(80_000_000), y: fx(-40_000_000) });
    assert_eq!(c.lerp(d, fx(0)), c);
    assert_eq!(c.lerp(d, fx(1_000_000)), d);
}
