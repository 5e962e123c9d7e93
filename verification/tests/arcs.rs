use animated_gizmos::arcs::{
    angle_inverted, clamp_turn, resolution_from_angle, ArcKind, DEFAULT_CIRCLE_RESOLUTION, TAU,
};
use animated_gizmos::fixed::Fixed;

fn fx(raw: i64) -> Fixed {
    Fixed { raw }
}

const QUARTER_TURN: i64 = 1_570_796;
const THREE_QUARTER_TURNS: i64 = 4_712_389;

#[test]
fn a_full_turn_is_two_pi() {
    assert_eq!(TAU, 6_283_185);
    assert_eq!(TAU, (std::f64::consts::TAU * 1e6).floor() as i64);
}

#[test]
fn inverted_angle_goes_the_other_way_round() {
    assert_eq!(angle_inverted(fx(QUARTER_TURN)), fx(THREE_QUARTER_TURNS));
    assert_eq!(angle_inverted(fx(-QUARTER_TURN)), fx(-THREE_QUARTER_TURNS));
    assert_eq!(angle_inverted(fx(0)), fx(0));
    assert_eq!(angle_inverted(fx(1)), fx(TAU - 1));
    assert_eq!(angle_inverted(fx(-1)), fx(1 - TAU));
    assert_eq!(angle_inverted(fx(TAU)), fx(0));
    assert_eq!(angle_inverted(fx(3_141_592)), fx(3_141_593));
}

#[test]
fn inverted_angle_of_more_than_a_turn_changes_sign() {
    assert_eq!(angle_inverted(fx(TAU + 5)), fx(-5));
    assert_eq!(angle_inverted(fx(-TAU - 5)), fx(5));
    assert_eq!(angle_inverted(fx(i64::MAX)), fx(TAU - i64::MAX));
    assert_eq!(angle_inverted(fx(i64::MIN)), fx(i64::MAX - TAU + 1));
}

#[test]
fn inverting_twice_gives_the_angle_back() {
    for a in [1, QUARTER_TURN, 3_141_592, TAU - 1, -1, -QUARTER_TURN, 1 - TAU] {
        assert_eq!(angle_inverted(angle_inverted(fx(a))), fx(a));
    }
}

#[test]
fn angles_are_cut_off_at_a_full_turn() {
    assert_eq!(clamp_turn(fx(TAU + 1)), fx(TAU));
    assert_eq!(clamp_turn(fx(-TAU - 1)), fx(-TAU));
    assert_eq!(clamp_turn(fx(TAU)), fx(TAU));
    assert_eq!(clamp_turn(fx(-TAU)), fx(-TAU));
    assert_eq!(clamp_turn(fx(12_345)), fx(12_345));
    assert_eq!(clamp_turn(fx(i64::MAX)), fx(TAU));
    assert_eq!(clamp_turn(fx(i64::MIN)), fx(-TAU));
}

#[test]
fn short_and_long_sweep_of_a_right_angle() {
    let short = ArcKind::Short.sweep(fx(QUARTER_TURN));
    let long = ArcKind::Long.sweep(fx(QUARTER_TURN));
    assert_eq!(short.raw.abs(), QUARTER_TURN);
    assert_eq!(long.raw.abs(), THREE_QUARTER_TURNS);
    assert!(short.raw > 0 && long.raw > 0);
    assert_eq!(short.raw + long.raw, TAU);
}

#[test]
fn short_and_long_sweep_make_up_the_turn() {
    for a in [1, 500_000, QUARTER_TURN, 3_141_592, TAU - 1] {
        let short = ArcKind::Short.sweep(fx(a));
        let long = ArcKind::Long.sweep(fx(a));
        assert_eq!(short, fx(a));
        assert_eq!(short.raw + long.raw, TAU);
    }
}

#[test]
fn sweep_of_no_angle_is_no_sweep() {
    assert_eq!(ArcKind::Short.sweep(fx(0)), fx(0));
    assert_eq!(ArcKind::Long.sweep(fx(0)), fx(0));
}

#[test]
fn sweeps_are_cut_off_at_a_full_turn() {
    assert_eq!(ArcKind::Short.sweep(fx(TAU + 7)), fx(TAU));
    assert_eq!(ArcKind::Short.sweep(fx(-TAU - 7)), fx(-TAU));
    assert_eq!(ArcKind::Long.sweep(fx(i64::MAX)), fx(-TAU));
    assert_eq!(ArcKind::Long.sweep(fx(i64::MIN)), fx(TAU));
}

#[test]
fn default_resolution_is_the_share_of_a_circle_rounded_up() {
    assert_eq!(DEFAULT_CIRCLE_RESOLUTION, 32);
    assert_eq!(resolution_from_angle(fx(TAU)), 32);
    assert_eq!(resolution_from_angle(fx(-TAU)), 32);
    assert_eq!(resolution_from_angle(fx(TAU + 1)), 33);
    assert_eq!(resolution_from_angle(fx(QUARTER_TURN)), 8);
    assert_eq!(resolution_from_angle(fx(QUARTER_TURN + 1)), 9);
    assert_eq!(resolution_from_angle(fx(-THREE_QUARTER_TURNS)), 25);
    assert_eq!(resolution_from_angle(fx(1)), 1);
    assert_eq!(resolution_from_angle(fx(0)), 0);
    assert_eq!(resolution_from_angle(fx(196_349)), 1);
    assert_eq!(resolution_from_angle(fx(196_350)), 2);
}

#[test]
fn default_resolution_is_cut_off_at_the_greatest_count() {
    assert_eq!(resolution_from_angle(fx(i64::MAX)), u32::MAX);
    assert_eq!(resolution_from_angle(fx(i64::MIN)), u32::MAX);
    assert_eq!(resolution_from_angle(fx(843314814910980)), u32::MAX - 1);
    assert_eq!(resolution_from_angle(fx(843314814910981)), u32::MAX);
}
