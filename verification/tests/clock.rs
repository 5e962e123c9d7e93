use animated_gizmos::animated::AnimatedGizmos;
use animated_gizmos::clock::{elapsed_seconds, seconds_from_micros};
use animated_gizmos::fixed::Fixed;
use animated_gizmos::geometry::Point3;
use animated_gizmos::gizmos::{DrawCommand, Gizmos};
use bevy_color::Color;
use bevy_time::Time;
use std::time::Duration;

fn fx(raw: i64) -> Fixed {
    Fixed { raw }
}

#[test]
fn microseconds_are_millionths_of_a_second() {
    assert_eq!(seconds_from_micros(0), fx(0));
    assert_eq!(seconds_from_micros(1), fx(1));
    assert_eq!(seconds_from_micros(2_500_000), fx(2_500_000));
    assert_eq!(seconds_from_micros(i64::MAX as u128), fx(i64::MAX));
}

#[test]
fn microseconds_beyond_the_range_are_cut_off() {
    assert_eq!(seconds_from_micros(i64::MAX as u128 + 1), fx(i64::MAX));
    assert_eq!(seconds_from_micros(u128::MAX), fx(i64::MAX));
}

#[test]
fn new_clock_shows_zero() {
    let time = Time::<()>::default();
    assert_eq!(elapsed_seconds(&time), fx(0));
}

#[test]
fn clock_shows_what_it_was_advanced_by() {
    let mut time = Time::<()>::default();
    time.advance_by(Duration::from_millis(2_500));
    assert_eq!(elapsed_seconds(&time), fx(2_500_000));
    time.advance_by(Duration::from_micros(1));
    assert_eq!(elapsed_seconds(&time), fx(2_500_001));
    time.advance_by(Duration::from_nanos(999));
    assert_eq!(elapsed_seconds(&time), fx(2_500_001));
    time.advance_to(Duration::from_secs(3600));
    assert_eq!(elapsed_seconds(&time), fx(3_600_000_000));
}

#[test]
fn clock_beyond_the_range_shows_the_greatest_time() {
    let mut time = Time::<u8>::new_with(7);
    time.advance_by(Duration::MAX);
    assert_eq!(elapsed_seconds(&time), fx(i64::MAX));
}

#[test]
fn frame_takes_its_time_from_the_clock() {
    let mut time = Time::<()>::default();
    time.advance_by(Duration::from_secs(4));
    let mut gizmos = AnimatedGizmos::at_time(Gizmos::new(true), &time);
    assert_eq!(gizmos.elapsed, fx(4_000_000));
    assert_eq!(gizmos.gizmos, Gizmos::new(true));

    let o = Point3 { x: fx(0), y: fx(0), z: fx(0) };
    let end = Point3 { x: fx(10_000_000), y: fx(0), z: fx(0) };
    gizmos.animated_line(o, end, Color::WHITE).finish(&mut gizmos);
    assert_eq!(
        gizmos.gizmos.commands[0],
        DrawCommand::Line {
            start: Point3 { x: fx(3_000_000), y: fx(0), z: fx(0) },
            end: Point3 { x: fx(4_000_000), y: fx(0), z: fx(0) },
            color: Color::WHITE,
        }
    );
}

#[test]
fn frame_on_a_disabled_surface_keeps_the_switch() {
    let time = Time::<()>::default();
    let gizmos = AnimatedGizmos::at_time(Gizmos::new(false), &time);
    assert_eq!(gizmos, AnimatedGizmos::new(Gizmos::new(false), fx(0)));
}
