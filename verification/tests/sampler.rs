use animated_gizmos::fixed::{Fixed, SCALE};
use animated_gizmos::sampler::{sample_percentages, sample_window, Window};

fn fx(raw: i64) -> Fixed {
    Fixed { raw }
}

fn win(start: i64, end: i64) -> Window {
    Window { start: fx(start), end: fx(end) }
}

fn total(windows: &[Window]) -> i64 {
    windows.iter().map(|w| w.end.raw - w.start.raw).sum()
}

#[test]
fn one_segment_at_rest_has_a_point_and_the_back_half() {
    assert_eq!(sample_percentages(1, fx(0), fx(0)), vec![win(0, 0), win(500_000, 1_000_000)]);
}

#[test]
fn five_segments_at_time_zero_are_evenly_spaced() {
    assert_eq!(
        sample_percentages(5, fx(0), fx(100_000)),
        vec![
            win(0, 0),
            win(100_000, 200_000),
            win(300_000, 400_000),
            win(500_000, 600_000),
            win(700_000, 800_000),
            win(900_000, 1_000_000),
        ]
    );
}

#[test]
fn moving_dashes_wrap_after_the_period() {
    // travel 2.5 * 0.3 = 0.75, period 1.25
    assert_eq!(
        sample_percentages(4, fx(2_500_000), fx(300_000)),
        vec![
            win(625_000, 750_000),
            win(875_000, 1_000_000),
            win(0, 0),
            win(125_000, 250_000),
            win(375_000, 500_000),
        ]
    );
}

#[test]
fn a_dash_leaves_the_path_smoothly() {
    // travel 0.1: the last dash would reach from 1.0 to 1.1 and is cut off at the end
    let windows = sample_percentages(2, fx(1_000_000), fx(100_000));
    assert_eq!(windows, vec![win(0, 100_000), win(350_000, 600_000), win(850_000, 1_000_000)]);
    // travel 0.3: the last dash is beyond the end, within the extra segment
    let windows = sample_percentages(2, fx(3_000_000), fx(100_000));
    assert_eq!(windows[2], win(1_000_000, 1_000_000));
}

#[test]
fn a_dash_enters_the_path_smoothly() {
    // travel 0.1 on two segments: the first dash shows the part that has entered
    assert_eq!(sample_window(2, 0, fx(1_000_000), fx(100_000)), win(0, 100_000));
    assert_eq!(sample_window(2, 0, fx(2_500_000), fx(100_000)), win(0, 250_000));
    assert_eq!(sample_window(2, 0, fx(3_000_000), fx(100_000)), win(50_000, 300_000));
}

#[test]
fn thirds_are_rounded_down() {
    assert_eq!(
        sample_percentages(3, fx(0), fx(100_000)),
        vec![win(0, 0), win(166_666, 333_333), win(500_000, 666_666), win(833_333, 1_000_000)]
    );
}

#[test]
fn the_smallest_step_of_time_and_speed_counts() {
    // travel of one millionth of a millionth: too little to show after rounding
    assert_eq!(sample_window(1, 0, fx(1), fx(1)), win(0, 0));
    // 0.000001 s at speed 1: one millionth of the path
    assert_eq!(sample_window(1, 0, fx(1), fx(1_000_000)), win(0, 1));
    assert_eq!(sample_window(1, 1, fx(1), fx(1_000_000)), win(500_001, 1_000_000));
}

#[test]
fn sample_has_one_window_more_than_segments_all_on_the_path() {
    let times = [0, 1, 999_999, 1_000_000, 12_345_678, 3_600_000_000, i64::MAX, i64::MIN];
    let speeds = [0, 1, 100_000, 500_000, 1_000_000, 7_300_000, -100_000, i64::MAX, i64::MIN];
    for n in [1usize, 2, 3, 5, 10, 64, 1000] {
        for t in times {
            for s in speeds {
                let windows = sample_percentages(n, fx(t), fx(s));
                assert_eq!(windows.len(), n + 1);
                for w in &windows {
                    assert!(0 <= w.start.raw, "n={n} t={t} s={s}");
                    assert!(w.start.raw <= w.end.raw, "n={n} t={t} s={s}");
                    assert!(w.end.raw <= SCALE, "n={n} t={t} s={s}");
                }
            }
        }
    }
}

#[test]
fn sample_window_is_the_window_of_the_sample() {
    for n in [1usize, 4, 7] {
        let windows = sample_percentages(n, fx(2_345_678), fx(321_000));
        for i in 0..=n {
            assert_eq!(sample_window(n, i, fx(2_345_678), fx(321_000)), windows[i]);
        }
    }
}

#[test]
fn sample_repeats_after_one_period() {
    // n = 1: period 2 at speed 1
    assert_eq!(
        sample_percentages(1, fx(300_000), fx(1_000_000)),
        sample_percentages(1, fx(2_300_000), fx(1_000_000))
    );
    // n = 4: period 1.25, at speed 0.5 that takes 2.5 s
    for t in [0, 700_000, 1_234_567, 90_000_000] {
        assert_eq!(
            sample_percentages(4, fx(t), fx(500_000)),
            sample_percentages(4, fx(t + 2_500_000), fx(500_000))
        );
    }
    // n = 5: period 1.2, at speed 0.1 that takes 12 s
    assert_eq!(
        sample_percentages(5, fx(4_000_000), fx(100_000)),
        sample_percentages(5, fx(16_000_000), fx(100_000))
    );
    assert_eq!(
        sample_percentages(5, fx(4_000_000), fx(100_000))[0],
        win(300_000, 400_000)
    );
}

#[test]
fn sample_differs_after_half_a_period() {
    assert_ne!(
        sample_percentages(4, fx(700_000), fx(500_000)),
        sample_percentages(4, fx(700_000 + 1_250_000), fx(500_000))
    );
}

#[test]
fn backward_sample_repeats_after_one_period() {
    // speed -1 on one segment: one period from 2.5 s is 0.5 s
    let earlier = sample_percentages(1, fx(2_500_000), fx(-1_000_000));
    let later = sample_percentages(1, fx(500_000), fx(-1_000_000));
    assert_eq!(earlier, vec![win(1_000_000, 1_000_000), win(0, 500_000)]);
    assert_eq!(later, earlier);
    // speed -0.5 on one segment: one period from 1 s is -3 s
    let earlier = sample_percentages(1, fx(1_000_000), fx(-500_000));
    let later = sample_percentages(1, fx(-3_000_000), fx(-500_000));
    assert_eq!(earlier, vec![win(1_000_000, 1_000_000), win(0, 500_000)]);
    assert_eq!(later, earlier);
    // speed -0.3 on four segments: the period 1.25 takes 25/6 s, which only a
    // multiple of six hits to the millionth
    assert_eq!(
        sample_percentages(4, fx(2_500_000), fx(-300_000)),
        sample_percentages(4, fx(2_500_000 - 25_000_000), fx(-300_000))
    );
}

#[test]
fn backward_dashes_far_from_zero_repeat() {
    // speed -1: offsets at 7 s are -7 and -6, one period on (5 s) they are -5 and -4
    assert_eq!(
        sample_percentages(1, fx(7_000_000), fx(-1_000_000)),
        vec![win(500_000, 1_000_000), win(0, 0)]
    );
    assert_eq!(
        sample_percentages(1, fx(7_000_000), fx(-1_000_000)),
        sample_percentages(1, fx(5_000_000), fx(-1_000_000))
    );
}

#[test]
fn backward_dashes_travel_round_the_same_track() {
    // travel -0.75 on four segments, period 1.25
    assert_eq!(
        sample_percentages(4, fx(2_500_000), fx(-300_000)),
        vec![
            win(375_000, 500_000),
            win(625_000, 750_000),
            win(875_000, 1_000_000),
            win(0, 0),
            win(125_000, 250_000),
        ]
    );
    // travel -10 on three segments, period 4/3
    assert_eq!(
        sample_percentages(3, fx(10_000_000), fx(-1_000_000)),
        vec![win(500_000, 666_666), win(833_333, 1_000_000), win(0, 0), win(166_666, 333_333)]
    );
    // travel -0.4 on five segments: each dash is 0.4 before its place at rest
    assert_eq!(
        sample_percentages(5, fx(4_000_000), fx(-100_000)),
        vec![
            win(700_000, 800_000),
            win(900_000, 1_000_000),
            win(0, 0),
            win(100_000, 200_000),
            win(300_000, 400_000),
            win(500_000, 600_000),
        ]
    );
}

#[test]
fn a_time_before_the_start_is_sampled_like_any_other() {
    // travel of minus one millionth of a millionth on two segments
    assert_eq!(
        sample_percentages(2, fx(-1), fx(1)),
        vec![win(1_000_000, 1_000_000), win(249_999, 499_999), win(749_999, 999_999)]
    );
}

#[test]
fn at_speed_zero_the_sample_is_the_same_at_every_time() {
    let at_rest = sample_percentages(7, fx(0), fx(0));
    for t in [1, 1_000_000, 987_654_321, i64::MAX, -5, i64::MIN] {
        assert_eq!(sample_percentages(7, fx(t), fx(0)), at_rest);
    }
    assert_eq!(at_rest[3], win(357_142, 428_571));
}

#[test]
fn dashes_cover_no_more_than_the_path() {
    for n in [1usize, 2, 3, 5, 9, 100, 2_000_000] {
        if n > 1000 {
            let windows = sample_percentages(n, fx(1_234_567), fx(100_000));
            assert!(total(&windows) <= SCALE);
            continue;
        }
        for step in 0..200 {
            let windows = sample_percentages(n, fx(step * 61_803), fx(1_000_000));
            assert!(total(&windows) <= SCALE, "n={n} step={step}");
        }
    }
}

#[test]
fn extreme_inputs_give_windows_on_the_path() {
    for n in [1usize, 3, usize::MAX - 1, usize::MAX] {
        for i in [0usize, 1, n / 2, n] {
            for (t, s) in [(i64::MAX, i64::MAX), (i64::MIN, i64::MIN), (i64::MAX, i64::MIN), (i64::MAX, 1), (1, i64::MAX)] {
                if i > n {
                    continue;
                }
                let w = sample_window(n, i, fx(t), fx(s));
                assert!(0 <= w.start.raw && w.start.raw <= w.end.raw && w.end.raw <= SCALE);
            }
        }
    }
}

#[test]
fn dashes_lie_in_order_until_the_first_has_passed_a_segment() {
    for n in [1usize, 2, 5, 12] {
        // at speed 1 the first dash passes the first segment after 1/n seconds
        let last = 1_000_000 / n as i64 - 1;
        for t in [0, 1, last / 2, last] {
            let windows = sample_percentages(n, fx(t), fx(1_000_000));
            for pair in windows.windows(2) {
                assert!(pair[0].end.raw <= pair[1].start.raw, "n={n} t={t}");
            }
        }
    }
    // backward, the dash that has passed the start lies beyond the end
    let windows = sample_percentages(6, fx(400_000), fx(-1_000_000));
    assert_eq!(windows[2], win(1_000_000, 1_000_000));
    assert_eq!(windows[3], win(16_666, 100_000));
    // after 0.6 s the last dash has wrapped round and lies before the first
    let windows = sample_percentages(5, fx(600_000), fx(1_000_000));
    assert_eq!(windows[5], win(300_000, 400_000));
    assert_eq!(windows[0], win(500_000, 600_000));
}

#[test]
fn no_dash_is_longer_than_half_a_segment() {
    for n in [1usize, 2, 3, 7, 1000] {
        for step in 0..100 {
            for w in sample_percentages(n, fx(step * 37_717), fx(700_000)) {
                assert!(w.end.raw - w.start.raw <= SCALE / (2 * n as i64) + 1, "n={n}");
            }
        }
    }
    assert_eq!(sample_window(4, 2, fx(0), fx(0)), win(375_000, 500_000));
}
