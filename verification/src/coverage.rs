//! How the dashes of a sample lie on the path, and how much of it they
//! cover.
//!
//! The dashes of one sample never overlap: each is half a segment long, the
//! next one starts a whole segment further on, and the one that has wrapped
//! round lies before the first. So together they cover no more than the
//! path, also after their ends have been rounded. Until the first dash has
//! wrapped round, they lie in the order of their index.

use crate::animated::{AnimatedArc2dBuilder, AnimatedGizmos};
use crate::fixed::{Fixed, SCALE};
use crate::gizmos::DrawCommand;
use crate::sampler::{
    dash_ticks, end_ticks, lemma_fraction_bounds, lemma_phase_is_remainder, offset_ticks,
    path_ticks, period_ticks, phase_ticks, sample_spec, start_ticks, Window,
};
use vstd::arithmetic::div_mod::{
    lemma_fundamental_div_mod, lemma_mod_multiples_vanish, lemma_small_mod,
};
use vstd::prelude::*;

verus! {

/// The sum of the lengths of the windows, in millionths of the path.
pub open spec fn total_length(ws: Seq<Window>) -> int
    decreases ws.len(),
{
    if ws.len() == 0 {
        0
    } else {
        total_length(ws.drop_last()) + (ws.last().end@ - ws.last().start@)
    }
}

/// The windows up to `m` are those up to `m - 1` and window `m - 1`.
proof fn lemma_total_length_step(ws: Seq<Window>, m: int)
    requires
        1 <= m <= ws.len(),
    ensures
        total_length(ws.take(m)) == total_length(ws.take(m - 1)) + (ws[m - 1].end@ - ws[m
            - 1].start@),
{
    assert(ws.take(m).drop_last() =~= ws.take(m - 1));
}

/// The phase of dash `i` is that of dash zero and `i` segments more, less
/// one period where that exceeds it.
proof fn lemma_phase_from_first(n: int, i: int, t: Fixed, s: Fixed)
    requires
        n > 0,
        0 <= i <= n,
    ensures
        0 <= phase_ticks(n, 0, t, s) < period_ticks(n),
        phase_ticks(n, i, t, s) == if phase_ticks(n, 0, t, s) + i * 2_000_000_000_000
            < period_ticks(n) {
            phase_ticks(n, 0, t, s) + i * 2_000_000_000_000
        } else {
            phase_ticks(n, 0, t, s) + i * 2_000_000_000_000 - period_ticks(n)
        },
{
    let period = period_ticks(n);
    let first = offset_ticks(n, 0, t, s);
    let here = offset_ticks(n, i, t, s);
    lemma_phase_is_remainder(n, 0, t, s);
    lemma_phase_is_remainder(n, i, t, s);
    lemma_fundamental_div_mod(first, period);
    let q = first / period;
    let p0 = first % period;
    let g = p0 + i * 2_000_000_000_000;
    assert(here == period * q + g);
    lemma_mod_multiples_vanish(q, g, period);
    if g < period {
        lemma_small_mod(g as nat, period as nat);
    } else {
        lemma_mod_multiples_vanish(1, g - period, period);
        lemma_small_mod((g - period) as nat, period as nat);
    }
}

/// The two ends of a window in millionths of the path are its ends in
/// ticks, rounded down; both lie on the path, in their order.
proof fn lemma_window_ends(n: int, i: int, t: Fixed, s: Fixed)
    requires
        n > 0,
        0 <= i <= n,
    ensures
        sample_spec(n, t, s)[i].start@ == (start_ticks(n, i, t, s) / 2_000_000) / n,
        sample_spec(n, t, s)[i].end@ == (end_ticks(n, i, t, s) / 2_000_000) / n,
        0 <= sample_spec(n, t, s)[i].start@ <= sample_spec(n, t, s)[i].end@ <= SCALE,
        0 <= start_ticks(n, i, t, s) <= end_ticks(n, i, t, s) <= path_ticks(n),
{
    lemma_fraction_bounds(n, start_ticks(n, i, t, s), end_ticks(n, i, t, s));
}

/// What the first `m` windows cover.
proof fn lemma_prefix_length(n: int, t: Fixed, s: Fixed, m: int)
    requires
        n > 0,
        1 <= m <= n + 1,
    ensures
        phase_ticks(n, 0, t, s) + (m - 1) * 2_000_000_000_000 < period_ticks(n) ==> total_length(
            sample_spec(n, t, s).take(m),
        ) <= sample_spec(n, t, s)[m - 1].end@ - sample_spec(n, t, s)[0].start@,
        phase_ticks(n, 0, t, s) + (m - 1) * 2_000_000_000_000 >= period_ticks(n) ==> total_length(
            sample_spec(n, t, s).take(m),
        ) <= SCALE - sample_spec(n, t, s)[0].start@ + sample_spec(n, t, s)[m - 1].end@,
    decreases m,
{
    let ws = sample_spec(n, t, s);
    lemma_total_length_step(ws, m);
    lemma_window_ends(n, m - 1, t, s);
    lemma_window_ends(n, 0, t, s);
    lemma_phase_from_first(n, m - 1, t, s);
    if m == 1 {
        assert(ws.take(0).len() == 0);
    } else {
        lemma_prefix_length(n, t, s, m - 1);
        lemma_window_ends(n, m - 2, t, s);
        lemma_phase_from_first(n, m - 2, t, s);
        let before = phase_ticks(n, 0, t, s) + (m - 2) * 2_000_000_000_000;
        let here = phase_ticks(n, 0, t, s) + (m - 1) * 2_000_000_000_000;
        if here < period_ticks(n) || before >= period_ticks(n) {
            // No wrap between the two: the later window starts where the earlier ends, or beyond.
            assert(end_ticks(n, m - 2, t, s) <= start_ticks(n, m - 1, t, s));
            lemma_fraction_bounds(n, end_ticks(n, m - 2, t, s), start_ticks(n, m - 1, t, s));
        }
    }
}

/// The dashes of a sample cover no more than the path: their lengths add
/// up to one at most.
pub proof fn lemma_sample_within_path(n: int, t: Fixed, s: Fixed)
    requires
        n > 0,
    ensures
        total_length(sample_spec(n, t, s)) <= SCALE,
{
    let ws = sample_spec(n, t, s);
    assert(ws.take(n + 1) =~= ws);
    lemma_window_ends(n, n, t, s);
    lemma_window_ends(n, 0, t, s);
    lemma_prefix_length(n, t, s, n + 1);
    lemma_phase_from_first(n, n, t, s);
    if phase_ticks(n, 0, t, s) + n * 2_000_000_000_000 >= period_ticks(n) {
        // The last dash has wrapped round and lies before the first.
        assert(end_ticks(n, n, t, s) <= start_ticks(n, 0, t, s));
        lemma_fraction_bounds(n, end_ticks(n, n, t, s), start_ticks(n, 0, t, s));
    }
}

/// The length of the arc that a command draws in the plane, in millionths
/// of a radian; zero for a command that draws none.
pub open spec fn arc_angle_of(command: DrawCommand) -> int {
    match command {
        DrawCommand::Arc2d { arc_angle, .. } => arc_angle@,
        _ => 0,
    }
}

/// The sum of the lengths of the arcs that the commands draw in the plane.
pub open spec fn total_arc_angle(commands: Seq<DrawCommand>) -> int
    decreases commands.len(),
{
    if commands.len() == 0 {
        0
    } else {
        total_arc_angle(commands.drop_last()) + arc_angle_of(commands.last())
    }
}

/// The dash of a window on the path is as long as the window's share of the
/// arc, rounded down.
proof fn lemma_dash_arc_angle(builder: AnimatedArc2dBuilder, w: Window)
    requires
        builder.arc_angle@ >= 0,
        0 <= w.start@ <= w.end@ <= SCALE,
    ensures
        0 <= arc_angle_of(builder.dash(w)),
        arc_angle_of(builder.dash(w)) * 1_000_000 <= (w.end@ - w.start@) * builder.arc_angle@,
{
    let length = w.end@ - w.start@;
    let arc = builder.arc_angle@;
    assert(AnimatedArc2dBuilder::length(w)@ == length);
    let p = length * arc;
    assert(0 <= p / 1_000_000 <= arc && (p / 1_000_000) * 1_000_000 <= p) by (nonlinear_arith)
        requires
            p == length * arc,
            0 <= length <= 1_000_000,
            0 <= arc,
    ;
}

/// The arcs of the first `m` dashes are together no longer than the share
/// of the arc that the first `m` windows cover.
proof fn lemma_prefix_arc_angle(builder: AnimatedArc2dBuilder, ws: Seq<Window>, m: int)
    requires
        builder.arc_angle@ >= 0,
        0 <= m <= ws.len(),
        forall|i: int| 0 <= i < ws.len() ==> 0 <= (#[trigger] ws[i]).start@ <= ws[i].end@ <= SCALE,
    ensures
        total_arc_angle(ws.map_values(|w: Window| builder.dash(w)).take(m)) * 1_000_000
            <= total_length(ws.take(m)) * builder.arc_angle@,
    decreases m,
{
    let dashes = ws.map_values(|w: Window| builder.dash(w));
    if m == 0 {
        assert(dashes.take(0).len() == 0);
        assert(ws.take(0).len() == 0);
        assert(0 * builder.arc_angle@ == 0);
    } else {
        lemma_prefix_arc_angle(builder, ws, m - 1);
        lemma_total_length_step(ws, m);
        assert(dashes.take(m).drop_last() =~= dashes.take(m - 1));
        assert(dashes.take(m).last() == builder.dash(ws[m - 1]));
        lemma_dash_arc_angle(builder, ws[m - 1]);
        let a = total_length(ws.take(m - 1));
        let b = ws[m - 1].end@ - ws[m - 1].start@;
        let arc = builder.arc_angle@;
        assert((a + b) * arc == a * arc + b * arc) by (nonlinear_arith);
    }
}

/// The dashes of an animated arc in the plane never exceed the arc: the
/// lengths of the arcs that finishing the builder draws add up to the
/// length of the whole arc at most.
pub proof fn lemma_arc_2d_dashes_within_arc(builder: AnimatedArc2dBuilder, gizmos: AnimatedGizmos)
    requires
        builder.arc_angle@ >= 0,
    ensures
        total_arc_angle(builder.emitted(gizmos)) <= builder.arc_angle@,
{
    if gizmos.draws_spec(builder.segments) {
        let n = builder.segments as int;
        let ws = sample_spec(n, gizmos.elapsed, builder.speed);
        let dashes = ws.map_values(|w: Window| builder.dash(w));
        assert forall|i: int| 0 <= i < ws.len() implies 0 <= (#[trigger] ws[i]).start@
            <= ws[i].end@ <= SCALE by {
            lemma_window_ends(n, i, gizmos.elapsed, builder.speed);
        }
        lemma_prefix_arc_angle(builder, ws, n + 1);
        assert(dashes.take(n + 1) =~= dashes);
        assert(ws.take(n + 1) =~= ws);
        lemma_sample_within_path(n, gizmos.elapsed, builder.speed);
        let total = total_arc_angle(dashes);
        let covered = total_length(ws);
        let arc = builder.arc_angle@;
        assert(total <= arc) by (nonlinear_arith)
            requires
                total * 1_000_000 <= covered * arc,
                covered <= 1_000_000,
                arc >= 0,
        ;
    }
}

/// No dash is longer than half a segment.
pub proof fn lemma_dash_length(n: int, i: int, t: Fixed, s: Fixed)
    requires
        n > 0,
    ensures
        0 <= end_ticks(n, i, t, s) - start_ticks(n, i, t, s) <= dash_ticks(),
{
}

/// The first dash is within the first segment: no dash has wrapped round.
pub open spec fn before_wrap(n: int, t: Fixed, s: Fixed) -> bool {
    phase_ticks(n, 0, t, s) < 2_000_000_000_000
}

/// Until a dash has wrapped round, each dash starts where the one before it
/// ends, or beyond.
pub proof fn lemma_dashes_in_order(n: int, k: int, t: Fixed, s: Fixed)
    requires
        n > 0,
        0 <= k < n,
        before_wrap(n, t, s),
    ensures
        sample_spec(n, t, s)[k].end@ <= sample_spec(n, t, s)[k + 1].start@,
{
    lemma_window_ends(n, k, t, s);
    lemma_window_ends(n, k + 1, t, s);
    lemma_phase_from_first(n, k, t, s);
    lemma_phase_from_first(n, k + 1, t, s);
    assert(end_ticks(n, k, t, s) <= start_ticks(n, k + 1, t, s));
    lemma_fraction_bounds(n, end_ticks(n, k, t, s), start_ticks(n, k + 1, t, s));
}

/// The direction of the arc that a command draws in the plane, in
/// millionths of a radian; zero for a command that draws none.
pub open spec fn direction_angle_of(command: DrawCommand) -> int {
    match command {
        DrawCommand::Arc2d { direction_angle, .. } => direction_angle@,
        _ => 0,
    }
}

/// On an arc of a radian or more, the dash of a window that lies beyond
/// another has the greater direction, or the same.
proof fn lemma_direction_step(builder: AnimatedArc2dBuilder, w: Window, beyond: Window)
    requires
        builder.arc_angle@ >= SCALE,
        0 <= w.start@ <= w.end@ <= beyond.start@ <= beyond.end@ <= SCALE,
    ensures
        direction_angle_of(builder.dash(w)) <= direction_angle_of(builder.dash(beyond)),
{
    let arc = builder.arc_angle@;
    let a = w.start@;
    let l = w.end@ - w.start@;
    let b = beyond.start@;
    assert(AnimatedArc2dBuilder::length(w)@ == l);
    assert(AnimatedArc2dBuilder::length(beyond)@ == beyond.end@ - beyond.start@);
    let turned = (a * arc) / 1_000_000;
    let turned_beyond = (b * arc) / 1_000_000;
    assert(0 <= turned <= arc && turned + l <= turned_beyond <= arc && (a == 0 ==> turned == 0)
        && (b == 0 ==> turned_beyond == 0)) by (nonlinear_arith)
        requires
            arc >= 1_000_000,
            0 <= a,
            0 <= l,
            a + l <= b <= 1_000_000,
            turned == (a * arc) / 1_000_000,
            turned_beyond == (b * arc) / 1_000_000,
    ;
    assert(w.start.mul_spec(builder.arc_angle)@ == turned);
    assert(beyond.start.mul_spec(builder.arc_angle)@ == turned_beyond);
}

/// On an arc of a radian or more, until a dash has wrapped round, the
/// directions of the dashes rise with their index.
pub proof fn lemma_arc_2d_directions_rise(
    builder: AnimatedArc2dBuilder,
    gizmos: AnimatedGizmos,
    i: int,
    j: int,
)
    requires
        gizmos.draws_spec(builder.segments),
        builder.arc_angle@ >= SCALE,
        0 <= i <= j <= builder.segments,
        before_wrap(builder.segments as int, gizmos.elapsed, builder.speed),
    ensures
        direction_angle_of(builder.emitted(gizmos)[i]) <= direction_angle_of(
            builder.emitted(gizmos)[j],
        ),
    decreases j - i,
{
    if i < j {
        let n = builder.segments as int;
        let ws = sample_spec(n, gizmos.elapsed, builder.speed);
        lemma_arc_2d_directions_rise(builder, gizmos, i, j - 1);
        lemma_dashes_in_order(n, j - 1, gizmos.elapsed, builder.speed);
        lemma_window_ends(n, j - 1, gizmos.elapsed, builder.speed);
        lemma_window_ends(n, j, gizmos.elapsed, builder.speed);
        lemma_direction_step(builder, ws[j - 1], ws[j]);
    }
}

} // verus!
