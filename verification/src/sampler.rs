//! The percentage sampler: where along a path the dashes of an animated
//! primitive lie at a given time.
//!
//! A path of `n` segments carries `n + 1` dashes, each half a segment long,
//! one segment apart. They travel from the start of the path (position zero)
//! to its end (position one) and wrap round after `1 + 1/n`, so that a dash
//! has left the path entirely before it enters again. At a negative speed
//! they travel the other way, from the end to the start, round the same
//! track.
//!
//! All positions are computed exactly. To stay in the integers, they are
//! measured in ticks, `2 * n * SCALE * SCALE` of which make up the whole
//! path; only the two ends of a finished window are rounded down to
//! millionths of the path.

use crate::fixed::{Fixed, SCALE};
use vstd::arithmetic::div_mod::{
    lemma_basic_div, lemma_div_denominator, lemma_div_is_ordered, lemma_div_multiples_vanish,
    lemma_fundamental_div_mod, lemma_fundamental_div_mod_converse, lemma_mod_multiples_vanish,
};
use vstd::prelude::*;

verus! {

/// The square of `SCALE`: the number of ticks in half a segment.
pub const SCALE_SQ: u64 = 1_000_000_000_000;

/// One dash: the part of the path between `start` and `end`, both fractions
/// of the path's length between zero and one.
#[derive(Clone, Copy, Debug, PartialEq, Eq, Structural)]
pub struct Window {
    pub start: Fixed,
    pub end: Fixed,
}

/// The length of a dash in ticks: half a segment.
pub open spec fn dash_ticks() -> int {
    1_000_000_000_000
}

/// The length of the whole path in ticks: `n` segments of
/// 2 000 000 000 000 ticks each.
pub open spec fn path_ticks(n: int) -> int {
    n * 2_000_000_000_000
}

/// The length after which the dashes repeat, in ticks: the path and one
/// segment more.
pub open spec fn period_ticks(n: int) -> int {
    (n + 1) * 2_000_000_000_000
}

/// How far a dash has travelled after the time `t` at the speed `s`, in
/// millionths of a millionth of the path: the product of the two. The
/// product with zero is spelled out, which spares the solver a
/// multiplication.
pub open spec fn travel(t: Fixed, s: Fixed) -> int {
    if t@ == 0 || s@ == 0 {
        0
    } else {
        t@ * s@
    }
}

/// Where dash `i` would be after the time `t` at the speed `s` if the path
/// had no end, in ticks: `i / n + t * s` of the path.
pub open spec fn offset_ticks(n: int, i: int, t: Fixed, s: Fixed) -> int {
    i * 2_000_000_000_000 + 2 * (n * travel(t, s))
}

/// A position taken round a track of `m` segments: the part of a segment
/// stays, the whole segments count modulo `m`. This is the remainder of the
/// position modulo the length of the track, which is never negative.
pub open spec fn wrap_segments(x: int, m: int) -> int {
    ((x / 2_000_000_000_000) % m) * 2_000_000_000_000 + x % 2_000_000_000_000
}

/// The front end of dash `i` in ticks, before it is cut off at the ends of
/// the path: the remainder of the offset modulo the period, between zero
/// and the period for every offset.
pub open spec fn phase_ticks(n: int, i: int, t: Fixed, s: Fixed) -> int {
    wrap_segments(offset_ticks(n, i, t, s), n + 1)
}

/// `x` cut off at `lo` and `hi`.
pub open spec fn clamp(x: int, lo: int, hi: int) -> int {
    if x < lo {
        lo
    } else if x > hi {
        hi
    } else {
        x
    }
}

/// The back end of dash `i` in ticks.
pub open spec fn start_ticks(n: int, i: int, t: Fixed, s: Fixed) -> int {
    clamp(phase_ticks(n, i, t, s) - dash_ticks(), 0, path_ticks(n))
}

/// The front end of dash `i` in ticks.
pub open spec fn end_ticks(n: int, i: int, t: Fixed, s: Fixed) -> int {
    clamp(phase_ticks(n, i, t, s), 0, path_ticks(n))
}

/// A position in ticks as a fraction of the path, rounded down to a
/// millionth: 2 000 000 ticks are a millionth of a segment, and `n`
/// segments are the path.
pub open spec fn ticks_to_fraction(n: int, ticks: int) -> Fixed {
    Fixed { raw: ((ticks / 2_000_000) / n) as i64 }
}

/// Dash `i` of the `n + 1` dashes on a path of `n` segments, after the time
/// `t` at the speed `s`.
pub open spec fn window_at(n: int, i: int, t: Fixed, s: Fixed) -> Window {
    Window {
        start: ticks_to_fraction(n, start_ticks(n, i, t, s)),
        end: ticks_to_fraction(n, end_ticks(n, i, t, s)),
    }
}

/// All the dashes on a path of `n` segments, in the order of their index.
pub open spec fn sample_spec(n: int, t: Fixed, s: Fixed) -> Seq<Window> {
    Seq::new((n + 1) as nat, |i: int| window_at(n, i, t, s))
}

/// A position taken round a track of `m` segments is its remainder modulo
/// the length of the track.
pub proof fn lemma_wrap_is_remainder(x: int, m: int)
    requires
        m > 0,
    ensures
        wrap_segments(x, m) == x % (m * 2_000_000_000_000),
        0 <= wrap_segments(x, m) < m * 2_000_000_000_000,
{
    let segment = 2_000_000_000_000int;
    let whole = x / segment;
    let part = x % segment;
    let laps = whole / m;
    let place = whole % m;
    lemma_fundamental_div_mod(x, segment);
    lemma_fundamental_div_mod(whole, m);
    assert(x == laps * (m * segment) + (place * segment + part)) by (nonlinear_arith)
        requires
            x == segment * whole + part,
            whole == m * laps + place,
    ;
    assert(0 <= place * segment + part < m * segment) by (nonlinear_arith)
        requires
            0 <= place < m,
            0 <= part < segment,
    ;
    lemma_fundamental_div_mod_converse(x, m * segment, laps, place * segment + part);
}

/// The phase of a dash is the remainder of its offset modulo the period. It
/// lies between zero and the period, whatever the sign of the offset.
pub proof fn lemma_phase_is_remainder(n: int, i: int, t: Fixed, s: Fixed)
    requires
        n >= 0,
    ensures
        phase_ticks(n, i, t, s) == offset_ticks(n, i, t, s) % period_ticks(n),
        0 <= phase_ticks(n, i, t, s) < period_ticks(n),
{
    lemma_wrap_is_remainder(offset_ticks(n, i, t, s), n + 1);
}

/// The fraction of the path at which a position lies is the position
/// divided by the ticks in a millionth of the path.
pub proof fn lemma_fraction_is_quotient(n: int, ticks: int)
    requires
        n > 0,
        ticks >= 0,
    ensures
        (ticks / 2_000_000) / n == ticks / (2 * n * SCALE),
{
    lemma_div_denominator(ticks, 2_000_000, n);
    assert(2_000_000 * n == 2 * n * SCALE) by (nonlinear_arith)
        requires
            SCALE == 1_000_000,
    ;
}

/// A position on the path, rounded down to a millionth of the path, lies
/// between zero and one, and rounding keeps the order of two positions.
pub proof fn lemma_fraction_bounds(n: int, a: int, b: int)
    requires
        n > 0,
        0 <= a <= b <= path_ticks(n),
    ensures
        0 <= (a / 2_000_000) / n <= (b / 2_000_000) / n <= SCALE,
        ticks_to_fraction(n, a)@ == (a / 2_000_000) / n,
        ticks_to_fraction(n, b)@ == (b / 2_000_000) / n,
        ticks_to_fraction(n, 0)@ == 0,
        ticks_to_fraction(n, path_ticks(n))@ == SCALE,
{
    let fine = 2_000_000int;
    lemma_div_is_ordered(0, a, fine);
    lemma_div_is_ordered(a, b, fine);
    lemma_div_is_ordered(b, path_ticks(n), fine);
    assert(path_ticks(n) == fine * (n * 1_000_000));
    lemma_div_multiples_vanish(n * 1_000_000, fine);
    lemma_div_is_ordered(0, a / fine, n);
    lemma_div_is_ordered(a / fine, b / fine, n);
    lemma_div_is_ordered(b / fine, n * 1_000_000, n);
    lemma_div_multiples_vanish(1_000_000, n);
    assert(n * 1_000_000 == n * 1_000_000int);
    lemma_basic_div(0, n);
}

/// The residue of `n * a` modulo `n + 1`, computed from `a` alone.
fn times_n_mod_succ(n: u128, a: u128) -> (r: (u128, Ghost<int>))
    requires
        n < 0x1_0000_0000_0000_0000,
    ensures
        0 <= r.0 <= n,
        n * a == (n + 1) * r.1@ + r.0,
{
    let m: u128 = n + 1;
    let r: u128 = a % m;
    let ghost a1: int = (a / m) as int;
    proof {
        lemma_fundamental_div_mod(a as int, m as int);
    }
    if r == 0 {
        let ghost e = n * a1;
        proof {
            assert(n * a == (n + 1) * e + 0) by (nonlinear_arith)
                requires
                    a == (n + 1) * a1 + 0,
                    e == n * a1,
            ;
        }
        (0, Ghost(e))
    } else {
        let ghost e = n * a1 + r - 1;
        proof {
            assert(n * a == (n + 1) * e + (n + 1 - r)) by (nonlinear_arith)
                requires
                    a == (n + 1) * a1 + r,
                    e == n * a1 + r - 1,
            ;
        }
        (m - r, Ghost(e))
    }
}

/// The front end of dash `i` in ticks, before it is cut off at the ends of
/// the path.
fn phase(n: usize, i: usize, t: Fixed, s: Fixed) -> (phase: u128)
    requires
        0 < n,
        i <= n,
    ensures
        phase == phase_ticks(n as int, i as int, t, s),
        phase < period_ticks(n as int),
{
    let nn: u128 = n as u128;
    let ii: u128 = i as u128;
    let sq: u128 = SCALE_SQ as u128;
    let a: i128 = t.raw as i128;
    let b: i128 = s.raw as i128;
    assert(-0x4000_0000_0000_0000_0000_0000_0000_0000 <= a * b
        <= 0x4000_0000_0000_0000_0000_0000_0000_0000) by (nonlinear_arith)
        requires
            -0x8000_0000_0000_0000 <= a <= 0x8000_0000_0000_0000,
            -0x8000_0000_0000_0000 <= b <= 0x8000_0000_0000_0000,
    ;
    let k: i128 = a * b;
    let ghost offset = offset_ticks(n as int, i as int, t, s);
    let ghost period = period_ticks(n as int);
    proof {
        lemma_phase_is_remainder(n as int, i as int, t, s);
    }
    assert(offset == 2 * (ii * sq) + 2 * (nn * k)) by (nonlinear_arith)
        requires
            offset == ii * 2_000_000_000_000 + 2 * (nn * k),
            sq == 1_000_000_000_000,
    ;
    assert(ii * sq <= nn * sq <= 0x1_0000_0000_0000_0000 * 1_000_000_000_000)
        by (nonlinear_arith)
        requires
            ii <= nn < 0x1_0000_0000_0000_0000,
            sq == 1_000_000_000_000,
    ;
    let period_exec: u128 = 2 * ((nn + 1) * sq);
    assert(period_exec == period && period == 2 * (nn * sq) + 2 * sq) by (nonlinear_arith)
        requires
            period_exec == 2 * ((nn + 1) * sq),
            period == (nn + 1) * 2_000_000_000_000,
            sq == 1_000_000_000_000,
    ;
    // How far the dashes have travelled, either way, taken round the track.
    let ku: u128 = if k >= 0 {
        k as u128
    } else {
        (-k) as u128
    };
    let whole: u128 = ku / sq;
    let part: u128 = ku % sq;
    let (c, Ghost(e)) = times_n_mod_succ(nn, whole);
    assert(c * sq <= 0x1_0000_0000_0000_0000 * 1_000_000_000_000) by (nonlinear_arith)
        requires
            c < 0x1_0000_0000_0000_0000,
            sq == 1_000_000_000_000,
    ;
    assert(nn * part <= 0x1_0000_0000_0000_0000 * 1_000_000_000_000) by (nonlinear_arith)
        requires
            nn < 0x1_0000_0000_0000_0000,
            part < 1_000_000_000_000,
    ;
    let reduced: u128 = 2 * (c * sq) + 2 * (nn * part);
    let travelled: u128 = reduced % period_exec;
    let base: u128 = 2 * (ii * sq);
    let ghost laps = e + (reduced / period_exec) as int;
    proof {
        lemma_fundamental_div_mod(ku as int, sq as int);
        lemma_fundamental_div_mod(reduced as int, period);
        assert(2 * (nn * ku) == period * laps + travelled) by (nonlinear_arith)
            requires
                ku == sq * whole + part,
                nn * whole == (nn + 1) * e + c,
                period == (nn + 1) * 2_000_000_000_000,
                sq == 1_000_000_000_000,
                reduced == 2 * (c * sq) + 2 * (nn * part),
                reduced == period * (reduced / period_exec) + travelled,
                laps == e + (reduced / period_exec),
        ;
    }
    if k >= 0 {
        proof {
            assert(offset == period * laps + (base + travelled)) by (nonlinear_arith)
                requires
                    offset == 2 * (ii * sq) + 2 * (nn * k),
                    base == 2 * (ii * sq),
                    k == ku,
                    2 * (nn * ku) == period * laps + travelled,
            ;
            lemma_mod_multiples_vanish(laps, (base + travelled) as int, period);
        }
        (base + travelled) % period_exec
    } else {
        // Backward, the dash is as far before the end of the track.
        let back: u128 = period_exec - travelled;
        proof {
            assert(offset == period * (-laps - 1) + (base + back)) by (nonlinear_arith)
                requires
                    offset == 2 * (ii * sq) + 2 * (nn * k),
                    base == 2 * (ii * sq),
                    k == -ku,
                    2 * (nn * ku) == period * laps + travelled,
                    back == period - travelled,
            ;
            lemma_mod_multiples_vanish(-laps - 1, (base + back) as int, period);
        }
        (base + back) % period_exec
    }
}

/// Dash `i` of the `n + 1` dashes on a path of `n` segments, after the
/// time `t` at the speed `s`.
pub fn sample_window(n: usize, i: usize, t: Fixed, s: Fixed) -> (w: Window)
    requires
        0 < n,
        i <= n,
    ensures
        w == window_at(n as int, i as int, t, s),
        0 <= w.start@ <= w.end@ <= SCALE,
{
    let phase: u128 = phase(n, i, t, s);
    let nn: u128 = n as u128;
    let sq: u128 = SCALE_SQ as u128;
    assert(nn * sq <= 0x1_0000_0000_0000_0000 * 1_000_000_000_000) by (nonlinear_arith)
        requires
            nn < 0x1_0000_0000_0000_0000,
            sq == 1_000_000_000_000,
    ;
    let path: u128 = 2 * (nn * sq);
    assert(path == path_ticks(n as int)) by (nonlinear_arith)
        requires
            path == 2 * (nn * sq),
            sq == 1_000_000_000_000,
            path_ticks(n as int) == nn * 2_000_000_000_000,
    ;
    let front: u128 = if phase > path {
        path
    } else {
        phase
    };
    let back: u128 = if phase <= sq {
        0
    } else if phase - sq > path {
        path
    } else {
        phase - sq
    };
    proof {
        assert(front == end_ticks(n as int, i as int, t, s));
        assert(back == start_ticks(n as int, i as int, t, s));
        lemma_fraction_bounds(n as int, back as int, front as int);
    }
    Window {
        start: Fixed { raw: ((back / 2_000_000) / nn) as i64 },
        end: Fixed { raw: ((front / 2_000_000) / nn) as i64 },
    }
}

/// The `num_segments + 1` dashes of a path after the time `delta_t` at the
/// given speed, in the order of their index. Each lies on the path, and its
/// start is not behind its end.
pub fn sample_percentages(num_segments: usize, delta_t: Fixed, speed: Fixed) -> (windows: Vec<
    Window,
>)
    requires
        0 < num_segments,
    ensures
        windows@ == sample_spec(num_segments as int, delta_t, speed),
        windows@.len() == num_segments + 1,
        forall|i: int|
            0 <= i <= num_segments ==> 0 <= (#[trigger] windows@[i]).start@ <= windows@[i].end@
                <= SCALE,
{
    let mut windows: Vec<Window> = Vec::new();
    let mut i: usize = 0;
    loop
        invariant_except_break
            windows@.len() == i,
        invariant
            0 < num_segments,
            i <= num_segments,
            forall|j: int|
                0 <= j < windows@.len() ==> #[trigger] windows@[j] == window_at(
                    num_segments as int,
                    j,
                    delta_t,
                    speed,
                ),
            forall|j: int|
                0 <= j < windows@.len() ==> 0 <= (#[trigger] windows@[j]).start@
                    <= windows@[j].end@ <= SCALE,
        ensures
            windows@.len() == num_segments + 1,
        decreases num_segments - i,
    {
        windows.push(sample_window(num_segments, i, delta_t, speed));
        if i == num_segments {
            break ;
        }
        i = i + 1;
    }
    assert(windows@ =~= sample_spec(num_segments as int, delta_t, speed));
    windows
}

/// Every dash of a sample lies on the path, its start not behind its end.
pub proof fn lemma_windows_on_path(n: int, t: Fixed, s: Fixed)
    requires
        n > 0,
    ensures
        sample_spec(n, t, s).len() == n + 1,
        forall|i: int|
            0 <= i <= n ==> 0 <= (#[trigger] sample_spec(n, t, s)[i]).start@ <= sample_spec(
                n,
                t,
                s,
            )[i].end@ <= SCALE,
{
    assert forall|i: int| 0 <= i <= n implies 0 <= (#[trigger] sample_spec(n, t, s)[i]).start@
        <= sample_spec(n, t, s)[i].end@ <= SCALE by {
        lemma_fraction_bounds(n, start_ticks(n, i, t, s), end_ticks(n, i, t, s));
    }
}

/// At the speed zero the dashes stand still: the sample is the same at
/// every time.
pub proof fn lemma_static_at_speed_zero(n: int, t1: Fixed, t2: Fixed, s: Fixed)
    requires
        s@ == 0,
    ensures
        sample_spec(n, t1, s) == sample_spec(n, t2, s),
{
    assert forall|i: int| window_at(n, i, t1, s) == window_at(n, i, t2, s) by {
        assert(t1@ * s@ == 0) by (nonlinear_arith)
            requires
                s@ == 0,
        ;
        assert(t2@ * s@ == 0) by (nonlinear_arith)
            requires
                s@ == 0,
        ;
    }
    assert(sample_spec(n, t1, s) =~= sample_spec(n, t2, s));
}

/// `t2` is later than `t1` by the time in which a dash covers one period at
/// the speed `s`: `t2 == t1 + (1 + 1/n) / s`.
pub open spec fn one_period_apart(n: int, t1: Fixed, t2: Fixed, s: Fixed) -> bool {
    n * ((t2@ - t1@) * s@) == (n + 1) * 1_000_000_000_000
}

/// One period later every dash is in the same place.
proof fn lemma_window_periodic(n: int, i: int, t1: Fixed, t2: Fixed, s: Fixed)
    requires
        n > 0,
        one_period_apart(n, t1, t2, s),
    ensures
        window_at(n, i, t1, s) == window_at(n, i, t2, s),
{
    let a = t1@;
    let b = t2@;
    let r = s@;
    assert(2 * (n * (b * r)) == 2 * (n * (a * r)) + (n + 1) * 2_000_000_000_000)
        by (nonlinear_arith)
        requires
            n * ((b - a) * r) == (n + 1) * 1_000_000_000_000,
    ;
    let earlier = offset_ticks(n, i, t1, s);
    let later = offset_ticks(n, i, t2, s);
    assert(later == period_ticks(n) * 1 + earlier);
    lemma_phase_is_remainder(n, i, t1, s);
    lemma_phase_is_remainder(n, i, t2, s);
    lemma_mod_multiples_vanish(1, earlier, period_ticks(n));
}

/// The dashes repeat: one period later the sample is the same, at every
/// speed but zero and whichever way the dashes travel.
pub proof fn lemma_sample_periodic(n: int, t1: Fixed, t2: Fixed, s: Fixed)
    requires
        n > 0,
        s@ != 0,
        one_period_apart(n, t1, t2, s),
    ensures
        sample_spec(n, t1, s) == sample_spec(n, t2, s),
{
    assert forall|i: int| 0 <= i <= n implies window_at(n, i, t1, s) == window_at(
        n,
        i,
        t2,
        s,
    ) by {
        lemma_window_periodic(n, i, t1, t2, s);
    }
    assert(sample_spec(n, t1, s) =~= sample_spec(n, t2, s));
}

} // verus!
