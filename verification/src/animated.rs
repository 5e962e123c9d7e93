//! Animated gizmos: lines and arcs drawn as dashes that travel along the
//! primitive, which shows its direction.
//!
//! - lines: from `start` to `end`
//! - arcs: from `from` to `to`
//!
//! A builder is made once per frame for each primitive, configured through
//! its setters and then finished, which draws the dashes for the frame's
//! time on the surface.

use crate::arcs::ArcKind;
use crate::clock::elapsed_seconds;
use crate::fixed::Fixed;
use crate::geometry::{Point2, Point3};
use crate::gizmos::{DrawCommand, Gizmos};
use crate::sampler::{sample_percentages, sample_spec, Window};
use bevy_color::Color;
use bevy_time::Time;
use vstd::prelude::*;

verus! {

/// The draw surface of a frame together with the frame's time. Besides the
/// animated gizmos it draws the plain ones, through `gizmos`.
#[derive(Debug, PartialEq)]
pub struct AnimatedGizmos {
    /// The surface that everything is drawn on.
    pub gizmos: Gizmos,
    /// The time that has passed since the application started, in seconds.
    pub elapsed: Fixed,
}

/// A builder returned by [`AnimatedGizmos::animated_line`].
#[derive(Clone, Copy, Debug, PartialEq)]
#[must_use]
pub struct AnimatedLineBuilder {
    /// Where the line starts.
    pub start: Point3,
    /// Where the line ends.
    pub end: Point3,
    /// The colour of the line.
    pub color: Color,
    /// The number of segments of the line.
    pub segments: usize,
    /// The speed of the dashes, in lengths of the line per second.
    pub speed: Fixed,
}

/// A builder returned by [`AnimatedGizmos::animated_line_2d`].
#[derive(Clone, Copy, Debug, PartialEq)]
#[must_use]
pub struct AnimatedLine2dBuilder {
    /// Where the line starts.
    pub start: Point2,
    /// Where the line ends.
    pub end: Point2,
    /// The colour of the line.
    pub color: Color,
    /// The number of segments of the line.
    pub segments: usize,
    /// The speed of the dashes, in lengths of the line per second.
    pub speed: Fixed,
}

/// A builder returned by [`AnimatedGizmos::animated_arc_long`] and
/// [`AnimatedGizmos::animated_arc_short`].
#[derive(Clone, Copy, Debug, PartialEq)]
#[must_use]
pub struct AnimatedArcBuilder {
    /// The point that the arc starts at.
    pub from: Point3,
    /// The point on the ray that the arc ends on.
    pub to: Point3,
    /// The centre of the arc.
    pub center: Point3,
    /// The colour of the arc.
    pub color: Color,
    /// Which way round the circle the arc goes.
    pub kind: ArcKind,
    /// The number of segments of the arc.
    pub segments: usize,
    /// The speed of the dashes, in lengths of the arc per second.
    pub speed: Fixed,
    /// The number of lines that each dash is drawn with, where set.
    pub resolution: Option<u32>,
}

/// A builder returned by [`AnimatedGizmos::animated_arc_2d`].
#[derive(Clone, Copy, Debug, PartialEq)]
#[must_use]
pub struct AnimatedArc2dBuilder {
    /// The centre of the arc.
    pub position: Point2,
    /// The angle from the vertical to the middle of the arc, in radians.
    pub direction_angle: Fixed,
    /// The length of the arc, in radians.
    pub arc_angle: Fixed,
    /// The distance of the arc from its centre.
    pub radius: Fixed,
    /// The colour of the arc.
    pub color: Color,
    /// The number of segments of the arc.
    pub segments: usize,
    /// The speed of the dashes, in lengths of the arc per second.
    pub speed: Fixed,
    /// The number of lines that each dash is drawn with, where set.
    pub resolution: Option<u32>,
}

impl AnimatedGizmos {
    /// The surface `gizmos` at the time `elapsed`.
    pub fn new(gizmos: Gizmos, elapsed: Fixed) -> (r: AnimatedGizmos)
        ensures
            r.gizmos == gizmos,
            r.elapsed == elapsed,
    {
        AnimatedGizmos { gizmos, elapsed }
    }

    /// The surface `gizmos` at the time that the clock shows.
    pub fn at_time<TimeKind: Default>(gizmos: Gizmos, time: &Time<TimeKind>) -> (r: AnimatedGizmos)
        ensures
            r.gizmos == gizmos,
            r.elapsed@ >= 0,
    {
        AnimatedGizmos { gizmos, elapsed: elapsed_seconds(time) }
    }

    /// Whether a builder with this many segments draws anything: the
    /// surface is enabled and there is at least one segment.
    pub open spec fn draws_spec(self, segments: usize) -> bool {
        self.gizmos.enabled && segments > 0
    }

    /// Whether a builder with this many segments draws anything.
    pub fn draws(&self, segments: usize) -> (r: bool)
        ensures
            r == self.draws_spec(segments),
    {
        self.gizmos.enabled && segments > 0
    }

    /// Draw an animated line in 3D from `start` to `end`.
    ///
    /// The line is split into segments that move from `start` to `end` over
    /// time. This should be called for each frame the line needs to be
    /// rendered.
    pub fn animated_line(&self, start: Point3, end: Point3, color: Color) -> (r:
        AnimatedLineBuilder)
        ensures
            r == (AnimatedLineBuilder {
                start,
                end,
                color,
                segments: 5,
                speed: Fixed { raw: 100_000 },
            }),
    {
        AnimatedLineBuilder { start, end, color, segments: 5, speed: Fixed { raw: 100_000 } }
    }

    /// Draw an animated line in 2D from `start` to `end`.
    ///
    /// The line is split into segments that move from `start` to `end` over
    /// time. This should be called for each frame the line needs to be
    /// rendered.
    pub fn animated_line_2d(&self, start: Point2, end: Point2, color: Color) -> (r:
        AnimatedLine2dBuilder)
        ensures
            r == (AnimatedLine2dBuilder {
                start,
                end,
                color,
                segments: 5,
                speed: Fixed { raw: 100_000 },
            }),
    {
        AnimatedLine2dBuilder { start, end, color, segments: 5, speed: Fixed { raw: 100_000 } }
    }

    /// Draw an animated arc in 3D from `from` to `to` with the given
    /// `center`. The arc runs over the longer of the two paths from `from`
    /// to `to`.
    ///
    /// The arc is split into segments that move from `from` to `to` over
    /// time. This should be called for each frame the arc needs to be
    /// rendered.
    pub fn animated_arc_long(&self, from: Point3, to: Point3, center: Point3, color: Color) -> (r:
        AnimatedArcBuilder)
        ensures
            r == (AnimatedArcBuilder {
                from,
                to,
                center,
                color,
                kind: ArcKind::Long,
                segments: 5,
                speed: Fixed { raw: 100_000 },
                resolution: None,
            }),
    {
        AnimatedArcBuilder {
            from,
            to,
            center,
            color,
            kind: ArcKind::Long,
            segments: 5,
            speed: Fixed { raw: 100_000 },
            resolution: None,
        }
    }

    /// Draw an animated arc in 3D from `from` to `to` with the given
    /// `center`. The arc runs over the shorter of the two paths from `from`
    /// to `to`.
    ///
    /// The arc is split into segments that move from `from` to `to` over
    /// time. This should be called for each frame the arc needs to be
    /// rendered.
    pub fn animated_arc_short(&self, from: Point3, to: Point3, center: Point3, color: Color) -> (r:
        AnimatedArcBuilder)
        ensures
            r == (AnimatedArcBuilder {
                from,
                to,
                center,
                color,
                kind: ArcKind::Short,
                segments: 5,
                speed: Fixed { raw: 100_000 },
                resolution: None,
            }),
    {
        AnimatedArcBuilder {
            from,
            to,
            center,
            color,
            kind: ArcKind::Short,
            segments: 5,
            speed: Fixed { raw: 100_000 },
            resolution: None,
        }
    }

    /// Draw an arc, which is a part of the circumference of a circle, in 2D.
    ///
    /// The arc is split into segments that move along it over time. This
    /// should be called for each frame the arc needs to be rendered.
    ///
    /// - `position` sets the center of this circle.
    /// - `direction_angle` sets the counter-clockwise angle in radians
    ///   between the vertical and the vector from `position` to the
    ///   midpoint of the arc.
    /// - `arc_angle` sets the length of this arc, in radians.
    /// - `radius` controls the distance from `position` to this arc, and
    ///   thus its curvature.
    /// - `color` sets the color to draw the arc.
    pub fn animated_arc_2d(
        &self,
        position: Point2,
        direction_angle: Fixed,
        arc_angle: Fixed,
        radius: Fixed,
        color: Color,
    ) -> (r: AnimatedArc2dBuilder)
        ensures
            r == (AnimatedArc2dBuilder {
                position,
                direction_angle,
                arc_angle,
                radius,
                color,
                segments: 5,
                speed: Fixed { raw: 100_000 },
                resolution: None,
            }),
    {
        AnimatedArc2dBuilder {
            position,
            direction_angle,
            arc_angle,
            radius,
            color,
            segments: 5,
            speed: Fixed { raw: 100_000 },
            resolution: None,
        }
    }
}

impl AnimatedLineBuilder {
    /// Sets the number of animated segments that make up the line.
    pub fn segments(self, segments: usize) -> (r: AnimatedLineBuilder)
        ensures
            r == (AnimatedLineBuilder { segments, ..self }),
    {
        AnimatedLineBuilder { segments, ..self }
    }

    /// Sets the animation speed factor for the line: how fast the dashes
    /// move from the starting point to the endpoint.
    pub fn speed(self, factor: Fixed) -> (r: AnimatedLineBuilder)
        ensures
            r == (AnimatedLineBuilder { speed: factor, ..self }),
    {
        AnimatedLineBuilder { speed: factor, ..self }
    }

    /// The line drawn for one dash: from the point at the window's start to
    /// the point at its end.
    pub open spec fn dash(self, w: Window) -> DrawCommand {
        DrawCommand::Line {
            start: self.start.lerp_spec(self.end, w.start),
            end: self.start.lerp_spec(self.end, w.end),
            color: self.color,
        }
    }

    /// What finishing the builder draws on `gizmos`: nothing where the
    /// surface is disabled or there are no segments, else one line for each
    /// dash of the sample at the surface's time.
    pub open spec fn emitted(self, gizmos: AnimatedGizmos) -> Seq<DrawCommand> {
        if gizmos.draws_spec(self.segments) {
            sample_spec(self.segments as int, gizmos.elapsed, self.speed).map_values(
                |w: Window| self.dash(w),
            )
        } else {
            Seq::empty()
        }
    }

    /// Draws the dashes of the line for the time of `gizmos`.
    pub fn finish(self, gizmos: &mut AnimatedGizmos)
        ensures
            final(gizmos).elapsed == old(gizmos).elapsed,
            final(gizmos).gizmos.enabled == old(gizmos).gizmos.enabled,
            final(gizmos).gizmos.commands@ == old(gizmos).gizmos.commands@ + self.emitted(
                *old(gizmos),
            ),
    {
        if !gizmos.draws(self.segments) {
            assert(gizmos.gizmos.commands@ + Seq::<DrawCommand>::empty()
                =~= gizmos.gizmos.commands@);
            return ;
        }
        let windows = sample_percentages(self.segments, gizmos.elapsed, self.speed);
        let ghost before = gizmos.gizmos.commands@;
        let ghost dashes = windows@.map_values(|w: Window| self.dash(w));
        let mut i: usize = 0;
        while i < windows.len()
            invariant
                i <= windows.len(),
                gizmos.gizmos.enabled,
                gizmos.elapsed == old(gizmos).elapsed,
                dashes == windows@.map_values(|w: Window| self.dash(w)),
                gizmos.gizmos.commands@ == before + dashes.take(i as int),
            decreases windows.len() - i,
        {
            let w = windows[i];
            gizmos.gizmos.line(
                self.start.lerp(self.end, w.start),
                self.start.lerp(self.end, w.end),
                self.color,
            );
            assert(dashes.take(i + 1) =~= dashes.take(i as int).push(dashes[i as int]));
            i = i + 1;
        }
        assert(dashes.take(i as int) =~= dashes);
    }
}

impl AnimatedLine2dBuilder {
    /// Sets the number of animated segments that make up the line.
    pub fn segments(self, segments: usize) -> (r: AnimatedLine2dBuilder)
        ensures
            r == (AnimatedLine2dBuilder { segments, ..self }),
    {
        AnimatedLine2dBuilder { segments, ..self }
    }

    /// Sets the animation speed factor for the line: how fast the dashes
    /// move from the starting point to the endpoint.
    pub fn speed(self, factor: Fixed) -> (r: AnimatedLine2dBuilder)
        ensures
            r == (AnimatedLine2dBuilder { speed: factor, ..self }),
    {
        AnimatedLine2dBuilder { speed: factor, ..self }
    }

    /// The line drawn for one dash: from the point at the window's start to
    /// the point at its end.
    pub open spec fn dash(self, w: Window) -> DrawCommand {
        DrawCommand::Line2d {
            start: self.start.lerp_spec(self.end, w.start),
            end: self.start.lerp_spec(self.end, w.end),
            color: self.color,
        }
    }

    /// What finishing the builder draws on `gizmos`: nothing where the
    /// surface is disabled or there are no segments, else one line for each
    /// dash of the sample at the surface's time.
    pub open spec fn emitted(self, gizmos: AnimatedGizmos) -> Seq<DrawCommand> {
        if gizmos.draws_spec(self.segments) {
            sample_spec(self.segments as int, gizmos.elapsed, self.speed).map_values(
                |w: Window| self.dash(w),
            )
        } else {
            Seq::empty()
        }
    }

    /// Draws the dashes of the line for the time of `gizmos`.
    pub fn finish(self, gizmos: &mut AnimatedGizmos)
        ensures
            final(gizmos).elapsed == old(gizmos).elapsed,
            final(gizmos).gizmos.enabled == old(gizmos).gizmos.enabled,
            final(gizmos).gizmos.commands@ == old(gizmos).gizmos.commands@ + self.emitted(
                *old(gizmos),
            ),
    {
        if !gizmos.draws(self.segments) {
            assert(gizmos.gizmos.commands@ + Seq::<DrawCommand>::empty()
                =~= gizmos.gizmos.commands@);
            return ;
        }
        let windows = sample_percentages(self.segments, gizmos.elapsed, self.speed);
        let ghost before = gizmos.gizmos.commands@;
        let ghost dashes = windows@.map_values(|w: Window| self.dash(w));
        let mut i: usize = 0;
        while i < windows.len()
            invariant
                i <= windows.len(),
                gizmos.gizmos.enabled,
                gizmos.elapsed == old(gizmos).elapsed,
                dashes == windows@.map_values(|w: Window| self.dash(w)),
                gizmos.gizmos.commands@ == before + dashes.take(i as int),
            decreases windows.len() - i,
        {
            let w = windows[i];
            gizmos.gizmos.line_2d(
                self.start.lerp(self.end, w.start),
                self.start.lerp(self.end, w.end),
                self.color,
            );
            assert(dashes.take(i + 1) =~= dashes.take(i as int).push(dashes[i as int]));
            i = i + 1;
        }
        assert(dashes.take(i as int) =~= dashes);
    }
}

impl AnimatedArcBuilder {
    /// Sets the number of animated segments that make up the arc.
    pub fn segments(self, segments: usize) -> (r: AnimatedArcBuilder)
        ensures
            r == (AnimatedArcBuilder { segments, ..self }),
    {
        AnimatedArcBuilder { segments, ..self }
    }

    /// Sets the animation speed factor for the arc: how fast the dashes
    /// move from the starting point to the endpoint.
    pub fn speed(self, factor: Fixed) -> (r: AnimatedArcBuilder)
        ensures
            r == (AnimatedArcBuilder { speed: factor, ..self }),
    {
        AnimatedArcBuilder { speed: factor, ..self }
    }

    /// Set the number of lines used to approximate the geometry of each
    /// dash of this arc.
    pub fn resolution(self, resolution: u32) -> (r: AnimatedArcBuilder)
        ensures
            r == (AnimatedArcBuilder { resolution: Some(resolution), ..self }),
    {
        AnimatedArcBuilder { resolution: Some(resolution), ..self }
    }

    /// The arc drawn for one dash, on an arc that sweeps `sweep` radians in
    /// all: from the window's start to its end, both as fractions of the
    /// sweep.
    pub open spec fn dash(self, sweep: Fixed, w: Window) -> DrawCommand {
        DrawCommand::Arc3d {
            center: self.center,
            from: self.from,
            to: self.to,
            start_angle: w.start.mul_spec(sweep),
            end_angle: w.end.mul_spec(sweep),
            color: self.color,
            resolution: self.resolution,
        }
    }

    /// What finishing the builder draws on `gizmos`, where `angle` is the
    /// angle between the rays from the centre to `from` and to `to`:
    /// nothing where the surface is disabled or there are no segments, else
    /// one arc for each dash of the sample at the surface's time, on the
    /// sweep that the builder's kind makes of the angle.
    pub open spec fn emitted(self, gizmos: AnimatedGizmos, angle: Fixed) -> Seq<DrawCommand> {
        if gizmos.draws_spec(self.segments) {
            sample_spec(self.segments as int, gizmos.elapsed, self.speed).map_values(
                |w: Window| self.dash(self.kind.sweep_spec(angle), w),
            )
        } else {
            Seq::empty()
        }
    }

    /// Draws the dashes of the arc for the time of `gizmos`. `angle` is the
    /// angle between the rays from the centre to `from` and to `to`, in
    /// radians.
    pub fn finish(self, gizmos: &mut AnimatedGizmos, angle: Fixed)
        ensures
            final(gizmos).elapsed == old(gizmos).elapsed,
            final(gizmos).gizmos.enabled == old(gizmos).gizmos.enabled,
            final(gizmos).gizmos.commands@ == old(gizmos).gizmos.commands@ + self.emitted(
                *old(gizmos),
                angle,
            ),
    {
        if !gizmos.draws(self.segments) {
            assert(gizmos.gizmos.commands@ + Seq::<DrawCommand>::empty()
                =~= gizmos.gizmos.commands@);
            return ;
        }
        let sweep = self.kind.sweep(angle);
        let windows = sample_percentages(self.segments, gizmos.elapsed, self.speed);
        let ghost before = gizmos.gizmos.commands@;
        let ghost dashes = windows@.map_values(|w: Window| self.dash(sweep, w));
        let mut i: usize = 0;
        while i < windows.len()
            invariant
                i <= windows.len(),
                gizmos.gizmos.enabled,
                gizmos.elapsed == old(gizmos).elapsed,
                dashes == windows@.map_values(|w: Window| self.dash(sweep, w)),
                gizmos.gizmos.commands@ == before + dashes.take(i as int),
            decreases windows.len() - i,
        {
            let w = windows[i];
            gizmos.gizmos.arc_3d(
                self.center,
                self.from,
                self.to,
                w.start.saturating_mul(sweep),
                w.end.saturating_mul(sweep),
                self.color,
                self.resolution,
            );
            assert(dashes.take(i + 1) =~= dashes.take(i as int).push(dashes[i as int]));
            i = i + 1;
        }
        assert(dashes.take(i as int) =~= dashes);
    }
}

impl AnimatedArc2dBuilder {
    /// Sets the number of animated segments that make up the arc.
    pub fn segments(self, segments: usize) -> (r: AnimatedArc2dBuilder)
        ensures
            r == (AnimatedArc2dBuilder { segments, ..self }),
    {
        AnimatedArc2dBuilder { segments, ..self }
    }

    /// Sets the animation speed factor for the arc: how fast the dashes
    /// move along the arc.
    pub fn speed(self, factor: Fixed) -> (r: AnimatedArc2dBuilder)
        ensures
            r == (AnimatedArc2dBuilder { speed: factor, ..self }),
    {
        AnimatedArc2dBuilder { speed: factor, ..self }
    }

    /// Set the number of lines used to approximate the geometry of each
    /// dash of this arc.
    pub fn resolution(self, resolution: u32) -> (r: AnimatedArc2dBuilder)
        ensures
            r == (AnimatedArc2dBuilder { resolution: Some(resolution), ..self }),
    {
        AnimatedArc2dBuilder { resolution: Some(resolution), ..self }
    }

    /// The length of a window: the distance between its two ends.
    pub open spec fn length(w: Window) -> Fixed {
        w.start.sub_spec(w.end).abs_spec()
    }

    /// The arc drawn for one dash. Its length is the window's share of the
    /// whole arc. Its direction is that of the whole arc, turned by the
    /// window's start as a share of the whole arc, and by the window's
    /// length.
    pub open spec fn dash(self, w: Window) -> DrawCommand {
        DrawCommand::Arc2d {
            position: self.position,
            direction_angle: self.direction_angle.add_spec(
                w.start.mul_spec(self.arc_angle),
            ).add_spec(Self::length(w)),
            arc_angle: Self::length(w).mul_spec(self.arc_angle),
            radius: self.radius,
            color: self.color,
            resolution: self.resolution,
        }
    }

    /// What finishing the builder draws on `gizmos`: nothing where the
    /// surface is disabled or there are no segments, else one arc for each
    /// dash of the sample at the surface's time.
    pub open spec fn emitted(self, gizmos: AnimatedGizmos) -> Seq<DrawCommand> {
        if gizmos.draws_spec(self.segments) {
            sample_spec(self.segments as int, gizmos.elapsed, self.speed).map_values(
                |w: Window| self.dash(w),
            )
        } else {
            Seq::empty()
        }
    }

    /// Draws the dashes of the arc for the time of `gizmos`.
    pub fn finish(self, gizmos: &mut AnimatedGizmos)
        ensures
            final(gizmos).elapsed == old(gizmos).elapsed,
            final(gizmos).gizmos.enabled == old(gizmos).gizmos.enabled,
            final(gizmos).gizmos.commands@ == old(gizmos).gizmos.commands@ + self.emitted(
                *old(gizmos),
            ),
    {
        if !gizmos.draws(self.segments) {
            assert(gizmos.gizmos.commands@ + Seq::<DrawCommand>::empty()
                =~= gizmos.gizmos.commands@);
            return ;
        }
        let windows = sample_percentages(self.segments, gizmos.elapsed, self.speed);
        let ghost before = gizmos.gizmos.commands@;
        let ghost dashes = windows@.map_values(|w: Window| self.dash(w));
        let mut i: usize = 0;
        while i < windows.len()
            invariant
                i <= windows.len(),
                gizmos.gizmos.enabled,
                gizmos.elapsed == old(gizmos).elapsed,
                dashes == windows@.map_values(|w: Window| self.dash(w)),
                gizmos.gizmos.commands@ == before + dashes.take(i as int),
            decreases windows.len() - i,
        {
            let w = windows[i];
            let length = w.start.saturating_sub(w.end).saturating_abs();
            gizmos.gizmos.arc_2d(
                self.position,
                self.direction_angle.saturating_add(
                    w.start.saturating_mul(self.arc_angle),
                ).saturating_add(length),
                length.saturating_mul(self.arc_angle),
                self.radius,
                self.color,
                self.resolution,
            );
            assert(dashes.take(i + 1) =~= dashes.take(i as int).push(dashes[i as int]));
            i = i + 1;
        }
        assert(dashes.take(i as int) =~= dashes);
    }
}

} // verus!
