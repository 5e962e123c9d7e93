//! The draw surface: what the gizmos of one frame are drawn on.
//!
//! The surface is a list of draw commands that only grows. Whoever owns the
//! frame carries the commands out, in order, once the frame's systems have
//! run.

use crate::fixed::Fixed;
use crate::geometry::{Point2, Point3};
use bevy_color::Color;
use vstd::prelude::*;

verus! {

/// One primitive to draw.
#[derive(Clone, Copy, Debug, PartialEq)]
pub enum DrawCommand {
    /// A straight line in space.
    Line { start: Point3, end: Point3, color: Color },
    /// A straight line in the plane.
    Line2d { start: Point2, end: Point2, color: Color },
    /// Part of the arc about `center` that starts on the ray towards `from`
    /// and turns towards the ray to `to`, at the distance of `from`: the
    /// part from `start_angle` to `end_angle`, both measured from the ray
    /// towards `from` in the direction of the turn.
    Arc3d {
        center: Point3,
        from: Point3,
        to: Point3,
        start_angle: Fixed,
        end_angle: Fixed,
        color: Color,
        resolution: Option<u32>,
    },
    /// An arc in the plane about `position`: `direction_angle` points to
    /// its middle, `arc_angle` is its length in radians.
    Arc2d {
        position: Point2,
        direction_angle: Fixed,
        arc_angle: Fixed,
        radius: Fixed,
        color: Color,
        resolution: Option<u32>,
    },
}

/// The draw surface of one frame.
#[derive(Debug, PartialEq)]
pub struct Gizmos {
    /// Whether anything is drawn at all.
    pub enabled: bool,
    /// What has been drawn so far, oldest first.
    pub commands: Vec<DrawCommand>,
}

impl Gizmos {
    /// What the surface holds once `command` has been submitted: one more
    /// command if the surface is enabled, else what it held.
    pub open spec fn submitted(self, command: DrawCommand) -> Seq<DrawCommand> {
        if self.enabled {
            self.commands@.push(command)
        } else {
            self.commands@
        }
    }

    /// An empty surface.
    pub fn new(enabled: bool) -> (r: Gizmos)
        ensures
            r.enabled == enabled,
            r.commands@ == Seq::<DrawCommand>::empty(),
    {
        Gizmos { enabled, commands: Vec::new() }
    }

    /// Draws a straight line in space.
    pub fn line(&mut self, start: Point3, end: Point3, color: Color)
        ensures
            final(self).enabled == old(self).enabled,
            final(self).commands@ == old(self).submitted(DrawCommand::Line { start, end, color }),
    {
        if self.enabled {
            self.commands.push(DrawCommand::Line { start, end, color });
        }
    }

    /// Draws a straight line in the plane.
    pub fn line_2d(&mut self, start: Point2, end: Point2, color: Color)
        ensures
            final(self).enabled == old(self).enabled,
            final(self).commands@ == old(self).submitted(
                DrawCommand::Line2d { start, end, color },
            ),
    {
        if self.enabled {
            self.commands.push(DrawCommand::Line2d { start, end, color });
        }
    }

    /// Draws part of the arc about `center` from the ray towards `from` to
    /// the ray towards `to`.
    pub fn arc_3d(
        &mut self,
        center: Point3,
        from: Point3,
        to: Point3,
        start_angle: Fixed,
        end_angle: Fixed,
        color: Color,
        resolution: Option<u32>,
    )
        ensures
            final(self).enabled == old(self).enabled,
            final(self).commands@ == old(self).submitted(
                DrawCommand::Arc3d { center, from, to, start_angle, end_angle, color, resolution },
            ),
    {
        if self.enabled {
            self.commands.push(
                DrawCommand::Arc3d { center, from, to, start_angle, end_angle, color, resolution },
            );
        }
    }

    /// Draws an arc in the plane.
    pub fn arc_2d(
        &mut self,
        position: Point2,
        direction_angle: Fixed,
        arc_angle: Fixed,
        radius: Fixed,
        color: Color,
        resolution: Option<u32>,
    )
        ensures
            final(self).enabled == old(self).enabled,
            final(self).commands@ == old(self).submitted(
                DrawCommand::Arc2d {
                    position,
                    direction_angle,
                    arc_angle,
                    radius,
                    color,
                    resolution,
                },
            ),
    {
        if self.enabled {
            self.commands.push(
                DrawCommand::Arc2d {
                    position,
                    direction_angle,
                    arc_angle,
                    radius,
                    color,
                    resolution,
                },
            );
        }
    }
}

} // verus!
