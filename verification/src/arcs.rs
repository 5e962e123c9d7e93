//! Sweep angles of arcs, in fixed-point radians.

use crate::fixed::Fixed;
use vstd::prelude::*;

verus! {

/// A full turn in millionths of a radian.
pub const TAU: i64 = 6_283_185;

/// The number of lines that a full circle is drawn with where nothing else
/// is asked for.
pub const DEFAULT_CIRCLE_RESOLUTION: u32 = 32;

/// Which of the two ways round the circle an arc between two rays takes.
#[derive(Clone, Copy, Debug, PartialEq, Eq, Structural)]
pub enum ArcKind {
    /// The shorter way: the angle between the rays itself.
    Short,
    /// The longer way: what is left of the full turn.
    Long,
}

/// The sweep that goes the other way round the circle: a full turn less the
/// angle, with the sign of the angle; zero for the angle zero.
pub open spec fn angle_inverted_spec(angle: Fixed) -> Fixed {
    if angle@ > 0 {
        Fixed { raw: (TAU - angle@) as i64 }
    } else if angle@ < 0 {
        Fixed { raw: (-TAU - angle@) as i64 }
    } else {
        Fixed { raw: 0 }
    }
}

/// An angle cut off at a full turn either way.
pub open spec fn clamp_turn_spec(angle: Fixed) -> Fixed {
    if angle@ < -TAU {
        Fixed { raw: (-TAU) as i64 }
    } else if angle@ > TAU {
        Fixed { raw: TAU }
    } else {
        angle
    }
}

/// The sweep that goes the other way round the circle.
pub fn angle_inverted(angle: Fixed) -> (r: Fixed)
    ensures
        r == angle_inverted_spec(angle),
        angle@ > 0 ==> r@ + angle@ == TAU,
        angle@ < 0 ==> r@ + angle@ == -TAU,
        angle@ == 0 ==> r@ == 0,
{
    if angle.raw > 0 {
        Fixed { raw: TAU - angle.raw }
    } else if angle.raw < 0 {
        Fixed { raw: -TAU - angle.raw }
    } else {
        Fixed { raw: 0 }
    }
}

/// Cuts an angle off at a full turn either way: more than that would only
/// draw over what is drawn already.
pub fn clamp_turn(angle: Fixed) -> (r: Fixed)
    ensures
        r == clamp_turn_spec(angle),
        -TAU <= r@ <= TAU,
{
    if angle.raw < -TAU {
        Fixed { raw: -TAU }
    } else if angle.raw > TAU {
        Fixed { raw: TAU }
    } else {
        angle
    }
}

/// The number of lines that an arc of the given angle is drawn with where
/// nothing else is asked for: the arc's share of the lines of a full circle,
/// rounded up, and no more than a `u32` holds.
pub open spec fn resolution_from_angle_spec(angle: Fixed) -> int {
    let size = if angle@ < 0 {
        -angle@
    } else {
        angle@
    };
    let lines = (size * 32 + 6_283_184) / 6_283_185;
    if lines > u32::MAX {
        u32::MAX as int
    } else {
        lines
    }
}

/// The number of lines that an arc of the given angle is drawn with where
/// nothing else is asked for. It is the least number of lines, each the
/// thirty-second part of a full turn, that reach round the arc.
pub fn resolution_from_angle(angle: Fixed) -> (r: u32)
    ensures
        r == resolution_from_angle_spec(angle),
        r < u32::MAX ==> r * TAU >= angle@ * DEFAULT_CIRCLE_RESOLUTION,
        r < u32::MAX ==> r * TAU >= -angle@ * DEFAULT_CIRCLE_RESOLUTION,
        r > 0 && angle@ >= 0 ==> (r - 1) * TAU < angle@ * DEFAULT_CIRCLE_RESOLUTION,
        r > 0 && angle@ < 0 ==> (r - 1) * TAU < -angle@ * DEFAULT_CIRCLE_RESOLUTION,
{
    let size: u128 = if angle.raw < 0 {
        (-(angle.raw as i128)) as u128
    } else {
        angle.raw as u128
    };
    let lines: u128 = (size * 32 + 6_283_184) / 6_283_185;
    if lines > u32::MAX as u128 {
        u32::MAX
    } else {
        lines as u32
    }
}

impl ArcKind {
    /// The signed sweep of the arc, given the angle between its two rays:
    /// the angle itself or its complement, cut off at a full turn.
    pub open spec fn sweep_spec(self, angle: Fixed) -> Fixed {
        match self {
            ArcKind::Short => clamp_turn_spec(angle),
            ArcKind::Long => clamp_turn_spec(angle_inverted_spec(angle)),
        }
    }

    /// The signed sweep of the arc, given the angle between its two rays.
    pub fn sweep(self, angle: Fixed) -> (r: Fixed)
        ensures
            r == self.sweep_spec(angle),
            -TAU <= r@ <= TAU,
    {
        match self {
            ArcKind::Short => clamp_turn(angle),
            ArcKind::Long => clamp_turn(angle_inverted(angle)),
        }
    }
}

/// The two ways round the circle make up the full turn: for an angle
/// between zero and a full turn, the short sweep is the angle, the long
/// sweep is what is left of the turn, and both turn the same way.
pub proof fn lemma_sweeps_complementary(angle: Fixed)
    requires
        0 < angle@ < TAU,
    ensures
        ArcKind::Short.sweep_spec(angle) == angle,
        ArcKind::Long.sweep_spec(angle)@ == TAU - angle@,
        ArcKind::Short.sweep_spec(angle)@ + ArcKind::Long.sweep_spec(angle)@ == TAU,
        ArcKind::Short.sweep_spec(angle)@ > 0,
        ArcKind::Long.sweep_spec(angle)@ > 0,
{
}

/// Going the other way round twice is going the first way: inverting a
/// sweep of at most a full turn twice gives the sweep back.
pub proof fn lemma_angle_inverted_twice(angle: Fixed)
    requires
        -TAU < angle@ < TAU,
    ensures
        angle_inverted_spec(angle_inverted_spec(angle)) == angle,
{
}

} // verus!
