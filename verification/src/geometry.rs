//! Points in the plane and in space, in fixed-point coordinates.

use crate::fixed::Fixed;
use vstd::prelude::*;

verus! {

/// A point in the plane.
#[derive(Clone, Copy, Debug, PartialEq, Eq, Structural)]
pub struct Point2 {
    pub x: Fixed,
    pub y: Fixed,
}

/// A point in space.
#[derive(Clone, Copy, Debug, PartialEq, Eq, Structural)]
pub struct Point3 {
    pub x: Fixed,
    pub y: Fixed,
    pub z: Fixed,
}

impl Point2 {
    /// The point at the fraction `w` of the way from `self` to `end`,
    /// coordinate by coordinate.
    pub open spec fn lerp_spec(self, end: Point2, w: Fixed) -> Point2 {
        Point2 { x: self.x.lerp_spec(end.x, w), y: self.y.lerp_spec(end.y, w) }
    }

    /// The point at the fraction `w` of the way from `self` to `end`.
    pub fn lerp(self, end: Point2, w: Fixed) -> (r: Point2)
        ensures
            r == self.lerp_spec(end, w),
    {
        Point2 { x: self.x.lerp(end.x, w), y: self.y.lerp(end.y, w) }
    }
}

impl Point3 {
    /// The point at the fraction `w` of the way from `self` to `end`,
    /// coordinate by coordinate.
    pub open spec fn lerp_spec(self, end: Point3, w: Fixed) -> Point3 {
        Point3 {
            x: self.x.lerp_spec(end.x, w),
            y: self.y.lerp_spec(end.y, w),
            z: self.z.lerp_spec(end.z, w),
        }
    }

    /// The point at the fraction `w` of the way from `self` to `end`.
    pub fn lerp(self, end: Point3, w: Fixed) -> (r: Point3)
        ensures
            r == self.lerp_spec(end, w),
    {
        Point3 {
            x: self.x.lerp(end.x, w),
            y: self.y.lerp(end.y, w),
            z: self.z.lerp(end.z, w),
        }
    }
}

} // verus!
