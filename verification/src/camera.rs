//! The camera's viewport.
use vstd::prelude::*;
use crate::vec3::{Point3, Vec3};

verus! {

/// A camera as the renderer reads it: the eye and the viewport that the rays
/// go through. The ray for the viewport coordinates `(s, t)` starts at
/// `origin` and points at `lower_left_corner + s * horizontal + t * vertical`.
#[derive(Clone, Copy, Debug, PartialEq, Eq, Structural)]
pub struct Camera {
    pub origin: Point3,
    pub lower_left_corner: Point3,
    pub horizontal: Vec3,
    pub vertical: Vec3,
}

impl Camera {
    /// The camera with the given eye and viewport.
    pub fn new(origin: Point3, lower_left_corner: Point3, horizontal: Vec3, vertical: Vec3) -> (camera:
        Camera)
        ensures
            camera.origin == origin,
            camera.lower_left_corner == lower_left_corner,
            camera.horizontal == horizontal,
            camera.vertical == vertical,
    {
        Camera { origin, lower_left_corner, horizontal, vertical }
    }

    /// Whether a camera can look from `look_from` at `look_at`: not where
    /// the two are one point, and not where a coordinate is not a number.
    pub open spec fn aims(look_from: Point3, look_at: Point3) -> bool {
        &&& !look_from.x.nan() && !look_from.y.nan() && !look_from.z.nan()
        &&& !look_at.x.nan() && !look_at.y.nan() && !look_at.z.nan()
        &&& !(look_from.x.same(look_at.x) && look_from.y.same(look_at.y) && look_from.z.same(
            look_at.z,
        ))
    }

    /// Whether a camera can look from `look_from` at `look_at`.
    pub fn can_aim(look_from: Point3, look_at: Point3) -> (r: bool)
        ensures
            r == Camera::aims(look_from, look_at),
    {
        if look_from.x.is_nan() || look_from.y.is_nan() || look_from.z.is_nan() {
            return false;
        }
        if look_at.x.is_nan() || look_at.y.is_nan() || look_at.z.is_nan() {
            return false;
        }
        !(look_from.x.equals(look_at.x) && look_from.y.equals(look_at.y) && look_from.z.equals(
            look_at.z,
        ))
    }
}

} // verus!
