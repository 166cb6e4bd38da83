//! Rays.
use vstd::prelude::*;
use crate::vec3::{Point3, Vec3};

verus! {

/// A half-line: the points `origin + t * dir`.
#[derive(Clone, Copy, Debug, PartialEq, Eq, Structural)]
pub struct Ray {
    pub origin: Point3,
    pub dir: Vec3,
}

impl Ray {
    pub fn new(origin: Point3, dir: Vec3) -> (ray: Ray)
        ensures
            ray.origin == origin,
            ray.dir == dir,
    {
        Ray { origin, dir }
    }

    pub fn origin(&self) -> (p: Point3)
        ensures
            p == self.origin,
    {
        self.origin
    }

    pub fn dir(&self) -> (d: Vec3)
        ensures
            d == self.dir,
    {
        self.dir
    }
}

} // verus!
