//! Spheres and the rays that cross them.
use vstd::prelude::*;
use crate::hittable::{face_normal, from_outside, HitRecord, Hittable};
use crate::material::Material;
use crate::scalar::{Scalar, ZERO_BITS};
use crate::vec3::{Point3, Vec3};

verus! {

/// A sphere. A negative radius turns the outward normal inward, which makes
/// the inner surface of a hollow sphere.
#[derive(Clone, Copy, Debug, PartialEq, Eq, Structural)]
pub struct Sphere {
    pub center: Point3,
    pub radius: Scalar,
    pub material: Material,
}

/// One solution of the ray's quadratic, and the surface there.
#[derive(Clone, Copy, Debug, PartialEq, Eq, Structural)]
pub struct Touch {
    /// The root: the ray's parameter.
    pub t: Scalar,
    /// The ray's point at `t`.
    pub p: Point3,
    /// The normal at `p`: `(p - center) / radius`.
    pub outward_normal: Vec3,
    /// The dot product of the ray's direction with `outward_normal`.
    pub facing: Scalar,
}

/// A ray's line against a sphere: with `oc = origin - center`,
/// `a = |dir|^2`, `half_b = oc . dir` and `c = |oc|^2 - radius^2`, the
/// discriminant `half_b^2 - a*c` and the surface at the two roots
/// `(-half_b -+ sqrt(discriminant)) / a`.
#[derive(Clone, Copy, Debug, PartialEq, Eq, Structural)]
pub struct Crossing {
    pub discriminant: Scalar,
    /// At the root with the minus sign.
    pub near: Touch,
    /// At the root with the plus sign.
    pub far: Touch,
}

/// `t` lies strictly inside `(t_min, t_max)`.
pub open spec fn inside(t: Scalar, t_min: Scalar, t_max: Scalar) -> bool {
    t.less(t_max) && t_min.less(t)
}

/// The discriminant is zero or more: the line meets the sphere.
pub open spec fn meets(discriminant: Scalar) -> bool {
    (Scalar { bits: ZERO_BITS }).less(discriminant) || (Scalar { bits: ZERO_BITS }).same(
        discriminant,
    )
}

impl Sphere {
    pub fn new(center: Point3, radius: Scalar, material: Material) -> (s: Sphere)
        ensures
            s.center == center,
            s.radius == radius,
            s.material == material,
    {
        Sphere { center, radius, material }
    }

    /// The record of a hit on this sphere at `touch`.
    pub open spec fn record(self, touch: Touch) -> HitRecord {
        HitRecord {
            t: touch.t,
            p: touch.p,
            normal: face_normal(touch.facing, touch.outward_normal),
            front_face: from_outside(touch.facing),
            material: self.material,
        }
    }

    fn touched(&self, touch: &Touch) -> (rec: HitRecord)
        ensures
            rec == self.record(*touch),
    {
        let front_face = touch.facing.lt(Scalar::zero());
        HitRecord {
            t: touch.t,
            p: touch.p,
            normal: if front_face {
                touch.outward_normal
            } else {
                touch.outward_normal.neg()
            },
            front_face,
            material: self.material,
        }
    }
}

impl Hittable for Sphere {
    type Crossing = Crossing;

    /// Every crossing will do.
    open spec fn takes(&self, crossing: &Crossing) -> bool {
        true
    }

    /// The nearest hit inside `(t_min, t_max)`: at the near root if that
    /// lies inside, else at the far root if that does, else none. There is
    /// none where the discriminant is below zero or not a number.
    open spec fn hits(&self, crossing: Crossing, t_min: Scalar, t_max: Scalar) -> Option<
        HitRecord,
    > {
        if !meets(crossing.discriminant) {
            None
        } else if inside(crossing.near.t, t_min, t_max) {
            Some(self.record(crossing.near))
        } else if inside(crossing.far.t, t_min, t_max) {
            Some(self.record(crossing.far))
        } else {
            None
        }
    }

    fn hit(&self, crossing: &Crossing, t_min: Scalar, t_max: Scalar) -> (r: Option<HitRecord>)
        ensures
            r matches Some(rec) ==> inside(rec.t, t_min, t_max) && rec.material == self.material,
            crossing.discriminant.less(Scalar { bits: ZERO_BITS }) ==> r is None,
    {
        if crossing.discriminant.ge(Scalar::zero()) {
            if crossing.near.t.lt(t_max) && crossing.near.t.gt(t_min) {
                return Some(self.touched(&crossing.near));
            }
            if crossing.far.t.lt(t_max) && crossing.far.t.gt(t_min) {
                return Some(self.touched(&crossing.far));
            }
        }
        None
    }
}

/// Where the far root is not below the near one, as the two solutions of a
/// quadratic are, the hit is at the smallest root inside the interval: it is
/// at one of the roots, inside the interval, and no root inside the interval
/// is below it. There is no hit exactly where no root lies inside.
pub proof fn lemma_hit_is_smallest_root(
    sphere: Sphere,
    crossing: Crossing,
    t_min: Scalar,
    t_max: Scalar,
)
    requires
        meets(crossing.discriminant),
        !crossing.far.t.less(crossing.near.t),
    ensures
        match sphere.hits(crossing, t_min, t_max) {
            Some(rec) => {
                &&& rec == sphere.record(crossing.near) || rec == sphere.record(crossing.far)
                &&& inside(rec.t, t_min, t_max)
                &&& inside(crossing.near.t, t_min, t_max) ==> !crossing.near.t.less(rec.t)
                &&& inside(crossing.far.t, t_min, t_max) ==> !crossing.far.t.less(rec.t)
            },
            None => !inside(crossing.near.t, t_min, t_max) && !inside(
                crossing.far.t,
                t_min,
                t_max,
            ),
        },
{
}

} // verus!
