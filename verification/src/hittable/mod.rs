//! Intersections of a ray with the scene.
pub mod hittable_list;
pub mod sphere;

use vstd::prelude::*;
use crate::hittable::sphere::{inside, Crossing, Sphere};
use crate::material::Material;
use crate::scalar::{Scalar, ZERO_BITS};
use crate::vec3::{Point3, Vec3};

verus! {

/// Where and how a ray met a surface.
#[derive(Clone, Copy, Debug, PartialEq, Eq, Structural)]
pub struct HitRecord {
    /// The point that was hit.
    pub p: Point3,
    /// The surface normal there, turned against the ray.
    pub normal: Vec3,
    /// The material of what was hit.
    pub material: Material,
    /// The ray's parameter at the hit.
    pub t: Scalar,
    /// Whether the ray came from outside.
    pub front_face: bool,
}

/// Whether a ray comes from outside a surface: `facing`, the dot product of
/// its direction with the outward normal, is below zero.
pub open spec fn from_outside(facing: Scalar) -> bool {
    facing.less(Scalar { bits: ZERO_BITS })
}

/// The normal turned against the ray: the outward normal where the ray comes
/// from outside, its negation where it comes from inside.
pub open spec fn face_normal(facing: Scalar, outward_normal: Vec3) -> Vec3 {
    if from_outside(facing) {
        outward_normal
    } else {
        outward_normal.negated()
    }
}

/// What a ray can hit.
pub trait Hittable {
    /// The arithmetic of one ray against this: what the caller computes
    /// before it asks for the hit.
    type Crossing;

    /// Whether `crossing` has the shape that this asks for.
    spec fn takes(&self, crossing: &Self::Crossing) -> bool;

    /// The nearest hit inside `(t_min, t_max)`, if there is one.
    spec fn hits(&self, crossing: Self::Crossing, t_min: Scalar, t_max: Scalar) -> Option<
        HitRecord,
    >;

    /// Where the ray whose arithmetic is `crossing` hits this inside
    /// `(t_min, t_max)`.
    fn hit(&self, crossing: &Self::Crossing, t_min: Scalar, t_max: Scalar) -> (r: Option<
        HitRecord,
    >)
        requires
            self.takes(crossing),
        ensures
            r == self.hits(*crossing, t_min, t_max),
    ;
}

impl HitRecord {
    /// Sets the normal so that it opposes the ray. `facing` is the dot
    /// product of the ray's direction with `outward_normal`.
    pub fn set_face_normal(&mut self, facing: Scalar, outward_normal: Vec3)
        ensures
            final(self).normal == face_normal(facing, outward_normal),
            final(self).p == old(self).p,
            final(self).material == old(self).material,
            final(self).t == old(self).t,
            final(self).front_face == old(self).front_face,
    {
        self.normal = if facing.lt(Scalar::zero()) {
            outward_normal
        } else {
            outward_normal.neg()
        };
    }
}

/// The upper end of the interval that is still searched: the parameter of
/// the closest hit so far, or `t_max` where there is none yet.
pub open spec fn closest(found: Option<HitRecord>, t_max: Scalar) -> Scalar {
    match found {
        Some(rec) => rec.t,
        None => t_max,
    }
}

/// The closest hit of one ray among the spheres of `world`, inside
/// `(t_min, t_max)`. `crossings[i]` is the ray's arithmetic against
/// `world[i]`. The spheres are taken in order, and each is asked only for a
/// hit closer than the closest so far, so of two hits at the same parameter
/// the first stays.
pub open spec fn nearest(
    world: Seq<Sphere>,
    crossings: Seq<Crossing>,
    t_min: Scalar,
    t_max: Scalar,
) -> Option<HitRecord>
    decreases world.len(),
{
    if world.len() == 0 {
        None
    } else {
        let before = nearest(world.drop_last(), crossings.drop_last(), t_min, t_max);
        match world.last().hits(crossings.last(), t_min, closest(before, t_max)) {
            Some(rec) => Some(rec),
            None => before,
        }
    }
}

/// The closest hit of a ray in the world, or none. `crossings[i]` holds the
/// ray's arithmetic against `world[i]`.
pub fn hit_world(world: &Vec<Sphere>, crossings: &Vec<Crossing>, t_min: Scalar, t_max: Scalar) -> (r:
    Option<HitRecord>)
    requires
        crossings.len() == world.len(),
    ensures
        r == nearest(world@, crossings@, t_min, t_max),
        r matches Some(rec) ==> inside(rec.t, t_min, t_max),
        r is Some <==> exists|i: int|
            0 <= i < world.len() && (#[trigger] world[i].hits(crossings[i], t_min, t_max)) is Some,
        forall|i: int|
            0 <= i < world.len() ==> (#[trigger] world[i].hits(crossings[i], t_min, t_max) matches Some(
                other,
            ) ==> !other.t.less(closest(r, t_max))),
{
    let mut closest_so_far = t_max;
    let mut hit_record: Option<HitRecord> = None;
    let mut i: usize = 0;
    while i < world.len()
        invariant
            i <= world.len(),
            crossings.len() == world.len(),
            hit_record == nearest(world@.take(i as int), crossings@.take(i as int), t_min, t_max),
            closest_so_far == closest(hit_record, t_max),
        decreases world.len() - i,
    {
        proof {
            assert(world@.take(i + 1).drop_last() == world@.take(i as int));
            assert(crossings@.take(i + 1).drop_last() == crossings@.take(i as int));
        }
        if let Some(hit) = world[i].hit(&crossings[i], t_min, closest_so_far) {
            closest_so_far = hit.t;
            hit_record = Some(hit);
        }
        i += 1;
    }
    proof {
        assert(world@.take(i as int) == world@);
        assert(crossings@.take(i as int) == crossings@);
        lemma_nearest_is_closest(world@, crossings@, t_min, t_max);
    }
    hit_record
}

/// The closest hit lies inside the interval, comes from one of the spheres,
/// and no sphere has a hit inside the interval that is closer. There is a
/// closest hit exactly where some sphere has a hit inside the interval.
pub proof fn lemma_nearest_is_closest(
    world: Seq<Sphere>,
    crossings: Seq<Crossing>,
    t_min: Scalar,
    t_max: Scalar,
)
    requires
        crossings.len() == world.len(),
    ensures
        nearest(world, crossings, t_min, t_max) matches Some(rec) ==> {
            &&& inside(rec.t, t_min, t_max)
            &&& exists|i: int|
                0 <= i < world.len() && (rec == #[trigger] world[i].record(crossings[i].near)
                    || rec == world[i].record(crossings[i].far))
        },
        nearest(world, crossings, t_min, t_max) is Some <==> exists|i: int|
            0 <= i < world.len() && (#[trigger] world[i].hits(crossings[i], t_min, t_max)) is Some,
        forall|i: int|
            0 <= i < world.len() ==> (#[trigger] world[i].hits(crossings[i], t_min, t_max) matches Some(
                other,
            ) ==> !other.t.less(closest(nearest(world, crossings, t_min, t_max), t_max))),
    decreases world.len(),
{
    if world.len() > 0 {
        let last = world.len() - 1;
        let w = world.drop_last();
        let c = crossings.drop_last();
        lemma_nearest_is_closest(w, c, t_min, t_max);
        let before = nearest(w, c, t_min, t_max);
        let bound = closest(before, t_max);
        let found = nearest(world, crossings, t_min, t_max);
        assert forall|i: int| 0 <= i < last implies #[trigger] world[i] == w[i] && crossings[i]
            == c[i] by {}
        if let Some(rec) = found {
            if world[last].hits(crossings[last], t_min, bound) is Some {
                assert(rec == world[last].record(crossings[last].near) || rec
                    == world[last].record(crossings[last].far));
                assert(world[last].hits(crossings[last], t_min, t_max) is Some);
            } else {
                let i = choose|i: int|
                    0 <= i < w.len() && (rec == #[trigger] w[i].record(c[i].near) || rec
                        == w[i].record(c[i].far));
                assert(rec == world[i].record(crossings[i].near) || rec == world[i].record(
                    crossings[i].far,
                ));
                let j = choose|j: int|
                    0 <= j < w.len() && (#[trigger] w[j].hits(c[j], t_min, t_max)) is Some;
                assert(world[j].hits(crossings[j], t_min, t_max) is Some);
            }
        }
        assert forall|i: int| 0 <= i < world.len() implies (#[trigger] world[i].hits(
            crossings[i],
            t_min,
            t_max,
        ) matches Some(other) ==> found is Some && !other.t.less(closest(found, t_max))) by {
            if i < last {
                assert(world[i] == w[i] && crossings[i] == c[i]);
            }
        }
    }
}

} // verus!
