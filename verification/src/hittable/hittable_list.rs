//! The scene: an ordered list of spheres.
use vstd::prelude::*;
use crate::hittable::sphere::{Crossing, Sphere};
use crate::hittable::{hit_world, nearest, HitRecord, Hittable};
use crate::scalar::Scalar;

verus! {

/// The spheres of a scene, in the order in which they were added.
pub struct HittableList {
    pub objects: Vec<Sphere>,
}

impl HittableList {
    pub fn new(objects: Vec<Sphere>) -> (list: HittableList)
        ensures
            list.objects@ == objects@,
    {
        HittableList { objects }
    }

    /// Adds one sphere at the end.
    pub fn add(&mut self, object: Sphere)
        ensures
            final(self).objects@ == old(self).objects@.push(object),
    {
        self.objects.push(object);
    }

    /// Adds the spheres of `vector` at the end, in their order.
    pub fn add_vec(&mut self, vector: Vec<Sphere>)
        ensures
            final(self).objects@ == old(self).objects@ + vector@,
    {
        let mut i: usize = 0;
        while i < vector.len()
            invariant
                i <= vector.len(),
                self.objects@ == old(self).objects@ + vector@.take(i as int),
            decreases vector.len() - i,
        {
            self.objects.push(vector[i]);
            i += 1;
            assert(vector@.take(i as int) == vector@.take(i - 1).push(vector@[i - 1]));
        }
        assert(vector@.take(i as int) == vector@);
    }
}

impl Hittable for HittableList {
    type Crossing = Vec<Crossing>;

    /// One crossing for each sphere, in the order of the spheres.
    open spec fn takes(&self, crossings: &Vec<Crossing>) -> bool {
        crossings.len() == self.objects.len()
    }

    /// The closest hit among the spheres of the list.
    open spec fn hits(&self, crossings: Vec<Crossing>, t_min: Scalar, t_max: Scalar) -> Option<
        HitRecord,
    > {
        nearest(self.objects@, crossings@, t_min, t_max)
    }

    fn hit(&self, crossings: &Vec<Crossing>, t_min: Scalar, t_max: Scalar) -> (r: Option<
        HitRecord,
    >) {
        hit_world(&self.objects, crossings, t_min, t_max)
    }
}

impl Default for HittableList {
    /// The empty scene.
    fn default() -> (list: HittableList)
        ensures
            list.objects@ == Seq::<Sphere>::empty(),
    {
        HittableList { objects: Vec::new() }
    }
}

} // verus!
