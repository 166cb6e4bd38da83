//! What a render is made from.
use vstd::prelude::*;
use crate::camera::Camera;
use crate::hittable::sphere::Sphere;
use crate::scalar::Scalar;

verus! {

/// The settings and the scene of one render.
pub struct State {
    pub samples_per_pixel: i32,
    pub max_depth: i32,
    pub aspect_ratio: Scalar,
    /// The image's width in pixels; where it is absent it is derived from
    /// the height and the aspect ratio before rendering.
    pub width: Option<i32>,
    pub height: u32,
    pub frames: u32,
    pub camera: Camera,
    pub entities_vec: Vec<Sphere>,
    /// The spheres that are sampled as lights, if any.
    pub lights: Option<Vec<Sphere>>,
}

/// Why a scene cannot be rendered.
#[derive(Clone, Copy, Debug, PartialEq, Eq, Structural)]
pub enum SceneError {
    /// The sphere at this place in the scene has a radius that is zero or
    /// not a number.
    DegenerateSphere(usize),
    /// The light at this place has such a radius.
    DegenerateLight(usize),
}

/// Whether a radius makes a sphere: it is a number other than zero. A
/// negative one does: it makes the inner surface of a hollow sphere.
pub open spec fn radius_ok(radius: Scalar) -> bool {
    !radius.nan() && radius.rank() != 0
}

/// The first place in `spheres` whose radius makes no sphere, if there is
/// one.
pub open spec fn first_degenerate(spheres: Seq<Sphere>) -> Option<int>
    decreases spheres.len(),
{
    if spheres.len() == 0 {
        None
    } else {
        match first_degenerate(spheres.drop_last()) {
            Some(i) => Some(i),
            None => if radius_ok(spheres.last().radius) {
                None
            } else {
                Some(spheres.len() - 1)
            },
        }
    }
}

/// What `first_degenerate` finds is the least place with a bad radius, and
/// it finds none only where there is none.
pub proof fn lemma_first_degenerate(spheres: Seq<Sphere>)
    ensures
        match first_degenerate(spheres) {
            Some(i) => 0 <= i < spheres.len() && !radius_ok(spheres[i].radius) && forall|j: int|
                0 <= j < i ==> radius_ok(#[trigger] spheres[j].radius),
            None => forall|j: int| 0 <= j < spheres.len() ==> radius_ok(#[trigger] spheres[j].radius),
        },
    decreases spheres.len(),
{
    if spheres.len() > 0 {
        lemma_first_degenerate(spheres.drop_last());
        assert forall|j: int| 0 <= j < spheres.len() - 1 implies spheres.drop_last()[j]
            == spheres[j] by {}
    }
}

fn find_degenerate(spheres: &Vec<Sphere>) -> (r: Option<usize>)
    ensures
        match first_degenerate(spheres@) {
            Some(i) => r == Some(i as usize),
            None => r is None,
        },
{
    let mut i: usize = 0;
    while i < spheres.len()
        invariant
            i <= spheres.len(),
            forall|j: int| 0 <= j < i ==> radius_ok(#[trigger] spheres[j].radius),
        decreases spheres.len() - i,
    {
        let radius = spheres[i].radius;
        if radius.is_nan() || radius.equals(Scalar::zero()) {
            proof {
                lemma_first_degenerate(spheres@);
            }
            return Some(i);
        }
        i += 1;
    }
    proof {
        lemma_first_degenerate(spheres@);
    }
    None
}

impl State {
    pub fn new(
        samples_per_pixel: i32,
        max_depth: i32,
        aspect_ratio: Scalar,
        width: Option<i32>,
        height: u32,
        frames: u32,
        camera: Camera,
        entities_vec: Vec<Sphere>,
        lights: Vec<Sphere>,
    ) -> (state: State)
        ensures
            state.samples_per_pixel == samples_per_pixel,
            state.max_depth == max_depth,
            state.aspect_ratio == aspect_ratio,
            state.width == width,
            state.height == height,
            state.frames == frames,
            state.camera == camera,
            state.entities_vec@ == entities_vec@,
            state.lights matches Some(held) && held@ == lights@,
    {
        State {
            samples_per_pixel,
            max_depth,
            aspect_ratio,
            width,
            height,
            frames,
            camera,
            entities_vec,
            lights: Some(lights),
        }
    }

    /// Gives the state a width where it has none: `derived`, the height
    /// times the aspect ratio. A width that is there stays.
    pub fn default_width(&mut self, derived: i32)
        ensures
            final(self).width == Some(
                match old(self).width {
                    Some(width) => width,
                    None => derived,
                },
            ),
            final(self).samples_per_pixel == old(self).samples_per_pixel,
            final(self).max_depth == old(self).max_depth,
            final(self).aspect_ratio == old(self).aspect_ratio,
            final(self).height == old(self).height,
            final(self).frames == old(self).frames,
            final(self).camera == old(self).camera,
            final(self).entities_vec == old(self).entities_vec,
            final(self).lights == old(self).lights,
    {
        if self.width.is_none() {
            self.width = Some(derived);
        }
    }

    /// The image's width and height in pixels: none where the width is
    /// absent or below zero.
    pub fn bounds(&self) -> (r: Option<(usize, usize)>)
        ensures
            r == match self.width {
                Some(width) => if width >= 0 {
                    Some((width as usize, self.height as usize))
                } else {
                    None
                },
                None => None,
            },
    {
        match self.width {
            Some(width) => if width >= 0 {
                Some((width as usize, self.height as usize))
            } else {
                None
            },
            None => None,
        }
    }

    /// The number of lights that are sampled.
    pub fn light_count(&self) -> (n: usize)
        ensures
            n == match self.lights {
                Some(lights) => lights.len(),
                None => 0,
            },
    {
        match &self.lights {
            Some(lights) => lights.len(),
            None => 0,
        }
    }

    /// What is wrong with the scene, if anything: the first sphere, and
    /// after the spheres the first light, whose radius is zero or not a
    /// number.
    pub open spec fn fault(self) -> Option<SceneError> {
        match first_degenerate(self.entities_vec@) {
            Some(i) => Some(SceneError::DegenerateSphere(i as usize)),
            None => match self.lights {
                Some(lights) => match first_degenerate(lights@) {
                    Some(i) => Some(SceneError::DegenerateLight(i as usize)),
                    None => None,
                },
                None => None,
            },
        }
    }

    /// Tells whether the scene can be rendered, and if not, why.
    pub fn validate(&self) -> (r: Result<(), SceneError>)
        ensures
            match self.fault() {
                Some(error) => r == Err::<(), SceneError>(error),
                None => r is Ok,
            },
    {
        if let Some(i) = find_degenerate(&self.entities_vec) {
            return Err(SceneError::DegenerateSphere(i));
        }
        if let Some(lights) = &self.lights {
            if let Some(i) = find_degenerate(lights) {
                return Err(SceneError::DegenerateLight(i));
            }
        }
        Ok(())
    }
}

} // verus!
