//! What a surface does with a ray that hits it.
//!
//! Each kind of material is one rule. The rule's arithmetic (a reflected
//! direction, a dot product, a reflectance) is done by the caller and handed
//! in as a [`Sample`]; the rule decides with it whether the ray goes on, in
//! which direction, and how its light is attenuated.
use vstd::prelude::*;
use crate::hittable::HitRecord;
use crate::ray::Ray;
use crate::scalar::{Scalar, ONE_BITS, ZERO_BITS};
use crate::vec3::{Color, Vec3};

verus! {

/// A surface that emits and absorbs.
#[derive(Clone, Copy, Debug, PartialEq, Eq, Structural)]
pub struct Light {}

/// A diffuse surface.
#[derive(Clone, Copy, Debug, PartialEq, Eq, Structural)]
pub struct Lambertian {
    pub albedo: Color,
}

/// A mirror, roughened by `fuzz`.
#[derive(Clone, Copy, Debug, PartialEq, Eq, Structural)]
pub struct Metal {
    pub albedo: Color,
    pub fuzz: Scalar,
}

/// A clear solid with refractive index `ir`.
#[derive(Clone, Copy, Debug, PartialEq, Eq, Structural)]
pub struct Dielectric {
    pub ir: Scalar,
}

/// The material of a surface.
#[derive(Clone, Copy, Debug, PartialEq, Eq, Structural)]
pub enum Material {
    Lambertian(Lambertian),
    Metal(Metal),
    Dielectric(Dielectric),
    Light(Light),
}

/// What the caller has computed for one scatter event: for each kind of
/// material, the numbers that its rule reads.
#[derive(Clone, Copy, Debug, PartialEq, Eq, Structural)]
pub enum Sample {
    /// For a Lambertian surface: the normal plus a random unit vector.
    Diffuse { direction: Vec3 },
    /// For a metal: the reflection of the incoming direction plus `fuzz`
    /// times a random point of the unit sphere, and the dot product of that
    /// sum with the normal.
    Mirror { direction: Vec3, facing: Scalar },
    /// For a dielectric: the refraction ratio times the sine of the angle of
    /// incidence, Schlick's reflectance, a uniform draw from `[0, 1)`, and
    /// the two directions that the ray can take.
    Glass { sine: Scalar, reflectance: Scalar, draw: Scalar, reflected: Vec3, refracted: Vec3 },
    /// For a light: nothing.
    Glow,
}

/// The result of a scatter: `None` where the ray is absorbed; otherwise the
/// ray that goes on, if one does, and the attenuation.
pub type Scattered = Option<(Option<Ray>, Color)>;

/// What scatters a ray.
pub trait Scatterable {
    /// Whether `sample` holds what this material's rule reads.
    spec fn reads(&self, sample: &Sample) -> bool;

    /// What the material does with a ray that hit at `hit_record`.
    spec fn scattered(&self, hit_record: HitRecord, sample: Sample) -> Scattered;

    /// Scatters the ray that hit at `hit_record`.
    fn scatter(&self, hit_record: &HitRecord, sample: &Sample) -> (r: Scattered)
        requires
            self.reads(sample),
        ensures
            r == self.scattered(*hit_record, *sample),
    ;
}

impl Sample {
    /// Whether the sample holds what the rule of `material` reads.
    pub fn is_for(&self, material: &Material) -> (r: bool)
        ensures
            r == material.reads(self),
    {
        match (material, self) {
            (Material::Lambertian(_), Sample::Diffuse { .. }) => true,
            (Material::Metal(_), Sample::Mirror { .. }) => true,
            (Material::Dielectric(_), Sample::Glass { .. }) => true,
            (Material::Light(_), Sample::Glow) => true,
            _ => false,
        }
    }
}

impl Light {
    pub fn new() -> (light: Light)
        ensures
            light == (Light {}),
    {
        Light {}
    }
}

impl Scatterable for Light {
    open spec fn reads(&self, sample: &Sample) -> bool {
        sample is Glow
    }

    /// A light sends no ray on and gives white.
    open spec fn scattered(&self, hit_record: HitRecord, sample: Sample) -> Scattered {
        Some((None::<Ray>, Vec3::white()))
    }

    fn scatter(&self, hit_record: &HitRecord, sample: &Sample) -> (r: Scattered) {
        Some((None, Vec3::ones()))
    }
}

impl Lambertian {
    /// The direction a diffuse surface scatters in: the sampled one, or the
    /// normal where the sample is too short to be a direction.
    pub open spec fn direction(normal: Vec3, sampled: Vec3) -> Vec3 {
        if sampled.tiny() {
            normal
        } else {
            sampled
        }
    }
}

impl Scatterable for Lambertian {
    open spec fn reads(&self, sample: &Sample) -> bool {
        sample is Diffuse
    }

    /// A diffuse surface always scatters, from the hit point, and attenuates
    /// by its albedo.
    open spec fn scattered(&self, hit_record: HitRecord, sample: Sample) -> Scattered {
        Some(
            (
                Some(
                    Ray {
                        origin: hit_record.p,
                        dir: Lambertian::direction(hit_record.normal, sample->Diffuse_direction),
                    },
                ),
                self.albedo,
            ),
        )
    }

    fn scatter(&self, hit_record: &HitRecord, sample: &Sample) -> (r: Scattered)
        ensures
            r matches Some((Some(ray), attenuation)) && attenuation == self.albedo && ray.origin
                == hit_record.p,
    {
        let mut scatter_direction = match sample {
            Sample::Diffuse { direction } => *direction,
            _ => {
                assert(false);
                hit_record.normal
            },
        };
        if scatter_direction.near_zero() {
            scatter_direction = hit_record.normal;
        }
        let scattered = Ray::new(hit_record.p, scatter_direction);
        let attenuation = self.albedo;
        Some((Some(scattered), attenuation))
    }
}

impl Scatterable for Metal {
    open spec fn reads(&self, sample: &Sample) -> bool {
        sample is Mirror
    }

    /// A metal scatters in the fuzzed reflection only where that points away
    /// from the surface: its dot product with the normal is above zero.
    /// Otherwise the ray is absorbed.
    open spec fn scattered(&self, hit_record: HitRecord, sample: Sample) -> Scattered {
        if (Scalar { bits: ZERO_BITS }).less(sample->facing) {
            Some((Some(Ray { origin: hit_record.p, dir: sample->Mirror_direction }), self.albedo))
        } else {
            None
        }
    }

    fn scatter(&self, hit_record: &HitRecord, sample: &Sample) -> (r: Scattered) {
        match sample {
            Sample::Mirror { direction, facing } => {
                let scattered = Ray::new(hit_record.p, *direction);
                let attenuation = self.albedo;
                if facing.gt(Scalar::zero()) {
                    Some((Some(scattered), attenuation))
                } else {
                    None
                }
            },
            _ => {
                assert(false);
                None
            },
        }
    }
}

impl Dielectric {
    /// Whether the ray is reflected: always where it cannot be refracted
    /// (`sine`, the refraction ratio times the sine of the angle of
    /// incidence, is above one), and else where the reflectance is above the
    /// draw.
    pub open spec fn reflects(sine: Scalar, reflectance: Scalar, draw: Scalar) -> bool {
        (Scalar { bits: ONE_BITS }).less(sine) || draw.less(reflectance)
    }

    /// The ratio of the refractive indices that the ray passes between: the
    /// inverse of `ir` where it enters through the front face, `ir` itself
    /// where it leaves.
    pub fn refraction_ratio(&self, front_face: bool, inverse: Scalar) -> (ratio: Scalar)
        ensures
            ratio == if front_face {
                inverse
            } else {
                self.ir
            },
    {
        if front_face {
            inverse
        } else {
            self.ir
        }
    }
}

impl Scatterable for Dielectric {
    open spec fn reads(&self, sample: &Sample) -> bool {
        sample is Glass
    }

    /// A dielectric always sends a ray on, from the hit point and without
    /// tint: the reflected one or the refracted one.
    open spec fn scattered(&self, hit_record: HitRecord, sample: Sample) -> Scattered {
        Some(
            (
                Some(
                    Ray {
                        origin: hit_record.p,
                        dir: if Dielectric::reflects(
                            sample->sine,
                            sample->reflectance,
                            sample->draw,
                        ) {
                            sample->reflected
                        } else {
                            sample->refracted
                        },
                    },
                ),
                Vec3::white(),
            ),
        )
    }

    fn scatter(&self, hit_record: &HitRecord, sample: &Sample) -> (r: Scattered) {
        let attenuation = Vec3::ones();
        match sample {
            Sample::Glass { sine, reflectance, draw, reflected, refracted } => {
                let cannot_refract = sine.gt(Scalar::one());
                if cannot_refract || reflectance.gt(*draw) {
                    Some((Some(Ray::new(hit_record.p, *reflected)), attenuation))
                } else {
                    Some((Some(Ray::new(hit_record.p, *refracted)), attenuation))
                }
            },
            _ => {
                assert(false);
                None
            },
        }
    }
}

impl Material {
    pub fn new_lambertian(albedo: Color) -> (m: Material)
        ensures
            m == Material::Lambertian(Lambertian { albedo }),
    {
        Material::Lambertian(Lambertian { albedo })
    }

    pub fn new_metal(albedo: Color, fuzz: Scalar) -> (m: Material)
        ensures
            m == Material::Metal(Metal { albedo, fuzz }),
    {
        Material::Metal(Metal { albedo, fuzz })
    }

    pub fn new_dielectric(ir: Scalar) -> (m: Material)
        ensures
            m == Material::Dielectric(Dielectric { ir }),
    {
        Material::Dielectric(Dielectric { ir })
    }
}

impl Scatterable for Material {
    open spec fn reads(&self, sample: &Sample) -> bool {
        match self {
            Material::Lambertian(l) => l.reads(sample),
            Material::Metal(m) => m.reads(sample),
            Material::Dielectric(d) => d.reads(sample),
            Material::Light(l) => l.reads(sample),
        }
    }

    /// A material scatters by the rule of its kind.
    open spec fn scattered(&self, hit_record: HitRecord, sample: Sample) -> Scattered {
        match self {
            Material::Lambertian(l) => l.scattered(hit_record, sample),
            Material::Metal(m) => m.scattered(hit_record, sample),
            Material::Dielectric(d) => d.scattered(hit_record, sample),
            Material::Light(l) => l.scattered(hit_record, sample),
        }
    }

    fn scatter(&self, hit_record: &HitRecord, sample: &Sample) -> (r: Scattered) {
        match self {
            Material::Lambertian(l) => l.scatter(hit_record, sample),
            Material::Metal(m) => m.scatter(hit_record, sample),
            Material::Dielectric(d) => d.scatter(hit_record, sample),
            Material::Light(l) => l.scatter(hit_record, sample),
        }
    }
}

impl Default for Material {
    /// A black diffuse surface.
    fn default() -> (m: Material)
        ensures
            m == Material::Lambertian(Lambertian { albedo: Vec3::black() }),
    {
        Material::Lambertian(Lambertian { albedo: Vec3::zero() })
    }
}

} // verus!
