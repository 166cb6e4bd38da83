//! The path integrator's decisions and the layout of the image.
//!
//! The colour of a ray is found by casting it, asking the material that it
//! hits for a scattered ray, and going on with that ray until the depth is
//! used up. The arithmetic between those steps is the caller's; what happens
//! next is decided here. The image is a flat row-major buffer with three
//! bytes to a pixel. Each row is one band of it, and a band is filled by
//! one worker.
use vstd::prelude::*;
use crate::hittable::sphere::{Crossing, Sphere};
use crate::hittable::{hit_world, nearest, HitRecord};
use crate::material::Scattered;
use crate::ray::Ray;
use crate::scalar::{Scalar, INFINITY_BITS, ONE_BITS, ZERO_BITS};
use crate::utils::{clamp, clamped, quantized, to_byte};
use crate::vec3::{Color, Vec3};

verus! {

/// The pattern of `0.0001`, the least parameter at which a hit counts. A
/// scattered ray starts on a surface, and rounding must not make it hit
/// that surface at once.
pub const HIT_MIN_BITS: u64 = 0x3f1a_36e2_eb1c_432d;

/// The pattern of `-1.0`.
pub const MINUS_ONE_BITS: u64 = 0xbff0_0000_0000_0000;

/// The pattern of `0.1`: the chance, for each light of the scene, that a
/// bounce samples the lights directly.
pub const LIGHT_CHANCE_BITS: u64 = 0x3fb9_9999_9999_999a;

/// The depth limit of a ray that is cast at a light.
pub const LIGHT_RAY_MAX_DEPTH: i32 = 2;

/// The depth of a ray that is cast at a light: it is followed to what it
/// hits and no further.
pub const LIGHT_RAY_DEPTH: i32 = 1;

/// The colour of the sky straight up: `(0.5, 0.7, 1.0)`. The background
/// goes from white, straight down, to this.
pub fn sky() -> (color: Color)
    ensures
        color.x.bits == 0x3fe0_0000_0000_0000,
        color.y.bits == 0x3fe6_6666_6666_6666,
        color.z.bits == ONE_BITS,
{
    Vec3 {
        x: Scalar::from_bits(0x3fe0_0000_0000_0000),
        y: Scalar::from_bits(0x3fe6_6666_6666_6666),
        z: Scalar::one(),
    }
}

/// What became of a ray that was cast into the scene.
#[derive(Clone, Copy, Debug, PartialEq, Eq)]
pub enum Trace {
    /// It hit nothing.
    Miss,
    /// It hit a surface, whose material did this with it.
    Hit(Scattered),
}

/// What the colour of a ray is made of.
#[derive(Clone, Copy, Debug, PartialEq, Eq)]
pub enum Shade {
    /// Nothing is known yet: the ray is to be cast.
    Cast,
    /// This colour.
    Flat(Color),
    /// The sky behind the scene.
    Background,
    /// The attenuation times the colour of `ray` at `depth`, to which the
    /// light that reaches the hit point directly may be added where
    /// `direct` holds; each channel of the sum is then clamped.
    Bounce { attenuation: Color, ray: Ray, depth: i32, direct: bool },
}

/// What a ray of a path meets first: the closest hit in the world beyond
/// the parameter `0.0001`, however far. `crossings[i]` holds the ray's
/// arithmetic against `world[i]`.
pub fn first_hit(world: &Vec<Sphere>, crossings: &Vec<Crossing>) -> (r: Option<HitRecord>)
    requires
        crossings.len() == world.len(),
    ensures
        r == nearest(
            world@,
            crossings@,
            Scalar { bits: HIT_MIN_BITS },
            Scalar { bits: INFINITY_BITS },
        ),
{
    hit_world(world, crossings, Scalar::from_bits(HIT_MIN_BITS), Scalar::infinity())
}

/// The colour of a ray with `depth` bounces left, once `trace` is known of
/// it. A ray with no bounce left is black, whatever it would hit. A ray that
/// hits nothing shows the background. A ray that is absorbed is black; one
/// that ends on a surface has the surface's attenuation as its colour. A
/// ray that is scattered goes on with one bounce less. Light is sampled
/// directly only where there are lights and the path is within its first
/// two bounces.
pub open spec fn shade(trace: Option<Trace>, lights: usize, max_depth: i32, depth: i32) -> Shade {
    if depth <= 0 {
        Shade::Flat(Vec3::black())
    } else {
        match trace {
            None => Shade::Cast,
            Some(Trace::Miss) => Shade::Background,
            Some(Trace::Hit(None)) => Shade::Flat(Vec3::black()),
            Some(Trace::Hit(Some((None, attenuation)))) => Shade::Flat(attenuation),
            Some(Trace::Hit(Some((Some(ray), attenuation)))) => Shade::Bounce {
                attenuation,
                ray,
                depth: (depth - 1) as i32,
                direct: lights > 0 && depth > max_depth - 2,
            },
        }
    }
}

/// Decides what the colour of a ray is made of. The caller starts with no
/// trace; where the answer is `Cast` it casts the ray and asks again with
/// what became of it.
pub fn ray_color(trace: Option<Trace>, lights: usize, max_depth: i32, depth: i32) -> (r: Shade)
    ensures
        r == shade(trace, lights, max_depth, depth),
        depth <= 0 ==> r == Shade::Flat(Vec3::black()),
        r matches Shade::Bounce { depth: left, .. } ==> 0 <= left < depth,
{
    if depth <= 0 {
        return Shade::Flat(Vec3::zero());
    }
    match trace {
        None => Shade::Cast,
        Some(Trace::Miss) => Shade::Background,
        Some(Trace::Hit(None)) => Shade::Flat(Vec3::zero()),
        Some(Trace::Hit(Some((None, attenuation)))) => Shade::Flat(attenuation),
        Some(Trace::Hit(Some((Some(ray), attenuation)))) => {
            let direct = lights > 0 && (depth as i64) > (max_depth as i64) - 2;
            Shade::Bounce { attenuation, ray, depth: depth - 1, direct }
        },
    }
}

/// The parameter at which a ray first meets a sphere's surface, whether
/// behind its origin or ahead: the near root of `crossing`, or `-1` where
/// the discriminant is below zero.
pub fn hit_sphere(crossing: &Crossing) -> (t: Scalar)
    ensures
        t == if crossing.discriminant.less(Scalar { bits: ZERO_BITS }) {
            Scalar { bits: MINUS_ONE_BITS }
        } else {
            crossing.near.t
        },
{
    if crossing.discriminant.lt(Scalar::zero()) {
        Scalar::from_bits(MINUS_ONE_BITS)
    } else {
        crossing.near.t
    }
}

/// Whether light is sampled directly at a bounce that allows it: where the
/// uniform `draw` is above `threshold`, which is one minus a tenth for each
/// light.
pub fn direct_light(draw: Scalar, threshold: Scalar) -> (r: bool)
    ensures
        r == threshold.less(draw),
{
    draw.gt(threshold)
}

/// A colour with each channel brought into `[0, 1]`.
pub open spec fn saturated(color: Color) -> Color {
    Vec3 {
        x: clamped(color.x, Scalar { bits: ZERO_BITS }, Scalar { bits: ONE_BITS }),
        y: clamped(color.y, Scalar { bits: ZERO_BITS }, Scalar { bits: ONE_BITS }),
        z: clamped(color.z, Scalar { bits: ZERO_BITS }, Scalar { bits: ONE_BITS }),
    }
}

/// The colour of a bounce from its sum: the direct light plus the
/// attenuated colour of the scattered ray, each channel clamped to `[0, 1]`.
pub fn clamp_color(sum: Color) -> (color: Color)
    ensures
        color == saturated(sum),
{
    Vec3 {
        x: clamp(sum.x, Scalar::zero(), Scalar::one()),
        y: clamp(sum.y, Scalar::zero(), Scalar::one()),
        z: clamp(sum.z, Scalar::zero(), Scalar::one()),
    }
}

/// The number of bytes of an image of `bounds.0` by `bounds.1` pixels, or
/// none where that many cannot be held.
pub fn frame_len(bounds: (usize, usize)) -> (len: Option<usize>)
    ensures
        len == if 3 * (bounds.0 * bounds.1) <= usize::MAX {
            Some((3 * (bounds.0 * bounds.1)) as usize)
        } else {
            None
        },
{
    match bounds.0.checked_mul(bounds.1) {
        Some(pixels) => pixels.checked_mul(3),
        None => {
            assert(3 * (bounds.0 * bounds.1) > usize::MAX) by (nonlinear_arith)
                requires
                    bounds.0 * bounds.1 > usize::MAX,
            ;
            None
        },
    }
}

/// The channel `channel` of a colour.
pub open spec fn channel_of(color: Color, channel: int) -> Scalar {
    if channel == 0 {
        color.x
    } else if channel == 1 {
        color.y
    } else {
        color.z
    }
}

/// Writes one row of the image into its band: the three bytes of the pixel
/// `x` go to `3 * x` and the two places after it. `colors[x]` is that
/// pixel's colour, averaged over its samples and gamma-corrected. What lies
/// behind the row in `pixels` stays.
pub fn render_line(pixels: &mut [u8], colors: &Vec<Color>)
    requires
        3 * colors.len() <= old(pixels).len(),
    ensures
        final(pixels).len() == old(pixels).len(),
        forall|x: int, channel: int|
            0 <= x < colors.len() && 0 <= channel < 3 ==> #[trigger] final(pixels)[3 * x + channel]
                == quantized(channel_of(colors[x], channel)),
        forall|i: int|
            3 * colors.len() <= i < old(pixels).len() ==> final(pixels)[i] == old(pixels)[i],
{
    let mut x: usize = 0;
    while x < colors.len()
        invariant
            x <= colors.len(),
            3 * colors.len() <= pixels.len(),
            pixels.len() == old(pixels).len(),
            forall|done: int, channel: int|
                0 <= done < x && 0 <= channel < 3 ==> #[trigger] pixels[3 * done + channel]
                    == quantized(channel_of(colors[done], channel)),
            forall|i: int| 3 * x <= i < pixels.len() ==> pixels[i] == old(pixels)[i],
        decreases colors.len() - x,
    {
        let color = colors[x];
        pixels[x * 3] = to_byte(color.x);
        pixels[x * 3 + 1] = to_byte(color.y);
        pixels[x * 3 + 2] = to_byte(color.z);
        x += 1;
    }
}

/// The place of a byte in the image: channel `channel` of the pixel in
/// column `x` of row `y`, in an image `width` pixels wide.
pub open spec fn offset(width: int, x: int, y: int, channel: int) -> int {
    3 * (width * y + x) + channel
}

/// Row `y` of an image `width` pixels wide and `height` pixels high is the
/// band of `3 * width` bytes that starts at `3 * width * y`: every byte of
/// the row lies in it, at the place where `render_line` puts it, and the
/// band lies in the image.
pub proof fn lemma_band_holds_row(width: int, height: int, x: int, y: int, channel: int)
    requires
        0 <= x < width,
        0 <= y < height,
        0 <= channel < 3,
    ensures
        offset(width, x, y, channel) == 3 * width * y + (3 * x + channel),
        3 * width * y <= offset(width, x, y, channel) < 3 * width * (y + 1),
        3 * width * (y + 1) <= 3 * (width * height),
{
    assert(3 * (width * y + x) == 3 * width * y + 3 * x) by (nonlinear_arith);
    assert(3 * width * (y + 1) == 3 * width * y + 3 * width) by (nonlinear_arith);
    assert(3 * width * (y + 1) <= 3 * (width * height)) by (nonlinear_arith)
        requires
            y + 1 <= height,
            width >= 0,
    ;
}

/// No two bands share a byte: the band of a later row starts where that of
/// the row before it ends, or behind it. So the workers that fill the rows
/// never write to one place.
pub proof fn lemma_bands_disjoint(width: int, first: int, second: int)
    requires
        0 <= width,
        0 <= first < second,
    ensures
        3 * width * (first + 1) <= 3 * width * second,
{
    assert(3 * width * (first + 1) <= 3 * width * second) by (nonlinear_arith)
        requires
            first + 1 <= second,
            width >= 0,
    ;
}

/// The place of a byte says which byte it is: two bytes at one place are
/// the same channel of the same pixel.
pub proof fn lemma_offset_names_byte(
    width: int,
    x1: int,
    y1: int,
    channel1: int,
    x2: int,
    y2: int,
    channel2: int,
)
    requires
        0 <= x1 < width,
        0 <= x2 < width,
        0 <= y1,
        0 <= y2,
        0 <= channel1 < 3,
        0 <= channel2 < 3,
        offset(width, x1, y1, channel1) == offset(width, x2, y2, channel2),
    ensures
        x1 == x2,
        y1 == y2,
        channel1 == channel2,
{
    assert(width * y1 + x1 == width * y2 + x2);
    if y1 < y2 {
        assert(width * (y1 + 1) <= width * y2) by (nonlinear_arith)
            requires
                y1 + 1 <= y2,
                width >= 0,
        ;
        assert(width * (y1 + 1) == width * y1 + width) by (nonlinear_arith);
    } else if y2 < y1 {
        assert(width * (y2 + 1) <= width * y1) by (nonlinear_arith)
            requires
                y2 + 1 <= y1,
                width >= 0,
        ;
        assert(width * (y2 + 1) == width * y2 + width) by (nonlinear_arith);
    }
}

} // verus!
