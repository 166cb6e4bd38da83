use raytracer::hittable::sphere::{Crossing, Sphere, Touch};
use raytracer::material::{Material, Sample, Scatterable};
use raytracer::ray::Ray;
use raytracer::renderer::{
    clamp_color, first_hit, frame_len, hit_sphere, ray_color, render_line, sky, Shade, Trace,
    LIGHT_CHANCE_BITS, LIGHT_RAY_DEPTH, LIGHT_RAY_MAX_DEPTH, MINUS_ONE_BITS,
};
use raytracer::scalar::Scalar;
use raytracer::vec3::Vec3;

type V = [f64; 3];

fn pat(x: f64) -> Scalar {
    Scalar::from_bits(x.to_bits())
}

fn val(s: Scalar) -> f64 {
    f64::from_bits(s.to_bits())
}

fn pack(a: V) -> Vec3 {
    Vec3::new(pat(a[0]), pat(a[1]), pat(a[2]))
}

fn unpack(v: Vec3) -> V {
    [val(v.x()), val(v.y()), val(v.z())]
}

fn plus(a: V, b: V) -> V {
    [a[0] + b[0], a[1] + b[1], a[2] + b[2]]
}

fn minus(a: V, b: V) -> V {
    [a[0] - b[0], a[1] - b[1], a[2] - b[2]]
}

fn times(k: f64, a: V) -> V {
    [k * a[0], k * a[1], k * a[2]]
}

fn inner(a: V, b: V) -> f64 {
    a[0] * b[0] + a[1] * b[1] + a[2] * b[2]
}

fn unit(a: V) -> V {
    times(1.0 / inner(a, a).sqrt(), a)
}

fn touch_at(center: V, radius: f64, origin: V, dir: V, t: f64) -> Touch {
    let p = plus(origin, times(t, dir));
    let normal = times(1.0 / radius, minus(p, center));
    Touch { t: pat(t), p: pack(p), outward_normal: pack(normal), facing: pat(inner(dir, normal)) }
}

fn crossing_of(sphere: &Sphere, origin: V, dir: V) -> Crossing {
    let center = unpack(sphere.center);
    let radius = val(sphere.radius);
    let oc = minus(origin, center);
    let a = inner(dir, dir);
    let half_b = inner(oc, dir);
    let c = inner(oc, oc) - radius * radius;
    let discriminant = half_b * half_b - a * c;
    let sqrtd = discriminant.sqrt();
    Crossing {
        discriminant: pat(discriminant),
        near: touch_at(center, radius, origin, dir, (-half_b - sqrtd) / a),
        far: touch_at(center, radius, origin, dir, (-half_b + sqrtd) / a),
    }
}

fn background(dir: V) -> V {
    let t = val(raytracer::utils::clamp(pat(0.5 * (unit(dir)[1] + 1.0)), pat(0.0), pat(1.0)));
    plus(times(1.0 - t, unpack(Vec3::ones())), times(t, unpack(sky())))
}

/// The colour along a ray, with the library's decisions and with a diffuse
/// sample that always points straight up.
fn color_along(origin: V, dir: V, world: &Vec<Sphere>, max_depth: i32, depth: i32) -> V {
    let mut shade = ray_color(None, 0, max_depth, depth);
    if let Shade::Cast = shade {
        let crossings: Vec<Crossing> =
            world.iter().map(|sphere| crossing_of(sphere, origin, dir)).collect();
        let hit = first_hit(world, &crossings);
        let trace = match hit {
            None => Trace::Miss,
            Some(rec) => match rec.material {
                Material::Lambertian(l) => {
                    let sampled = plus(unpack(rec.normal), [0.0, 1.0, 0.0]);
                    Trace::Hit(l.scatter(&rec, &Sample::Diffuse { direction: pack(sampled) }))
                }
                other => panic!("{:?}", other),
            },
        };
        shade = ray_color(Some(trace), 0, max_depth, depth);
    }
    match shade {
        Shade::Cast => unreachable!(),
        Shade::Flat(color) => unpack(color),
        Shade::Background => background(dir),
        Shade::Bounce { attenuation, ray, depth: left, direct } => {
            assert!(!direct);
            let target =
                color_along(unpack(ray.origin()), unpack(ray.dir()), world, max_depth, left);
            let a = unpack(attenuation);
            let product = [a[0] * target[0], a[1] * target[1], a[2] * target[2]];
            unpack(clamp_color(pack(product)))
        }
    }
}

fn render_square(side: usize, world: &Vec<Sphere>, max_depth: i32) -> Vec<u8> {
    let mut pixels = vec![0u8; frame_len((side, side)).unwrap()];
    let lower_left: V = [-1.0, -1.0, -1.0];
    for (y, band) in pixels.chunks_mut(side * 3).enumerate() {
        let mut colors = Vec::new();
        for x in 0..side {
            let u = x as f64 / (side - 1) as f64;
            let v = (side - 1 - y) as f64 / (side - 1) as f64;
            let dir = plus(lower_left, [2.0 * u, 2.0 * v, 0.0]);
            let c = color_along([0.0, 0.0, 0.0], dir, world, max_depth, max_depth);
            colors.push(pack([c[0].sqrt(), c[1].sqrt(), c[2].sqrt()]));
        }
        render_line(band, &colors);
    }
    pixels
}

fn byte(x: f64) -> u8 {
    let clamped = if x < 0.0 {
        0.0
    } else if x > 0.999 {
        0.999
    } else {
        x
    };
    (256.0 * clamped) as u8
}

fn one_sphere() -> Vec<Sphere> {
    vec![Sphere::new(
        pack([0.0, 0.0, -1.0]),
        pat(0.5),
        Material::new_lambertian(pack([0.7, 0.3, 0.3])),
    )]
}

#[test]
fn single_sphere_with_one_bounce() {
    let pixels = render_square(3, &one_sphere(), 1);
    assert_eq!(pixels.len(), 27);
    assert_eq!(pixels[12..15], [0, 0, 0]);
    let up = 0.5 * (1.0 / 3.0f64.sqrt() + 1.0);
    let down = 0.5 * (-1.0 / 3.0f64.sqrt() + 1.0);
    let top = [1.0 - up + up * 0.5, 1.0 - up + up * 0.7, 1.0];
    let bottom = [1.0 - down + down * 0.5, 1.0 - down + down * 0.7, 1.0];
    let top_bytes = [byte(top[0].sqrt()), byte(top[1].sqrt()), byte(top[2].sqrt())];
    let bottom_bytes = [byte(bottom[0].sqrt()), byte(bottom[1].sqrt()), byte(bottom[2].sqrt())];
    assert_eq!(top_bytes, [199, 223, 255]);
    assert_eq!(bottom_bytes, [242, 247, 255]);
    assert_eq!(pixels[0..3], top_bytes);
    assert_eq!(pixels[6..9], top_bytes);
    assert_eq!(pixels[18..21], bottom_bytes);
    assert_eq!(pixels[24..27], bottom_bytes);
}

#[test]
fn single_sphere_with_two_bounces_shows_a_dimmed_albedo() {
    let pixels = render_square(3, &one_sphere(), 2);
    let sky_seen = background([0.0, 1.0, 1.0]);
    let expected = [
        byte((0.7 * sky_seen[0]).sqrt()),
        byte((0.3 * sky_seen[1]).sqrt()),
        byte((0.3 * sky_seen[2]).sqrt()),
    ];
    assert_eq!(pixels[12..15], expected);
    assert_eq!(expected, [162, 120, 140]);
    let background_center = byte(background([0.0, 0.0, -1.0])[0].sqrt());
    assert_ne!(pixels[12], background_center);
}

#[test]
fn rendering_twice_gives_the_same_bytes() {
    assert_eq!(render_square(5, &one_sphere(), 3), render_square(5, &one_sphere(), 3));
}

#[test]
fn hit_sphere_gives_the_near_root_or_minus_one() {
    let sphere = &one_sphere()[0];
    let ahead = crossing_of(sphere, [0.0, 0.0, 0.0], [0.0, 0.0, -1.0]);
    assert_eq!(hit_sphere(&ahead), pat(0.5));
    let aside = crossing_of(sphere, [0.0, 0.0, 0.0], [0.0, 1.0, 0.0]);
    assert_eq!(hit_sphere(&aside), pat(-1.0));
    let behind = crossing_of(sphere, [0.0, 0.0, 0.0], [0.0, 0.0, 1.0]);
    assert_eq!(hit_sphere(&behind), pat(-1.5));
}

#[test]
fn constants_of_the_integrator() {
    assert_eq!(MINUS_ONE_BITS, (-1.0f64).to_bits());
    assert_eq!(LIGHT_CHANCE_BITS, 0.1f64.to_bits());
    assert_eq!(LIGHT_RAY_MAX_DEPTH, 2);
    assert_eq!(LIGHT_RAY_DEPTH, 1);
    assert_eq!(sky(), pack([0.5, 0.7, 1.0]));
}

#[test]
fn light_rays_are_followed_to_what_they_hit() {
    let albedo = pack([0.7, 0.3, 0.3]);
    let ray = Ray::new(pack([0.0, 0.0, 0.0]), pack([0.0, 1.0, 0.0]));
    let trace = Some(Trace::Hit(Some((Some(ray), albedo))));
    assert_eq!(
        ray_color(trace, 1, LIGHT_RAY_MAX_DEPTH, LIGHT_RAY_DEPTH),
        Shade::Bounce { attenuation: albedo, ray, depth: 0, direct: true }
    );
    assert_eq!(
        ray_color(Some(Trace::Hit(Some((None, Vec3::ones())))), 1, LIGHT_RAY_MAX_DEPTH, LIGHT_RAY_DEPTH),
        Shade::Flat(Vec3::ones())
    );
}

#[test]
fn points_of_the_cube_outside_the_sphere_are_not_kept() {
    assert!(Vec3::in_unit_sphere(pat(0.0)));
    assert!(Vec3::in_unit_sphere(pat(0.999_999)));
    assert!(!Vec3::in_unit_sphere(pat(1.0)));
    assert!(!Vec3::in_unit_sphere(pat(3.0)));
    assert!(!Vec3::in_unit_sphere(pat(f64::NAN)));
}

#[test]
fn hemisphere_sample_is_on_the_side_of_the_normal() {
    let sample = pack([0.3, -0.2, 0.1]);
    assert_eq!(Vec3::random_in_hemisphere(sample, pat(0.2)), sample);
    assert_eq!(Vec3::random_in_hemisphere(sample, pat(-0.2)), pack([-0.3, 0.2, -0.1]));
    assert_eq!(Vec3::random_in_hemisphere(sample, pat(0.0)), pack([-0.3, 0.2, -0.1]));
}

#[test]
fn first_hit_skips_the_surface_that_the_ray_starts_on() {
    let world = one_sphere();
    let on_surface = [0.0, 0.0, -0.5];
    let away = vec![crossing_of(&world[0], on_surface, [0.0, 0.0, 1.0])];
    assert_eq!(first_hit(&world, &away), None);
    let through = vec![crossing_of(&world[0], on_surface, [0.0, 0.0, -1.0])];
    assert_eq!(first_hit(&world, &through).unwrap().t, pat(1.0));
    let far = vec![crossing_of(&world[0], [0.0, 0.0, 99.0], [0.0, 0.0, -1.0])];
    assert_eq!(first_hit(&world, &far).unwrap().t, pat(99.5));
}
