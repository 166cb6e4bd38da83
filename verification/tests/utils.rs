use raytracer::scalar::Scalar;
use raytracer::utils::{clamp, to_byte, write_color, CHANNEL_LIMIT_BITS};
use raytracer::vec3::Vec3;

fn num(x: f64) -> Scalar {
    Scalar::from_bits(x.to_bits())
}

fn float_clamp(x: f64, min: f64, max: f64) -> f64 {
    if x < min {
        return min;
    }
    if x > max {
        return max;
    }
    x
}

fn float_byte(x: f64) -> u8 {
    (256.0 * float_clamp(x, 0.0, 0.999)) as u8
}

#[test]
fn clamp_brings_into_the_interval() {
    assert_eq!(clamp(num(0.5), num(0.0), num(1.0)), num(0.5));
    assert_eq!(clamp(num(-0.5), num(0.0), num(1.0)), num(0.0));
    assert_eq!(clamp(num(1.5), num(0.0), num(1.0)), num(1.0));
    assert_eq!(clamp(num(0.0), num(0.0), num(1.0)), num(0.0));
    assert_eq!(clamp(num(1.0), num(0.0), num(1.0)), num(1.0));
    assert_eq!(clamp(num(f64::INFINITY), num(0.0), num(1.0)), num(1.0));
    assert_eq!(clamp(num(f64::NEG_INFINITY), num(0.0), num(1.0)), num(0.0));
}

#[test]
fn clamp_keeps_what_is_not_a_number() {
    let nan = num(f64::NAN);
    assert_eq!(clamp(nan, num(0.0), num(1.0)), nan);
    assert_eq!(clamp(num(-0.0), num(0.0), num(1.0)), num(-0.0));
}

#[test]
fn channel_limit_is_the_pattern_of_its_number() {
    assert_eq!(CHANNEL_LIMIT_BITS, 0.999f64.to_bits());
}

#[test]
fn to_byte_exact_values() {
    assert_eq!(to_byte(num(0.0)), 0);
    assert_eq!(to_byte(num(-0.0)), 0);
    assert_eq!(to_byte(num(0.5)), 128);
    assert_eq!(to_byte(num(0.25)), 64);
    assert_eq!(to_byte(num(0.999)), 255);
    assert_eq!(to_byte(num(1.0)), 255);
    assert_eq!(to_byte(num(2.0)), 255);
    assert_eq!(to_byte(num(-1.0)), 0);
    assert_eq!(to_byte(num(1.0 / 256.0)), 1);
    assert_eq!(to_byte(num(0.00390624)), 0);
    assert_eq!(to_byte(num(255.0 / 256.0)), 255);
    assert_eq!(to_byte(num(254.999 / 256.0)), 254);
    assert_eq!(to_byte(num(f64::INFINITY)), 255);
    assert_eq!(to_byte(num(f64::NEG_INFINITY)), 0);
    assert_eq!(to_byte(num(f64::NAN)), 0);
    assert_eq!(to_byte(num(5e-324)), 0);
}

#[test]
fn to_byte_is_the_floor_of_256_times_the_channel() {
    let mut x = -0.25f64;
    while x < 1.25 {
        assert_eq!(to_byte(num(x)), float_byte(x), "{}", x);
        x += 0.000_37;
    }
    for k in 0..=256u32 {
        let edge = k as f64 / 256.0;
        for bits in [edge.to_bits().wrapping_sub(1), edge.to_bits(), edge.to_bits() + 1] {
            let y = f64::from_bits(bits);
            assert_eq!(to_byte(num(y)), float_byte(y), "{}", y);
        }
    }
}

#[test]
fn write_color_quantizes_each_channel() {
    let gamma = Vec3::new(num(0.5f64.sqrt()), num(0.7f64.sqrt()), num(1.0f64.sqrt()));
    assert_eq!(write_color(gamma), [181, 214, 255]);
    assert_eq!(write_color(Vec3::zero()), [0, 0, 0]);
    assert_eq!(write_color(Vec3::ones()), [255, 255, 255]);
}
